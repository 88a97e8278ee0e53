//! What the editor's command makes of its arguments, and what it says.

use vstd::prelude::*;
use vstd::string::StringExecFns;

verus! {

/// A command given in the editor.
#[derive(Debug, PartialEq, Eq)]
pub enum Command {
    /// Start a session, on a workspace if one is named.
    Start(Option<String>),
    /// Anything else, by its name.
    Unknown(String),
}

/// `Command` as a value of the contracts.
pub enum CommandView {
    Start(Option<Seq<char>>),
    Unknown(Seq<char>),
}

impl View for Command {
    type V = CommandView;

    open spec fn view(&self) -> CommandView {
        match self {
            Command::Start(Some(workspace)) => CommandView::Start(Some(workspace@)),
            Command::Start(None) => CommandView::Start(None),
            Command::Unknown(name) => CommandView::Unknown(name@),
        }
    }
}

/// The command that `name` stands for, with the argument that follows it.
pub open spec fn command_of(name: Seq<char>, argument: Option<Seq<char>>) -> CommandView {
    if name == "start"@ {
        CommandView::Start(argument)
    } else {
        CommandView::Unknown(name)
    }
}

/// What the editor is told of a command that it does not know.
pub open spec fn unknown_command_notice(name: Seq<char>) -> Seq<char> {
    "Unknown command \""@ + name + "\""@
}

/// What the editor is told when a session has started.
pub open spec fn started_notice(workspace: Option<Seq<char>>) -> Seq<char> {
    match workspace {
        Some(workspace) => "Started session"@ + " at \""@ + workspace + "\""@ + "."@,
        None => "Started session"@ + "."@,
    }
}

/// The arguments that the relay is started with.
pub open spec fn relay_arguments(host_key: Seq<char>, workspace: Option<Seq<char>>) -> Seq<
    Seq<char>,
> {
    match workspace {
        Some(workspace) => seq!["--host-key"@, host_key, workspace],
        None => seq!["--host-key"@, host_key],
    }
}

/// Reads a command from its name and the argument behind it.
pub fn parse_command(name: &str, argument: Option<&str>) -> (command: Command)
    ensures
        command@ == command_of(
            name@,
            match argument {
                Some(argument) => Some(argument@),
                None => None,
            },
        ),
{
    if name.to_owned() == "start".to_owned() {
        match argument {
            Some(argument) => Command::Start(Some(argument.to_owned())),
            None => Command::Start(None),
        }
    } else {
        Command::Unknown(name.to_owned())
    }
}

/// The notice for a command that is not known.
pub fn unknown_command_text(name: &str) -> (text: String)
    ensures
        text@ == unknown_command_notice(name@),
{
    let mut text = String::from_str("Unknown command \"");
    text.append(name);
    text.append("\"");
    text
}

/// The notice for a session that has started.
pub fn started_text(workspace: Option<&str>) -> (text: String)
    ensures
        text@ == started_notice(
            match workspace {
                Some(workspace) => Some(workspace@),
                None => None,
            },
        ),
{
    let mut text = String::from_str("Started session");
    if let Some(workspace) = workspace {
        text.append(" at \"");
        text.append(workspace);
        text.append("\"");
    }
    text.append(".");
    text
}

/// The arguments to start the relay with: the host key and, if one is
/// named, the workspace.
pub fn relay_command_line(host_key: &str, workspace: Option<&str>) -> (arguments: Vec<String>)
    ensures
        arguments.deep_view() == relay_arguments(
            host_key@,
            match workspace {
                Some(workspace) => Some(workspace@),
                None => None,
            },
        ),
{
    let mut arguments: Vec<String> = Vec::new();
    arguments.push("--host-key".to_owned());
    arguments.push(host_key.to_owned());
    if let Some(workspace) = workspace {
        arguments.push(workspace.to_owned());
    }
    assert(arguments.deep_view() =~= relay_arguments(
        host_key@,
        match workspace {
            Some(workspace) => Some(workspace@),
            None => None,
        },
    ));
    arguments
}

} // verus!
