//! The messages that cross the wire between the relay and its clients.
//!
//! Identities and the host secret are 128-bit numbers; a save path is text.

use vstd::prelude::*;

verus! {

/// What a client asks of the relay.
#[derive(Clone, Copy, Debug, PartialEq, Eq, Structural)]
pub enum ToServerKind {
    /// `bytes` hold an encoded delta of the document.
    Diff,
    /// The sender claims the host slot with this secret.
    Host(u128),
}

/// A message from a client.
#[derive(Debug)]
pub struct ToServer {
    pub kind: ToServerKind,
    pub bytes: Vec<u8>,
}

/// What the relay tells a client.
#[derive(Debug, PartialEq, Eq)]
pub enum ToClientKind {
    /// `bytes` summarise the document as it stands.
    State,
    /// The host is to persist the document, carried in `bytes`, at this path.
    Save(String),
}

/// A message to a client.
#[derive(Debug, PartialEq, Eq)]
pub struct ToClient {
    pub kind: ToClientKind,
    pub bytes: Vec<u8>,
}

/// A request from outside the session to persist the document.
#[derive(Debug)]
pub struct Save {
    pub path: String,
}

/// `ToClientKind` as a value of the contracts.
pub enum ToClientKindView {
    State,
    Save(Seq<char>),
}

/// `ToClient` as a value of the contracts.
pub struct ToClientView {
    pub kind: ToClientKindView,
    pub bytes: Seq<u8>,
}

impl View for ToClientKind {
    type V = ToClientKindView;

    open spec fn view(&self) -> ToClientKindView {
        match self {
            ToClientKind::State => ToClientKindView::State,
            ToClientKind::Save(path) => ToClientKindView::Save(path@),
        }
    }
}

impl View for ToClient {
    type V = ToClientView;

    open spec fn view(&self) -> ToClientView {
        ToClientView { kind: self.kind@, bytes: self.bytes@ }
    }
}

impl View for Save {
    type V = Seq<char>;

    open spec fn view(&self) -> Seq<char> {
        self.path@
    }
}

impl Clone for ToServer {
    fn clone(&self) -> (copy: ToServer)
        ensures
            copy.kind == self.kind,
            copy.bytes@ == self.bytes@,
    {
        ToServer { kind: self.kind, bytes: self.bytes.clone() }
    }
}

impl Clone for ToClientKind {
    fn clone(&self) -> (copy: ToClientKind)
        ensures
            copy@ == self@,
    {
        match self {
            ToClientKind::State => ToClientKind::State,
            ToClientKind::Save(path) => ToClientKind::Save(path.clone()),
        }
    }
}

impl Clone for ToClient {
    fn clone(&self) -> (copy: ToClient)
        ensures
            copy@ == self@,
    {
        ToClient { kind: self.kind.clone(), bytes: self.bytes.clone() }
    }
}

impl Clone for Save {
    fn clone(&self) -> (copy: Save)
        ensures
            copy@ == self@,
    {
        Save { path: self.path.clone() }
    }
}

/// The state message for a connection that has just joined.
pub fn state_message(summary: Vec<u8>) -> (message: ToClient)
    ensures
        message@ == (ToClientView { kind: ToClientKindView::State, bytes: summary@ }),
{
    ToClient { kind: ToClientKind::State, bytes: summary }
}

/// The save message for the host: where to write, and what.
pub fn save_message(request: Save, snapshot: Vec<u8>) -> (message: ToClient)
    ensures
        message@ == (ToClientView { kind: ToClientKindView::Save(request@), bytes: snapshot@ }),
{
    ToClient { kind: ToClientKind::Save(request.path), bytes: snapshot }
}

} // verus!
