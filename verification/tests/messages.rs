use neoshare::outbound::Delivery;
use neoshare::outbound::Outbound;
use neoshare::outbound::Rejection;
use neoshare::protocol::save_message;
use neoshare::protocol::state_message;
use neoshare::protocol::Save;
use neoshare::protocol::ToClient;
use neoshare::protocol::ToClientKind;
use neoshare::protocol::ToServer;
use neoshare::protocol::ToServerKind;

#[test]
fn rejections_have_their_wire_text() {
    assert_eq!(Rejection::InvalidHostKey.text(), "Invalid host key");
    assert_eq!(Rejection::HostAlreadySet.text(), "Host already set");
    assert_eq!(Rejection::InvalidDiff.text(), "Invalid diff");
}

#[test]
fn state_message_carries_the_summary() {
    let message = state_message(vec![1, 2, 3]);
    assert_eq!(message, ToClient { kind: ToClientKind::State, bytes: vec![1, 2, 3] });
}

#[test]
fn save_message_carries_path_and_snapshot() {
    let message = save_message(Save { path: "notes/today.md".to_string() }, vec![9, 8]);
    assert_eq!(
        message,
        ToClient { kind: ToClientKind::Save("notes/today.md".to_string()), bytes: vec![9, 8] }
    );
}

#[test]
fn clones_keep_the_contents() {
    let message = ToClient { kind: ToClientKind::Save("a".to_string()), bytes: vec![7] };
    assert_eq!(message.clone(), message);
    let delivery = Delivery { to: 3, payload: Outbound::Message(message) };
    assert_eq!(delivery.clone(), delivery);
    let relay = Outbound::Relay("frame".to_string());
    assert_eq!(relay.clone(), relay);
    let request = Save { path: "p".to_string() };
    assert_eq!(request.clone().path, "p");
    let inbound = ToServer { kind: ToServerKind::Host(5), bytes: vec![1, 2] };
    let copy = inbound.clone();
    assert_eq!(copy.kind, ToServerKind::Host(5));
    assert_eq!(copy.bytes, vec![1, 2]);
}

#[test]
fn inbound_kinds_compare_by_content() {
    assert_eq!(ToServerKind::Diff, ToServerKind::Diff);
    assert_eq!(ToServerKind::Host(1), ToServerKind::Host(1));
    assert_ne!(ToServerKind::Host(1), ToServerKind::Host(2));
    assert_ne!(ToServerKind::Host(1), ToServerKind::Diff);
}
