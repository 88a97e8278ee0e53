use neoshare::outbound::Delivery;
use neoshare::outbound::Outbound;
use neoshare::protocol::ToClientKind;
use neoshare::protocol::ToServer;
use neoshare::protocol::ToServerKind;
use neoshare::session::DiffError;
use neoshare::session::Reaction;
use neoshare::session::Session;
use yrs::updates::decoder::Decode;
use yrs::updates::encoder::Encode;
use yrs::Doc;
use yrs::GetString;
use yrs::ReadTxn;
use yrs::StateVector;
use yrs::Text;
use yrs::Transact;
use yrs::Update;

const SECRET: u128 = 99;

struct Peer {
    id: u128,
    doc: Doc,
    inbox: Vec<String>,
}

impl Peer {
    fn new(id: u128) -> Peer {
        Peer { id, doc: Doc::with_client_id(id as u64), inbox: Vec::new() }
    }

    fn text(&self) -> String {
        let text = self.doc.get_or_insert_text("content");
        let txn = self.doc.transact();
        text.get_string(&txn)
    }

    fn type_at(&self, at: u32, chunk: &str) -> Vec<u8> {
        let text = self.doc.get_or_insert_text("content");
        let mut txn = self.doc.transact_mut();
        text.insert(&mut txn, at, chunk);
        txn.encode_update_v2()
    }

    fn take(&self, delta: &[u8]) {
        let update = Update::decode_v2(delta).unwrap();
        self.doc.transact_mut().apply_update(update).unwrap();
    }

    fn drain(&mut self) {
        let frames: Vec<String> = self.inbox.drain(..).collect();
        for frame in frames {
            self.take(&delta_of(&frame));
        }
    }
}

fn frame_of(delta: &[u8]) -> String {
    format!("{{\"kind\":\"Diff\",\"bytes\":{:?}}}", delta)
}

fn delta_of(frame: &str) -> Vec<u8> {
    let value: serde_json::Value = serde_json::from_str(frame).unwrap();
    assert_eq!(value["kind"], "Diff");
    value["bytes"].as_array().unwrap().iter().map(|byte| byte.as_u64().unwrap() as u8).collect()
}

fn integrate(document: &Doc, delta: &[u8]) -> Result<(), DiffError> {
    match Update::decode_v2(delta) {
        Err(_) => Err(DiffError::Malformed),
        Ok(update) => match document.transact_mut().apply_update(update) {
            Err(_) => Err(DiffError::Refused),
            Ok(()) => Ok(()),
        },
    }
}

fn summary(document: &Doc) -> Vec<u8> {
    document.transact().state_vector().encode_v2()
}

fn snapshot(document: &Doc) -> Vec<u8> {
    document.transact().encode_state_as_update_v2(&StateVector::default())
}

fn send(
    session: &mut Session,
    document: &Doc,
    peers: &mut Vec<Peer>,
    from: u128,
    delta: &[u8],
) -> Vec<Delivery> {
    let frame = frame_of(delta);
    let message = ToServer { kind: ToServerKind::Diff, bytes: delta.to_vec() };
    let deliveries = match session.receive(from, &frame, Some(message)) {
        Reaction::Integrate(pending) => {
            let outcome = integrate(document, pending.delta());
            session.settle_diff(pending, outcome)
        }
        Reaction::Deliver(deliveries) => deliveries,
    };
    for delivery in deliveries.iter() {
        if let Outbound::Relay(frame) = &delivery.payload {
            let peer = peers.iter_mut().find(|peer| peer.id == delivery.to).unwrap();
            peer.inbox.push(frame.clone());
        }
    }
    deliveries
}

#[test]
fn peers_converge_through_the_relay() {
    let document = Doc::with_client_id(1000);
    let mut session = Session::new(SECRET);
    let mut peers = vec![Peer::new(1), Peer::new(2), Peer::new(3)];
    for peer in peers.iter() {
        session.join(peer.id, summary(&document));
    }

    let first = peers[0].type_at(0, "alpha ");
    let second = peers[1].type_at(0, "beta ");
    let third = peers[2].type_at(0, "gamma ");
    send(&mut session, &document, &mut peers, 2, &second);
    send(&mut session, &document, &mut peers, 1, &first);
    send(&mut session, &document, &mut peers, 3, &third);
    for peer in peers.iter_mut() {
        peer.drain();
    }
    let more = peers[1].type_at(0, "delta ");
    send(&mut session, &document, &mut peers, 2, &more);
    for peer in peers.iter_mut() {
        peer.drain();
    }

    let agreed = peers[0].text();
    assert_eq!(agreed.len(), "alpha beta gamma delta ".len());
    for word in ["alpha ", "beta ", "gamma ", "delta "] {
        assert!(agreed.contains(word));
    }
    assert_eq!(peers[1].text(), agreed);
    assert_eq!(peers[2].text(), agreed);

    let restored = Peer::new(4);
    restored.take(&snapshot(&document));
    assert_eq!(restored.text(), agreed);
}

#[test]
fn nobody_gets_its_own_diff_back() {
    let document = Doc::with_client_id(1000);
    let mut session = Session::new(SECRET);
    let mut peers = vec![Peer::new(1), Peer::new(2), Peer::new(3)];
    for peer in peers.iter() {
        session.join(peer.id, summary(&document));
    }
    let delta = peers[0].type_at(0, "mine");
    let deliveries = send(&mut session, &document, &mut peers, 1, &delta);
    assert_eq!(deliveries.len(), 2);
    assert!(peers[0].inbox.is_empty());
    assert_eq!(peers[1].inbox, vec![frame_of(&delta)]);
    assert_eq!(peers[2].inbox, vec![frame_of(&delta)]);
}

#[test]
fn a_late_joiner_gets_the_state_and_no_old_diffs() {
    let document = Doc::with_client_id(1000);
    let mut session = Session::new(SECRET);
    let mut peers = vec![Peer::new(1), Peer::new(2)];
    for peer in peers.iter() {
        session.join(peer.id, summary(&document));
    }
    let first = peers[0].type_at(0, "one ");
    send(&mut session, &document, &mut peers, 1, &first);
    let second = peers[1].type_at(0, "two ");
    send(&mut session, &document, &mut peers, 2, &second);

    peers.push(Peer::new(3));
    let welcome = session.join(3, summary(&document));
    assert_eq!(welcome.len(), 1);
    assert_eq!(welcome[0].to, 3);
    let Outbound::Message(message) = &welcome[0].payload else {
        panic!("the joiner is sent a message of the relay");
    };
    assert_eq!(message.kind, ToClientKind::State);
    let known = StateVector::decode_v2(&message.bytes).unwrap();
    assert_eq!(known.get(&yrs::ClientID::new(1)), 4);
    assert_eq!(known.get(&yrs::ClientID::new(2)), 4);
    assert!(peers[2].inbox.is_empty());

    let third = peers[0].type_at(0, "three ");
    send(&mut session, &document, &mut peers, 1, &third);
    assert_eq!(peers[2].inbox, vec![frame_of(&third)]);
}

#[test]
fn a_malformed_diff_leaves_the_document_and_the_others_alone() {
    let document = Doc::with_client_id(1000);
    let mut session = Session::new(SECRET);
    let mut peers = vec![Peer::new(1), Peer::new(2)];
    for peer in peers.iter() {
        session.join(peer.id, summary(&document));
    }
    let good = peers[0].type_at(0, "kept");
    send(&mut session, &document, &mut peers, 1, &good);
    peers[1].inbox.clear();

    let before = snapshot(&document);
    let deliveries = send(&mut session, &document, &mut peers, 1, &[]);
    assert_eq!(
        deliveries,
        vec![Delivery {
            to: 1,
            payload: Outbound::Reject(neoshare::outbound::Rejection::InvalidDiff),
        }]
    );
    assert_eq!(snapshot(&document), before);
    assert!(peers[1].inbox.is_empty());
    assert!(peers[0].inbox.is_empty());
}
