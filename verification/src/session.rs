//! One editing session: the registry, the host slot and the secret, and the
//! steps that a connection's life is made of.
//!
//! Every step is a function from the session and an event to the changed
//! session and what the transport has to do next. Nothing here waits or
//! sends. The replicated document is not held here either: a step that
//! needs it says so, and the next step is told what the document answered.

use crate::host::claim_outcome;
use crate::host::slot_after_claim;
use crate::host::slot_after_clear;
use crate::host::ClaimError;
use crate::host::HostSlot;
use crate::outbound::batch;
use crate::outbound::fan_out;
use crate::outbound::Delivery;
use crate::outbound::DeliveryView;
use crate::outbound::Outbound;
use crate::outbound::OutboundView;
use crate::outbound::Rejection;
use crate::protocol::save_message;
use crate::protocol::state_message;
use crate::protocol::Save;
use crate::protocol::ToClientKindView;
use crate::protocol::ToClientView;
use crate::protocol::ToServer;
use crate::protocol::ToServerKind;
use crate::registry::joined;
use crate::registry::lemma_others_members;
use crate::registry::others;
use crate::registry::Registry;
use vstd::prelude::*;

verus! {

/// Why the document did not take a delta in.
#[derive(Clone, Copy, Debug, PartialEq, Eq, Structural)]
pub enum DiffError {
    /// The bytes are no encoded delta. The document was not touched.
    Malformed,
    /// The bytes decode, but the document refused to integrate the delta.
    Refused,
}

/// A diff whose delta is with the document: who sent it, the frame it came
/// in, and the delta.
#[derive(Debug, PartialEq, Eq)]
pub struct Pending {
    origin: u128,
    frame: String,
    delta: Vec<u8>,
}

/// `Pending` as a value of the contracts.
pub struct PendingView {
    pub origin: u128,
    pub frame: Seq<char>,
    pub delta: Seq<u8>,
}

impl View for Pending {
    type V = PendingView;

    closed spec fn view(&self) -> PendingView {
        PendingView { origin: self.origin, frame: self.frame@, delta: self.delta@ }
    }
}

impl Pending {
    /// The connection that sent the diff.
    pub fn origin(&self) -> (origin: u128)
        ensures
            origin == self@.origin,
    {
        self.origin
    }

    /// The frame that the diff came in.
    pub fn frame(&self) -> (frame: &str)
        ensures
            frame@ == self@.frame,
    {
        self.frame.as_str()
    }

    /// The delta for the document.
    pub fn delta(&self) -> (delta: &[u8])
        ensures
            delta@ == self@.delta,
    {
        self.delta.as_slice()
    }
}

/// What the transport is to do after a frame.
#[derive(Debug, PartialEq, Eq)]
pub enum Reaction {
    /// Enqueue these deliveries.
    Deliver(Vec<Delivery>),
    /// Hand the delta of this diff to the document, then report the outcome
    /// with `Session::settle_diff`.
    Integrate(Pending),
}

/// `Reaction` as a value of the contracts.
pub enum ReactionView {
    Deliver(Seq<DeliveryView>),
    Integrate(PendingView),
}

impl View for Reaction {
    type V = ReactionView;

    open spec fn view(&self) -> ReactionView {
        match self {
            Reaction::Deliver(deliveries) => ReactionView::Deliver(batch(deliveries@)),
            Reaction::Integrate(pending) => ReactionView::Integrate(pending@),
        }
    }
}

/// A session as a value of the contracts.
pub struct SessionView {
    /// The registered connections, oldest first.
    pub members: Seq<u128>,
    /// The host, if one is set.
    pub host: Option<u128>,
    /// The secret that a host claim has to present.
    pub secret: u128,
}

/// No deliveries.
pub open spec fn silence() -> Seq<DeliveryView> {
    Seq::empty()
}

/// One delivery.
pub open spec fn only(to: u128, payload: OutboundView) -> Seq<DeliveryView> {
    seq![DeliveryView { to, payload }]
}

/// What a joining connection is sent: the state of the document, to it
/// alone.
pub open spec fn welcome_deliveries(id: u128, summary: Seq<u8>) -> Seq<DeliveryView> {
    only(
        id,
        OutboundView::Message(ToClientView { kind: ToClientKindView::State, bytes: summary }),
    )
}

/// What a host claim is answered with: nothing if it succeeded, else the
/// refusal, to the claimant alone.
pub open spec fn claim_deliveries(id: u128, outcome: Result<(), ClaimError>) -> Seq<
    DeliveryView,
> {
    match outcome {
        Ok(_) => silence(),
        Err(ClaimError::InvalidSecret) => only(id, OutboundView::Reject(Rejection::InvalidHostKey)),
        Err(ClaimError::AlreadyHosted) => only(id, OutboundView::Reject(Rejection::HostAlreadySet)),
    }
}

/// What follows a diff: the frame as it came to every other connection if
/// the document took the delta in, else the refusal to the sender alone.
pub open spec fn diff_deliveries(
    members: Seq<u128>,
    origin: u128,
    frame: Seq<char>,
    outcome: Result<(), DiffError>,
) -> Seq<DeliveryView> {
    match outcome {
        Ok(_) => fan_out(others(members, origin), OutboundView::Relay(frame)),
        Err(_) => only(origin, OutboundView::Reject(Rejection::InvalidDiff)),
    }
}

/// What follows a departure: the close instruction to every connection
/// that remains if the host has gone, else nothing.
pub open spec fn leave_deliveries(members: Seq<u128>, host: Option<u128>, id: u128) -> Seq<
    DeliveryView,
> {
    if host == Some(id) {
        fan_out(others(members, id), OutboundView::Close)
    } else {
        silence()
    }
}

/// Where a save message goes: to the host if one is set and registered,
/// else nowhere.
pub open spec fn save_deliveries(
    members: Seq<u128>,
    host: Option<u128>,
    message: ToClientView,
) -> Seq<DeliveryView> {
    match host {
        Some(holder) => if members.contains(holder) {
            only(holder, OutboundView::Message(message))
        } else {
            silence()
        },
        None => silence(),
    }
}

/// The session after `id` has joined.
pub open spec fn after_join(before: SessionView, id: u128) -> SessionView {
    SessionView { members: joined(before.members, id), ..before }
}

/// The session after `id` has claimed the host slot with `presented`.
pub open spec fn after_claim(before: SessionView, id: u128, presented: u128) -> SessionView {
    SessionView {
        host: slot_after_claim(before.host, id, presented, before.secret),
        ..before
    }
}

/// The session after `id` has left.
pub open spec fn after_leave(before: SessionView, id: u128) -> SessionView {
    SessionView {
        members: others(before.members, id),
        host: slot_after_clear(before.host, id),
        ..before
    }
}

/// The session after a frame from `id`. A frame that holds no message of
/// the protocol, or comes from a connection that is not registered, changes
/// nothing; nor does a diff.
pub open spec fn after_frame(
    before: SessionView,
    id: u128,
    kind: Option<ToServerKind>,
) -> SessionView {
    match kind {
        Some(ToServerKind::Host(presented)) if before.members.contains(id) => after_claim(
            before,
            id,
            presented,
        ),
        _ => before,
    }
}

/// What the transport is to do after `frame` from `id`, which holds a
/// message of `kind` with `bytes`, or no message of the protocol.
pub open spec fn reaction_to(
    before: SessionView,
    id: u128,
    frame: Seq<char>,
    kind: Option<ToServerKind>,
    bytes: Seq<u8>,
) -> ReactionView {
    if !before.members.contains(id) {
        ReactionView::Deliver(silence())
    } else {
        match kind {
            Some(ToServerKind::Host(presented)) => ReactionView::Deliver(
                claim_deliveries(id, claim_outcome(before.host, presented, before.secret)),
            ),
            Some(ToServerKind::Diff) => ReactionView::Integrate(
                PendingView { origin: id, frame, delta: bytes },
            ),
            None => ReactionView::Deliver(silence()),
        }
    }
}

/// The answer to a host claim, given how the claim went.
pub fn answer_claim(id: u128, outcome: Result<(), ClaimError>) -> (deliveries: Vec<Delivery>)
    ensures
        batch(deliveries@) == claim_deliveries(id, outcome),
{
    let mut deliveries: Vec<Delivery> = Vec::new();
    match outcome {
        Ok(_) => {},
        Err(ClaimError::InvalidSecret) => {
            deliveries.push(
                Delivery { to: id, payload: Outbound::Reject(Rejection::InvalidHostKey) },
            );
        },
        Err(ClaimError::AlreadyHosted) => {
            deliveries.push(
                Delivery { to: id, payload: Outbound::Reject(Rejection::HostAlreadySet) },
            );
        },
    }
    deliveries
}

/// A session: its connections, its host and its secret.
pub struct Session {
    registry: Registry,
    host: HostSlot,
    secret: u128,
}

impl View for Session {
    type V = SessionView;

    closed spec fn view(&self) -> SessionView {
        SessionView { members: self.registry@, host: self.host@, secret: self.secret }
    }
}

impl Session {
    /// A session without connections or host.
    pub fn new(secret: u128) -> (session: Session)
        ensures
            session@ == (SessionView { members: Seq::empty(), host: None, secret }),
    {
        Session { registry: Registry::new(), host: HostSlot::new(), secret }
    }

    /// The current host, if there is one.
    pub fn host(&self) -> (holder: Option<u128>)
        ensures
            holder == self@.host,
    {
        self.host.current()
    }

    /// Whether `id` is a registered connection.
    pub fn is_connected(&self, id: u128) -> (present: bool)
        ensures
            present == self@.members.contains(id),
    {
        self.registry.contains(id)
    }

    /// How many connections are registered. No identity is held twice.
    pub fn connections(&self) -> (count: usize)
        ensures
            count == self@.members.len(),
            self@.members.no_duplicates(),
    {
        self.registry.len()
    }

    /// A connection has been accepted: registers it and sends it, and it
    /// alone, the state of the document. `summary` is the document's
    /// account of everything it knows, taken at this moment.
    pub fn join(&mut self, id: u128, summary: Vec<u8>) -> (deliveries: Vec<Delivery>)
        ensures
            final(self)@ == after_join(old(self)@, id),
            final(self)@.members.no_duplicates(),
            batch(deliveries@) == welcome_deliveries(id, summary@),
    {
        self.registry.register(id);
        let mut deliveries: Vec<Delivery> = Vec::new();
        deliveries.push(Delivery { to: id, payload: Outbound::Message(state_message(summary)) });
        deliveries
    }

    /// A host claim from the registered connection `id`: sets the host if
    /// the secret is right and no host is set, else answers the claimant with
    /// the refusal.
    fn claim_host(&mut self, id: u128, presented: u128) -> (deliveries: Vec<Delivery>)
        ensures
            final(self)@ == after_claim(old(self)@, id, presented),
            batch(deliveries@) == claim_deliveries(
                id,
                claim_outcome(old(self)@.host, presented, old(self)@.secret),
            ),
    {
        let outcome = self.host.claim(id, presented, self.secret);
        answer_claim(id, outcome)
    }

    /// A frame from `id`. `message` is what the frame holds, or `None` if it
    /// holds no message of the protocol. Such a frame is passed over, and so
    /// is any frame from a connection that is not registered. A host claim
    /// is settled at once. A diff is not: its delta goes to the document
    /// first, and `settle_diff` follows.
    pub fn receive(&mut self, id: u128, frame: &str, message: Option<ToServer>) -> (reaction:
        Reaction)
        ensures
            final(self)@ == after_frame(
                old(self)@,
                id,
                match message {
                    Some(message) => Some(message.kind),
                    None => None,
                },
            ),
            reaction@ == reaction_to(
                old(self)@,
                id,
                frame@,
                match message {
                    Some(message) => Some(message.kind),
                    None => None,
                },
                match message {
                    Some(message) => message.bytes@,
                    None => Seq::empty(),
                },
            ),
    {
        if !self.registry.contains(id) {
            let deliveries: Vec<Delivery> = Vec::new();
            assert(batch(deliveries@) =~= silence());
            return Reaction::Deliver(deliveries);
        }
        match message {
            Some(message) => match message.kind {
                ToServerKind::Host(presented) => Reaction::Deliver(
                    self.claim_host(id, presented),
                ),
                ToServerKind::Diff => Reaction::Integrate(
                    Pending { origin: id, frame: frame.to_owned(), delta: message.bytes },
                ),
            },
            None => {
                let deliveries: Vec<Delivery> = Vec::new();
                assert(batch(deliveries@) =~= silence());
                Reaction::Deliver(deliveries)
            },
        }
    }

    /// What follows a diff, given what the document made of its delta: the
    /// frame, as it came, goes to every connection but the sender if the
    /// delta went in; else the refusal goes to the sender and nothing to
    /// anyone else.
    pub fn settle_diff(&self, pending: Pending, outcome: Result<(), DiffError>) -> (deliveries:
        Vec<Delivery>)
        ensures
            batch(deliveries@) == diff_deliveries(
                self@.members,
                pending@.origin,
                pending@.frame,
                outcome,
            ),
    {
        match outcome {
            Ok(_) => self.registry.broadcast_except(
                pending.origin,
                &Outbound::Relay(pending.frame),
            ),
            Err(_) => {
                let mut deliveries: Vec<Delivery> = Vec::new();
                deliveries.push(
                    Delivery {
                        to: pending.origin,
                        payload: Outbound::Reject(Rejection::InvalidDiff),
                    },
                );
                deliveries
            },
        }
    }

    /// The connection `id` has ended: it leaves the registry and, if it was
    /// the host, the slot, and every connection that remains is then told to
    /// close.
    pub fn leave(&mut self, id: u128) -> (deliveries: Vec<Delivery>)
        ensures
            final(self)@ == after_leave(old(self)@, id),
            final(self)@.members.no_duplicates(),
            batch(deliveries@) == leave_deliveries(old(self)@.members, old(self)@.host, id),
    {
        self.registry.unregister(id);
        let was_host = self.host.clear_if(id);
        proof {
            lemma_others_members(old(self)@.members, id);
            lemma_others_members(self.registry@, id);
        }
        if was_host {
            self.registry.broadcast_except(id, &Outbound::Close)
        } else {
            let deliveries: Vec<Delivery> = Vec::new();
            deliveries
        }
    }

    /// A request to persist the document, with the document's full
    /// encoding: the save message goes to the host. Without a host nothing
    /// is sent, and that is no error.
    pub fn request_save(&self, request: Save, snapshot: Vec<u8>) -> (deliveries: Vec<Delivery>)
        ensures
            batch(deliveries@) == save_deliveries(
                self@.members,
                self@.host,
                ToClientView { kind: ToClientKindView::Save(request@), bytes: snapshot@ },
            ),
            self@.host.is_none() ==> batch(deliveries@) == silence(),
    {
        let mut deliveries: Vec<Delivery> = Vec::new();
        if let Some(holder) = self.host.current() {
            let message = save_message(request, snapshot);
            if let Some(delivery) = self.registry.send_to(holder, Outbound::Message(message)) {
                deliveries.push(delivery);
            }
        }
        deliveries
    }
}

} // verus!
