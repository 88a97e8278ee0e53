//! What the relay hands to the transport: a payload and the connection it
//! is for.

use crate::protocol::ToClient;
use crate::protocol::ToClientView;
use vstd::prelude::*;

verus! {

/// A refusal, sent as plain text to the connection that caused it.
#[derive(Clone, Copy, Debug, PartialEq, Eq, Structural)]
pub enum Rejection {
    /// A host claim presented the wrong secret.
    InvalidHostKey,
    /// A host claim came while another connection held the slot.
    HostAlreadySet,
    /// A diff did not decode, or the document refused it.
    InvalidDiff,
}

impl Rejection {
    /// The text on the wire.
    pub open spec fn wire_text(self) -> Seq<char> {
        match self {
            Rejection::InvalidHostKey => "Invalid host key"@,
            Rejection::HostAlreadySet => "Host already set"@,
            Rejection::InvalidDiff => "Invalid diff"@,
        }
    }

    /// The text on the wire.
    pub fn text(&self) -> (text: String)
        ensures
            text@ == self.wire_text(),
    {
        match self {
            Rejection::InvalidHostKey => "Invalid host key".to_owned(),
            Rejection::HostAlreadySet => "Host already set".to_owned(),
            Rejection::InvalidDiff => "Invalid diff".to_owned(),
        }
    }
}

/// One thing to put on a connection's outbound channel.
#[derive(Debug, PartialEq, Eq)]
pub enum Outbound {
    /// A message of the relay's own, to be encoded for the wire.
    Message(ToClient),
    /// A client's frame, passed on as it came.
    Relay(String),
    /// A refusal in plain text.
    Reject(Rejection),
    /// The instruction to end the session.
    Close,
}

/// `Outbound` as a value of the contracts.
pub enum OutboundView {
    Message(ToClientView),
    Relay(Seq<char>),
    Reject(Rejection),
    Close,
}

impl View for Outbound {
    type V = OutboundView;

    open spec fn view(&self) -> OutboundView {
        match self {
            Outbound::Message(message) => OutboundView::Message(message@),
            Outbound::Relay(frame) => OutboundView::Relay(frame@),
            Outbound::Reject(rejection) => OutboundView::Reject(*rejection),
            Outbound::Close => OutboundView::Close,
        }
    }
}

impl Clone for Outbound {
    fn clone(&self) -> (copy: Outbound)
        ensures
            copy@ == self@,
    {
        match self {
            Outbound::Message(message) => Outbound::Message(message.clone()),
            Outbound::Relay(frame) => Outbound::Relay(frame.clone()),
            Outbound::Reject(rejection) => Outbound::Reject(*rejection),
            Outbound::Close => Outbound::Close,
        }
    }
}

/// A payload and the connection whose channel it goes onto.
#[derive(Debug, PartialEq, Eq)]
pub struct Delivery {
    pub to: u128,
    pub payload: Outbound,
}

/// `Delivery` as a value of the contracts.
pub struct DeliveryView {
    pub to: u128,
    pub payload: OutboundView,
}

impl View for Delivery {
    type V = DeliveryView;

    open spec fn view(&self) -> DeliveryView {
        DeliveryView { to: self.to, payload: self.payload@ }
    }
}

impl Clone for Delivery {
    fn clone(&self) -> (copy: Delivery)
        ensures
            copy@ == self@,
    {
        Delivery { to: self.to, payload: self.payload.clone() }
    }
}

/// A batch of deliveries as a value of the contracts, in the order in which
/// the transport is to enqueue them.
pub open spec fn batch(deliveries: Seq<Delivery>) -> Seq<DeliveryView> {
    deliveries.map_values(|delivery: Delivery| delivery@)
}

/// `payload` once for each of `recipients`, in their order.
pub open spec fn fan_out(recipients: Seq<u128>, payload: OutboundView) -> Seq<DeliveryView> {
    recipients.map_values(|to: u128| DeliveryView { to, payload })
}

} // verus!
