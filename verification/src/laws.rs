//! What holds of a session across its steps.

use crate::outbound::fan_out;
use crate::outbound::DeliveryView;
use crate::outbound::OutboundView;
use crate::outbound::Rejection;
use crate::registry::lemma_others_members;
use crate::registry::lemma_push_contains;
use crate::registry::lemma_push_distinct;
use crate::registry::others;
use crate::protocol::ToServerKind;
use crate::session::after_frame;
use crate::session::after_join;
use crate::session::after_leave;
use crate::session::diff_deliveries;
use crate::session::leave_deliveries;
use crate::session::only;
use crate::session::reaction_to;
use crate::session::silence;
use crate::session::welcome_deliveries;
use crate::session::DiffError;
use crate::session::ReactionView;
use crate::session::SessionView;
use vstd::prelude::*;

verus! {

/// The connections that a batch of deliveries is for, in its order.
pub open spec fn recipients(sent: Seq<DeliveryView>) -> Seq<u128> {
    sent.map_values(|delivery: DeliveryView| delivery.to)
}

/// No connection is registered twice, and the host is registered.
pub open spec fn consistent(session: SessionView) -> bool {
    &&& session.members.no_duplicates()
    &&& session.host.is_some() ==> session.members.contains(session.host.unwrap())
}

/// A frame that claims the host slot with `presented`.
pub open spec fn claim(presented: u128) -> Option<ToServerKind> {
    Some(ToServerKind::Host(presented))
}

/// Of two connections that claim an empty slot with the right secret, the
/// first becomes the host and is answered with nothing; the second is
/// answered with "Host already set", and the first stays the host.
pub proof fn law_first_claim_wins(
    before: SessionView,
    first: u128,
    second: u128,
    frame: Seq<char>,
    bytes: Seq<u8>,
)
    requires
        before.host.is_none(),
        before.members.contains(first),
        before.members.contains(second),
    ensures
        reaction_to(before, first, frame, claim(before.secret), bytes) == ReactionView::Deliver(
            silence(),
        ),
        after_frame(before, first, claim(before.secret)).host == Some(first),
        reaction_to(
            after_frame(before, first, claim(before.secret)),
            second,
            frame,
            claim(before.secret),
            bytes,
        ) == ReactionView::Deliver(
            only(second, OutboundView::Reject(Rejection::HostAlreadySet)),
        ),
        after_frame(
            after_frame(before, first, claim(before.secret)),
            second,
            claim(before.secret),
        ).host == Some(first),
{
}

/// While a host is set, no frame changes who it is, and every claim of a
/// registered connection is answered with one refusal, to the claimant.
pub proof fn law_host_is_not_replaced(
    before: SessionView,
    id: u128,
    kind: Option<ToServerKind>,
    presented: u128,
    frame: Seq<char>,
    bytes: Seq<u8>,
)
    requires
        before.host.is_some(),
        before.members.contains(id),
    ensures
        after_frame(before, id, kind) == before,
        reaction_to(before, id, frame, claim(presented), bytes) == ReactionView::Deliver(
            only(
                id,
                OutboundView::Reject(
                    if presented == before.secret {
                        Rejection::HostAlreadySet
                    } else {
                        Rejection::InvalidHostKey
                    },
                ),
            ),
        ),
{
}

/// A claim with a wrong secret is answered with "Invalid host key" and
/// changes nothing; if no host was set, a claim with the right secret from
/// any registered connection succeeds after it.
pub proof fn law_wrong_secret_is_refused(
    before: SessionView,
    id: u128,
    presented: u128,
    next: u128,
    frame: Seq<char>,
    bytes: Seq<u8>,
)
    requires
        presented != before.secret,
        before.members.contains(id),
        before.members.contains(next),
    ensures
        reaction_to(before, id, frame, claim(presented), bytes) == ReactionView::Deliver(
            only(id, OutboundView::Reject(Rejection::InvalidHostKey)),
        ),
        after_frame(before, id, claim(presented)) == before,
        before.host.is_none() ==> {
            let after = after_frame(before, id, claim(presented));
            &&& after_frame(after, next, claim(after.secret)).host == Some(next)
            &&& reaction_to(after, next, frame, claim(after.secret), bytes) == ReactionView::Deliver(
                silence(),
            )
        },
{
}

/// A frame that holds no message of the protocol, and any frame from a
/// connection that is not registered, changes nothing and is answered with
/// nothing.
pub proof fn law_stray_frames_are_passed_over(
    before: SessionView,
    id: u128,
    kind: Option<ToServerKind>,
    frame: Seq<char>,
    bytes: Seq<u8>,
)
    requires
        kind.is_none() || !before.members.contains(id),
    ensures
        after_frame(before, id, kind) == before,
        reaction_to(before, id, frame, kind, bytes) == ReactionView::Deliver(silence()),
{
}

/// A delta that the document did not take in is answered with one
/// "Invalid diff", to the sender, whatever the reason; nobody else hears of
/// it.
pub proof fn law_failed_diff_goes_nowhere(
    members: Seq<u128>,
    origin: u128,
    frame: Seq<char>,
    error: DiffError,
)
    ensures
        diff_deliveries(members, origin, frame, Err(error)) == only(
            origin,
            OutboundView::Reject(Rejection::InvalidDiff),
        ),
        recipients(diff_deliveries(members, origin, frame, Err(error))) == seq![origin],
{
}

/// A payload sent to all but `origin` reaches every other registered
/// connection once, in the order of joining, and `origin` not at all.
pub proof fn law_fan_out_reaches_each_other_once(
    members: Seq<u128>,
    origin: u128,
    payload: OutboundView,
)
    requires
        members.no_duplicates(),
    ensures
        recipients(fan_out(others(members, origin), payload)) == others(members, origin),
        others(members, origin).no_duplicates(),
        forall|member: u128| #[trigger]
            others(members, origin).contains(member) <==> members.contains(member) && member
                != origin,
        forall|i: int|
            0 <= i < others(members, origin).len() ==> (#[trigger] fan_out(
                others(members, origin),
                payload,
            )[i]).payload == payload,
{
    lemma_others_members(members, origin);
}

/// A diff that the document took in goes, as it came, to every other
/// registered connection once and not back to its sender; a connection
/// that is not registered at that moment gets nothing of it.
pub proof fn law_diff_reaches_the_others(
    members: Seq<u128>,
    origin: u128,
    frame: Seq<char>,
    outsider: u128,
)
    requires
        members.no_duplicates(),
        !members.contains(outsider),
    ensures
        recipients(diff_deliveries(members, origin, frame, Ok(()))) == others(members, origin),
        !recipients(diff_deliveries(members, origin, frame, Ok(()))).contains(origin),
        !recipients(diff_deliveries(members, origin, frame, Ok(()))).contains(outsider),
        forall|i: int|
            0 <= i < others(members, origin).len() ==> (#[trigger] diff_deliveries(
                members,
                origin,
                frame,
                Ok(()),
            )[i]).payload == OutboundView::Relay(frame),
{
    law_fan_out_reaches_each_other_once(members, origin, OutboundView::Relay(frame));
}

/// When the host leaves, every connection that remains is told once to
/// close; when another connection leaves, nobody is told anything.
pub proof fn law_departure(before: SessionView, id: u128)
    requires
        before.members.no_duplicates(),
    ensures
        before.host == Some(id) ==> {
            &&& recipients(leave_deliveries(before.members, before.host, id)) == after_leave(
                before,
                id,
            ).members
            &&& forall|i: int|
                0 <= i < after_leave(before, id).members.len() ==> (#[trigger] leave_deliveries(
                    before.members,
                    before.host,
                    id,
                )[i]).payload == OutboundView::Close
        },
        before.host != Some(id) ==> leave_deliveries(before.members, before.host, id)
            == silence(),
        after_leave(before, id).members.no_duplicates(),
        !after_leave(before, id).members.contains(id),
        after_leave(before, id).host != Some(id),
{
    law_fan_out_reaches_each_other_once(before.members, id, OutboundView::Close);
}

/// A connection that joins is sent one message, the state of the
/// document, and nobody else is sent anything; of a diff that was relayed
/// while it was not registered, nothing was for it.
pub proof fn law_late_joiner_gets_state_only(
    before: SessionView,
    id: u128,
    summary: Seq<u8>,
    origin: u128,
    frame: Seq<char>,
)
    requires
        before.members.no_duplicates(),
        !before.members.contains(id),
    ensures
        after_join(before, id).members == before.members.push(id),
        recipients(welcome_deliveries(id, summary)) == seq![id],
        !recipients(diff_deliveries(before.members, origin, frame, Ok(()))).contains(id),
{
    law_diff_reaches_the_others(before.members, origin, frame, id);
}

/// Every step keeps the registry free of duplicates and the host
/// registered.
pub proof fn law_steps_keep_the_host_registered(
    before: SessionView,
    id: u128,
    kind: Option<ToServerKind>,
)
    requires
        consistent(before),
    ensures
        consistent(after_join(before, id)),
        consistent(after_frame(before, id, kind)),
        consistent(after_leave(before, id)),
{
    lemma_others_members(before.members, id);
    lemma_push_distinct(before.members, id);
    if before.host.is_some() {
        lemma_push_contains(before.members, id, before.host.unwrap());
    }
}

} // verus!
