//! The connection registry: who is connected, in the order of joining.

use crate::outbound::batch;
use crate::outbound::fan_out;
use crate::outbound::Delivery;
use crate::outbound::DeliveryView;
use crate::outbound::Outbound;
use vstd::prelude::*;

verus! {

/// The test that every identity but `id` passes.
pub open spec fn differs_from(id: u128) -> spec_fn(u128) -> bool {
    |member: u128| member != id
}

/// `members` without `id`, order kept.
pub open spec fn others(members: Seq<u128>, id: u128) -> Seq<u128> {
    members.filter(differs_from(id))
}

/// `members` with `id` joined: at the end, unless it is there already.
pub open spec fn joined(members: Seq<u128>, id: u128) -> Seq<u128> {
    if members.contains(id) {
        members
    } else {
        members.push(id)
    }
}

/// Extending a list by one member extends what `others` keeps of it by that
/// member, or by nothing if the member is the one left out.
pub proof fn lemma_others_push(members: Seq<u128>, member: u128, id: u128)
    ensures
        others(members.push(member), id) == if member != id {
            others(members, id).push(member)
        } else {
            others(members, id)
        },
{
    members.lemma_filter_push(member, differs_from(id));
}

/// `others` holds exactly the members that differ from `id`, and each of
/// them once if the list held each once.
pub proof fn lemma_others_members(members: Seq<u128>, id: u128)
    ensures
        forall|member: u128| #[trigger]
            others(members, id).contains(member) <==> members.contains(member) && member != id,
        members.no_duplicates() ==> others(members, id).no_duplicates(),
        !members.contains(id) ==> others(members, id) == members,
    decreases members.len(),
{
    if members.len() == 0 {
        members.lemma_filter_len(differs_from(id));
    } else {
        let front = members.drop_last();
        let last = members.last();
        assert(members == front.push(last));
        lemma_others_members(front, id);
        lemma_others_push(front, last, id);
        assert forall|member: u128| #[trigger]
            others(members, id).contains(member) <==> members.contains(member) && member
                != id by {
            lemma_push_contains(front, last, member);
            lemma_push_contains(others(front, id), last, member);
        }
        lemma_push_contains(front, last, id);
        lemma_push_distinct(front, last);
        lemma_push_distinct(others(front, id), last);
    }
}

/// A list extended by `last` holds `member` if the list did or `member`
/// is `last`.
pub proof fn lemma_push_contains(list: Seq<u128>, last: u128, member: u128)
    ensures
        list.push(last).contains(member) <==> list.contains(member) || member == last,
{
    if list.contains(member) {
        let i = choose|i: int| 0 <= i < list.len() && list[i] == member;
        assert(list.push(last)[i] == member);
    }
    if member == last {
        assert(list.push(last)[list.len() as int] == member);
    }
}

/// A list extended by `last` holds every member once if the list did and
/// did not hold `last`.
pub proof fn lemma_push_distinct(list: Seq<u128>, last: u128)
    ensures
        list.push(last).no_duplicates() <==> list.no_duplicates() && !list.contains(last),
{
    let longer = list.push(last);
    if longer.no_duplicates() {
        assert forall|i: int, j: int| 0 <= i < list.len() && 0 <= j < list.len() && i != j implies list[i]
            != list[j] by {
            assert(longer[i] == list[i] && longer[j] == list[j]);
        }
        if list.contains(last) {
            let i = choose|i: int| 0 <= i < list.len() && list[i] == last;
            assert(longer[i] == longer[list.len() as int]);
        }
    }
}

/// The identities of the live connections, each once, oldest first.
pub struct Registry {
    members: Vec<u128>,
}

impl View for Registry {
    type V = Seq<u128>;

    closed spec fn view(&self) -> Seq<u128> {
        self.members@
    }
}

impl Registry {
    #[verifier::type_invariant]
    spec fn distinct(self) -> bool {
        self.members@.no_duplicates()
    }

    /// A registry without connections.
    pub fn new() -> (registry: Registry)
        ensures
            registry@ == Seq::<u128>::empty(),
    {
        Registry { members: Vec::new() }
    }

    /// How many connections are registered. No identity is held twice.
    pub fn len(&self) -> (count: usize)
        ensures
            count == self@.len(),
            self@.no_duplicates(),
    {
        proof {
            use_type_invariant(self);
        }
        self.members.len()
    }

    /// Whether `id` is registered.
    pub fn contains(&self, id: u128) -> (present: bool)
        ensures
            present == self@.contains(id),
    {
        let mut i: usize = 0;
        while i < self.members.len()
            invariant
                i <= self.members@.len(),
                forall|j: int| 0 <= j < i ==> self.members@[j] != id,
            decreases self.members@.len() - i,
        {
            if self.members[i] == id {
                return true;
            }
            i += 1;
        }
        false
    }

    /// Registers `id`. An identity that is registered already stays where
    /// it is.
    pub fn register(&mut self, id: u128)
        ensures
            final(self)@ == joined(old(self)@, id),
            final(self)@.no_duplicates(),
    {
        proof {
            use_type_invariant(&*self);
        }
        if !self.contains(id) {
            // The list is replaced whole: a borrow of the field would let it
            // be seen while it may hold an identity twice.
            let mut members = self.members.clone();
            members.push(id);
            self.members = members;
        }
    }

    /// Removes `id` and says whether it was registered. Removing an
    /// identity that is not registered changes nothing.
    pub fn unregister(&mut self, id: u128) -> (present: bool)
        ensures
            present == old(self)@.contains(id),
            final(self)@ == others(old(self)@, id),
            final(self)@.no_duplicates(),
            !final(self)@.contains(id),
    {
        proof {
            use_type_invariant(&*self);
            lemma_others_members(self.members@, id);
        }
        let mut kept: Vec<u128> = Vec::new();
        let mut present = false;
        let mut i: usize = 0;
        proof {
            lemma_others_members(Seq::<u128>::empty(), id);
        }
        while i < self.members.len()
            invariant
                i <= self.members@.len(),
                kept@ == others(self.members@.take(i as int), id),
                present == self.members@.take(i as int).contains(id),
            decreases self.members@.len() - i,
        {
            let member = self.members[i];
            proof {
                let before = self.members@.take(i as int);
                assert(self.members@.take(i + 1) == before.push(member));
                lemma_others_push(before, member, id);
                lemma_push_contains(before, member, id);
            }
            if member != id {
                kept.push(member);
            } else {
                present = true;
            }
            i += 1;
        }
        assert(self.members@.take(i as int) == self.members@);
        self.members = kept;
        present
    }

    /// The deliveries that put `payload` on the channel of every registered
    /// connection but `origin`, oldest connection first.
    pub fn broadcast_except(&self, origin: u128, payload: &Outbound) -> (deliveries: Vec<
        Delivery,
    >)
        ensures
            batch(deliveries@) == fan_out(others(self@, origin), payload@),
    {
        let mut deliveries: Vec<Delivery> = Vec::new();
        let mut i: usize = 0;
        proof {
            lemma_others_members(Seq::<u128>::empty(), origin);
        }
        while i < self.members.len()
            invariant
                i <= self.members@.len(),
                batch(deliveries@) == fan_out(
                    others(self.members@.take(i as int), origin),
                    payload@,
                ),
            decreases self.members@.len() - i,
        {
            let member = self.members[i];
            proof {
                let before = self.members@.take(i as int);
                assert(self.members@.take(i + 1) == before.push(member));
                lemma_others_push(before, member, origin);
            }
            if member != origin {
                let ghost reached = others(self.members@.take(i as int), origin);
                let delivery = Delivery { to: member, payload: payload.clone() };
                deliveries.push(delivery);
                assert(fan_out(reached.push(member), payload@) == fan_out(reached, payload@).push(
                    delivery@,
                ));
            }
            i += 1;
        }
        assert(self.members@.take(i as int) == self.members@);
        deliveries
    }

    /// The delivery that puts `payload` on the channel of `id`, if `id` is
    /// registered.
    pub fn send_to(&self, id: u128, payload: Outbound) -> (delivery: Option<Delivery>)
        ensures
            delivery.is_some() == self@.contains(id),
            delivery.is_some() ==> delivery.unwrap()@ == (DeliveryView {
                to: id,
                payload: payload@,
            }),
    {
        if self.contains(id) {
            Some(Delivery { to: id, payload })
        } else {
            None
        }
    }
}

} // verus!
