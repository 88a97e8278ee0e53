//! The host slot: which connection, if any, may persist the document.

use vstd::prelude::*;

verus! {

/// Why a host claim was turned down.
#[derive(Clone, Copy, Debug, PartialEq, Eq, Structural)]
pub enum ClaimError {
    /// The presented secret differs from the session's secret.
    InvalidSecret,
    /// The secret is right but another connection already holds the slot.
    AlreadyHosted,
}

/// What a claim returns on a slot holding `slot`: the secret is looked at
/// first, the slot second.
pub open spec fn claim_outcome(slot: Option<u128>, presented: u128, expected: u128) -> Result<
    (),
    ClaimError,
> {
    if presented != expected {
        Err(ClaimError::InvalidSecret)
    } else if slot.is_some() {
        Err(ClaimError::AlreadyHosted)
    } else {
        Ok(())
    }
}

/// The slot after connection `id` has claimed it.
pub open spec fn slot_after_claim(
    slot: Option<u128>,
    id: u128,
    presented: u128,
    expected: u128,
) -> Option<u128> {
    if claim_outcome(slot, presented, expected).is_ok() {
        Some(id)
    } else {
        slot
    }
}

/// The slot after connection `id` has gone.
pub open spec fn slot_after_clear(slot: Option<u128>, id: u128) -> Option<u128> {
    if slot == Some(id) {
        None
    } else {
        slot
    }
}

/// Single slot naming the host connection, empty at first.
pub struct HostSlot {
    holder: Option<u128>,
}

impl View for HostSlot {
    type V = Option<u128>;

    closed spec fn view(&self) -> Option<u128> {
        self.holder
    }
}

impl HostSlot {
    /// An empty slot.
    pub fn new() -> (slot: HostSlot)
        ensures
            slot@.is_none(),
    {
        HostSlot { holder: None }
    }

    /// The current host, if there is one.
    pub fn current(&self) -> (holder: Option<u128>)
        ensures
            holder == self@,
    {
        self.holder
    }

    /// Makes `id` the host if the secret matches and the slot is empty;
    /// otherwise leaves the slot as it is and says which of the two failed.
    pub fn claim(&mut self, id: u128, presented: u128, expected: u128) -> (outcome: Result<
        (),
        ClaimError,
    >)
        ensures
            outcome == claim_outcome(old(self)@, presented, expected),
            final(self)@ == slot_after_claim(old(self)@, id, presented, expected),
    {
        if presented != expected {
            Err(ClaimError::InvalidSecret)
        } else if self.holder.is_some() {
            Err(ClaimError::AlreadyHosted)
        } else {
            self.holder = Some(id);
            Ok(())
        }
    }

    /// Empties the slot if `id` holds it, and says whether it did.
    pub fn clear_if(&mut self, id: u128) -> (cleared: bool)
        ensures
            cleared == (old(self)@ == Some(id)),
            final(self)@ == slot_after_clear(old(self)@, id),
    {
        match self.holder {
            Some(holder) => {
                if holder == id {
                    self.holder = None;
                    true
                } else {
                    false
                }
            },
            None => false,
        }
    }
}

} // verus!
