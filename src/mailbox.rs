//! A single-slot "latest value" channel for flight-mode updates: a publish
//! overwrites the slot, a receive takes the newest unseen value, if any.
use vstd::prelude::*;
use crate::flight_mode::FlightMode;

verus! {

/// Holds the most recently published mode and whether the reader has seen it.
#[derive(Clone, Copy, Debug, PartialEq, Eq, Structural)]
pub struct ModeSlot {
    pub latest: FlightMode,
    pub unseen: bool,
}

/// The slot after a publish of `m`.
pub open spec fn published(s: ModeSlot, m: FlightMode) -> ModeSlot {
    ModeSlot { latest: m, unseen: true }
}

/// What a receive on `s` hands back.
pub open spec fn received(s: ModeSlot) -> Option<FlightMode> {
    if s.unseen {
        Some(s.latest)
    } else {
        None
    }
}

/// The slot after a receive.
pub open spec fn drained(s: ModeSlot) -> ModeSlot {
    ModeSlot { latest: s.latest, unseen: false }
}

impl ModeSlot {
    /// An empty slot: nothing has been published yet.
    pub fn new() -> (s: ModeSlot)
        ensures
            received(s) == None::<FlightMode>,
            s.latest == FlightMode::Idle,
    {
        ModeSlot { latest: FlightMode::Idle, unseen: false }
    }

    /// Publishes `m`, replacing whatever was there.
    pub fn publish(&mut self, m: FlightMode)
        ensures
            *final(self) == published(*old(self), m),
    {
        self.latest = m;
        self.unseen = true;
    }

    /// Takes the newest unseen value without waiting: `None` when nothing
    /// new was published since the last receive.
    pub fn try_receive(&mut self) -> (r: Option<FlightMode>)
        ensures
            r == received(*old(self)),
            *final(self) == drained(*old(self)),
    {
        let r = if self.unseen {
            Some(self.latest)
        } else {
            None
        };
        self.unseen = false;
        r
    }
}

/// Last write wins: of two publishes between receives, the receive sees only
/// the second, and a further receive sees nothing.
pub proof fn lemma_last_write_wins(s: ModeSlot, first: FlightMode, second: FlightMode)
    ensures
        received(published(published(s, first), second)) == Some(second),
        received(drained(published(published(s, first), second))) == None::<FlightMode>,
        published(published(s, first), second) == published(s, second),
{
}

} // verus!
