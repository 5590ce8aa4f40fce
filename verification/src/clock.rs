//! The frame clock: a counter of completed update iterations.

use vstd::prelude::*;

verus! {

/// Counts update iterations. It starts at zero and only ever moves forward,
/// one step at a time.
#[derive(Clone, Copy, Debug, PartialEq, Eq)]
pub struct FrameClock {
    frame_count: u64,
}

impl View for FrameClock {
    type V = nat;

    closed spec fn view(&self) -> nat {
        self.frame_count as nat
    }
}

impl FrameClock {
    /// The clock that shows `count`, as a contract sees it.
    pub closed spec fn showing(count: u64) -> FrameClock {
        FrameClock { frame_count: count }
    }

    /// A clock is the count it shows and nothing more.
    pub proof fn lemma_showing(self)
        ensures
            self@ <= u64::MAX,
            self == FrameClock::showing(self@ as u64),
            forall|count: u64| (#[trigger] FrameClock::showing(count))@ == count,
    {
    }

    /// A clock that has not ticked yet.
    pub fn new() -> (clock: FrameClock)
        ensures
            clock@ == 0,
            clock == FrameClock::showing(0),
    {
        FrameClock { frame_count: 0 }
    }

    /// The current count. Reading it does not change the clock.
    pub fn frame_count(&self) -> (count: u64)
        ensures
            count == self@,
    {
        self.frame_count
    }

    /// Advances the clock by exactly one and returns the new count.
    pub fn tick(&mut self) -> (count: u64)
        requires
            old(self)@ < u64::MAX,
        ensures
            final(self)@ == old(self)@ + 1,
            *final(self) == FrameClock::showing((old(self)@ + 1) as u64),
            count == final(self)@,
    {
        self.frame_count = self.frame_count + 1;
        self.frame_count
    }
}

/// The count that a clock started at `start` shows after `ticks` ticks.
pub open spec fn count_after(start: nat, ticks: nat) -> nat
    decreases ticks,
{
    if ticks == 0 {
        start
    } else {
        count_after(start, (ticks - 1) as nat) + 1
    }
}

/// After any number of ticks the clock shows its starting count plus the
/// number of ticks: it never skips and never repeats.
pub proof fn lemma_count_after_is_sum(start: nat, ticks: nat)
    ensures
        count_after(start, ticks) == start + ticks,
    decreases ticks,
{
    if ticks > 0 {
        lemma_count_after_is_sum(start, (ticks - 1) as nat);
    }
}

/// Two different iterations never observe the same count, and a later
/// iteration observes a strictly larger one.
pub proof fn lemma_counts_strictly_increase(start: nat, earlier: nat, later: nat)
    requires
        earlier < later,
    ensures
        count_after(start, earlier) < count_after(start, later),
        count_after(start, earlier + 1) == count_after(start, earlier) + 1,
{
    lemma_count_after_is_sum(start, earlier);
    lemma_count_after_is_sum(start, later);
    lemma_count_after_is_sum(start, earlier + 1);
}

} // verus!
