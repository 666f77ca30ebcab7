//! The interrupt scheduler: it counts T-states and raises the 50 Hz vertical
//! blank interrupt once per frame.

use vstd::prelude::*;

verus! {

/// T-states in one frame of the 3.5 MHz machine.
pub const TSTATES_PER_FRAME: u64 = 69888;

/// Accumulates T-states and tells when a frame's worth has gone by.
pub struct InterruptController {
    pub tstates_accum: u64,
    pub next_int: u64,
}

/// The controller after `cycles` more T-states, as a pair of the new
/// accumulator and whether the interrupt is raised.
pub open spec fn advance(accum: int, period: int, cycles: int) -> (int, bool) {
    if accum + cycles >= period {
        (accum + cycles - period, true)
    } else {
        (accum + cycles, false)
    }
}

impl InterruptController {
    pub fn new() -> (ic: Self)
        ensures
            ic.tstates_accum == 0,
            ic.next_int == TSTATES_PER_FRAME,
    {
        InterruptController { tstates_accum: 0, next_int: TSTATES_PER_FRAME }
    }

    /// Adds `cycles` to the accumulator. When the sum reaches the period, the
    /// period is taken off once and the interrupt is raised.
    pub fn add_cycles(&mut self, cycles: u32) -> (raise: bool)
        requires
            old(self).tstates_accum + cycles <= u64::MAX,
        ensures
            final(self).next_int == old(self).next_int,
            (final(self).tstates_accum as int, raise) == advance(
                old(self).tstates_accum as int,
                old(self).next_int as int,
                cycles as int,
            ),
    {
        self.tstates_accum = self.tstates_accum + cycles as u64;
        if self.tstates_accum >= self.next_int {
            self.tstates_accum = self.tstates_accum - self.next_int;
            true
        } else {
            false
        }
    }
}

/// The sum of a sequence of cycle counts.
pub open spec fn total_cycles(cycles: Seq<u32>) -> int
    decreases cycles.len(),
{
    if cycles.len() == 0 {
        0
    } else {
        cycles[0] as int + total_cycles(cycles.drop_first())
    }
}

/// The accumulator after feeding `cycles` one count at a time, and the number
/// of interrupts raised on the way.
pub open spec fn feed(accum: int, period: int, cycles: Seq<u32>) -> (int, nat)
    decreases cycles.len(),
{
    if cycles.len() == 0 {
        (accum, 0)
    } else {
        let (next, raised) = advance(accum, period, cycles[0] as int);
        let (last, count) = feed(next, period, cycles.drop_first());
        (last, count + if raised { 1nat } else { 0nat })
    }
}

/// Below the period nothing is raised; a sequence that brings the
/// accumulator exactly to the period raises once and leaves it at zero.
pub proof fn lemma_feed_within_period(accum: int, period: int, cycles: Seq<u32>)
    requires
        0 <= accum < period,
        accum + total_cycles(cycles) <= period,
    ensures
        accum + total_cycles(cycles) < period ==> feed(accum, period, cycles) == (
            accum + total_cycles(cycles),
            0nat,
        ),
        accum + total_cycles(cycles) == period ==> feed(accum, period, cycles) == (0int, 1nat),
    decreases cycles.len(),
{
    if cycles.len() > 0 {
        lemma_total_cycles_nonnegative(cycles.drop_first());
        let (next, raised) = advance(accum, period, cycles[0] as int);
        if raised {
            lemma_feed_within_period(0, period, cycles.drop_first());
        } else {
            lemma_feed_within_period(next, period, cycles.drop_first());
        }
    }
}

pub proof fn lemma_total_cycles_nonnegative(cycles: Seq<u32>)
    ensures
        total_cycles(cycles) >= 0,
    decreases cycles.len(),
{
    if cycles.len() > 0 {
        lemma_total_cycles_nonnegative(cycles.drop_first());
    }
}

/// Interrupt cadence: a fresh controller that is fed any sequence of cycle
/// counts whose sum is one frame raises the interrupt exactly once, and ends
/// with an empty accumulator.
pub proof fn lemma_one_interrupt_per_frame(cycles: Seq<u32>)
    requires
        total_cycles(cycles) == TSTATES_PER_FRAME,
    ensures
        feed(0, TSTATES_PER_FRAME as int, cycles) == (0int, 1nat),
{
    lemma_feed_within_period(0, TSTATES_PER_FRAME as int, cycles);
}

} // verus!
