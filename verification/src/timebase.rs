//! Microsecond timebase accumulated from a free-running cycle counter.
//!
//! The counter is read by the target; between two reads it reports how many
//! ticks elapsed. Ticks that do not make up a whole microsecond are carried to
//! the next read, so no tick is lost.
use vstd::prelude::*;

use crate::robot_domain::TimestampUs;

verus! {

#[derive(Clone, Copy, Debug, PartialEq, Eq, Structural)]
pub struct MicrosecondAccumulator {
    ticks_per_us: u32,
    remainder_ticks: u32,
    elapsed_us: u64,
}

impl MicrosecondAccumulator {
    pub closed spec fn spec_ticks_per_us(self) -> u32 {
        self.ticks_per_us
    }

    pub closed spec fn spec_remainder_ticks(self) -> u32 {
        self.remainder_ticks
    }

    pub closed spec fn spec_elapsed_us(self) -> u64 {
        self.elapsed_us
    }

    /// A positive tick rate and a carried remainder below one microsecond.
    pub open spec fn wf(self) -> bool {
        &&& self.spec_ticks_per_us() > 0
        &&& self.spec_remainder_ticks() < self.spec_ticks_per_us()
    }

    /// Total time accounted for, in ticks.
    pub open spec fn total_ticks(self) -> int {
        self.spec_elapsed_us() * self.spec_ticks_per_us() + self.spec_remainder_ticks()
    }

    /// A timebase at zero for a counter running at `ticks_per_us` ticks per
    /// microsecond.
    pub fn new(ticks_per_us: u32) -> (a: Self)
        requires
            ticks_per_us > 0,
        ensures
            a.wf(),
            a.spec_ticks_per_us() == ticks_per_us,
            a.spec_remainder_ticks() == 0,
            a.spec_elapsed_us() == 0,
    {
        MicrosecondAccumulator { ticks_per_us, remainder_ticks: 0, elapsed_us: 0 }
    }

    pub fn ticks_per_us(&self) -> (t: u32)
        ensures
            t == self.spec_ticks_per_us(),
    {
        self.ticks_per_us
    }

    /// Account for `elapsed_ticks` more counter ticks and return the current
    /// time; the microsecond count wraps at `u64::MAX`.
    pub fn advance(&mut self, elapsed_ticks: u32) -> (now: TimestampUs)
        requires
            old(self).wf(),
        ensures
            final(self).wf(),
            final(self).spec_ticks_per_us() == old(self).spec_ticks_per_us(),
            ({
                let total = old(self).spec_remainder_ticks() + elapsed_ticks;
                let tpu = old(self).spec_ticks_per_us() as int;
                &&& final(self).spec_remainder_ticks() == total % tpu
                &&& final(self).spec_elapsed_us() == (old(self).spec_elapsed_us() + total / tpu)
                    % 0x1_0000_0000_0000_0000
            }),
            now.0 == final(self).spec_elapsed_us(),
    {
        let total: u64 = self.remainder_ticks as u64 + elapsed_ticks as u64;
        let tpu: u64 = self.ticks_per_us as u64;
        let whole: u64 = total / tpu;
        let rem: u64 = total % tpu;
        proof {
            assert(whole + self.elapsed_us <= u64::MAX ==> self.elapsed_us.wrapping_add(whole) == (
            self.elapsed_us + whole) % 0x1_0000_0000_0000_0000);
        }
        self.elapsed_us = self.elapsed_us.wrapping_add(whole);
        self.remainder_ticks = rem as u32;
        TimestampUs(self.elapsed_us)
    }
}

/// No tick is lost: until the microsecond count wraps, each read adds exactly
/// the elapsed ticks to the total time accounted for.
pub proof fn lemma_advance_conserves_ticks(
    before: MicrosecondAccumulator,
    after: MicrosecondAccumulator,
    elapsed_ticks: u32,
)
    requires
        before.wf(),
        after.spec_ticks_per_us() == before.spec_ticks_per_us(),
        after.spec_remainder_ticks() == (before.spec_remainder_ticks() + elapsed_ticks)
            % (before.spec_ticks_per_us() as int),
        after.spec_elapsed_us() == (before.spec_elapsed_us() + (before.spec_remainder_ticks()
            + elapsed_ticks) / (before.spec_ticks_per_us() as int)) % 0x1_0000_0000_0000_0000,
        before.spec_elapsed_us() + (before.spec_remainder_ticks() + elapsed_ticks) / (
        before.spec_ticks_per_us() as int) <= u64::MAX,
    ensures
        after.total_ticks() == before.total_ticks() + elapsed_ticks,
{
    let total = before.spec_remainder_ticks() + elapsed_ticks;
    let tpu = before.spec_ticks_per_us() as int;
    let q = total / tpu;
    let r = total % tpu;
    assert(q * tpu + r == total) by (nonlinear_arith)
        requires
            q == total / tpu,
            r == total % tpu,
            tpu > 0,
    ;
    assert(after.spec_elapsed_us() == before.spec_elapsed_us() + q);
    assert((before.spec_elapsed_us() + q) * tpu == before.spec_elapsed_us() * tpu + q * tpu)
        by (nonlinear_arith);
}

} // verus!
