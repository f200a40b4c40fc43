//! The system-tick timer: a cycle accumulator with time conversions at the
//! nominal core clock.

use vstd::prelude::*;

verus! {

pub const CPU_FREQ_HZ: u64 = 268_111_856;

pub struct SystemTimer {
    pub cycle_count: u64,
}

/// Elapsed microseconds at the nominal clock.
pub open spec fn s_micros(cycles: u64) -> u64 {
    ((cycles * 1_000_000) / (CPU_FREQ_HZ as int)) as u64
}

impl SystemTimer {
    pub fn new() -> (t: Self)
        ensures
            t.cycle_count == 0,
    {
        Self { cycle_count: 0 }
    }

    pub fn add_cycles(&mut self, n: u64)
        ensures
            final(self).cycle_count == old(self).cycle_count.wrapping_add(n),
    {
        self.cycle_count = self.cycle_count.wrapping_add(n);
    }

    pub fn cycles(&self) -> (r: u64)
        ensures
            r == self.cycle_count,
    {
        self.cycle_count
    }

    pub fn microseconds(&self) -> (r: u64)
        ensures
            r == s_micros(self.cycle_count),
    {
        let wide = (self.cycle_count as u128) * 1_000_000;
        let q = wide / (CPU_FREQ_HZ as u128);
        proof {
            assert(q <= wide / 1_000_000) by (nonlinear_arith)
                requires
                    q == wide / (CPU_FREQ_HZ as u128) && wide >= 0,
            ;
        }
        q as u64
    }

    pub fn milliseconds(&self) -> (r: u64)
        ensures
            r == s_micros(self.cycle_count) / 1000,
    {
        self.microseconds() / 1000
    }

    pub fn reset(&mut self)
        ensures
            final(self).cycle_count == 0,
    {
        self.cycle_count = 0;
    }
}

} // verus!
