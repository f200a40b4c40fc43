//! Host-side hardware models driven once per frame.

use vstd::prelude::*;

pub mod timer;

verus! {

use crate::hw::timer::SystemTimer;

pub struct Hardware {
    pub timer: SystemTimer,
}

impl Hardware {
    pub fn new() -> (h: Self)
        ensures
            h.timer.cycle_count == 0,
    {
        Self { timer: SystemTimer::new() }
    }

    pub fn tick(&mut self, cycles: u64)
        ensures
            final(self).timer.cycle_count == old(self).timer.cycle_count.wrapping_add(cycles),
    {
        self.timer.add_cycles(cycles);
    }
}

} // verus!
