//! Cycle-counter stopwatch: the elapsed-cycle arithmetic over counter
//! readings. Enabling the counter and reading it are the front end's job;
//! this module is handed the raw readings.

use vstd::prelude::*;

verus! {

/// A running stopwatch: the cycle-counter reading at its start.
#[derive(Clone, Copy, Debug, PartialEq, Eq, Structural)]
pub struct StopWatch {
    start_value: u32,
}

impl StopWatch {
    /// The reading the watch started at.
    pub closed spec fn spec_start_value(&self) -> u32 {
        self.start_value
    }

    /// Start a stopwatch at the given cycle-counter reading.
    pub fn start(cycle_count: u32) -> (r: StopWatch)
        ensures
            r.spec_start_value() == cycle_count,
    {
        Self { start_value: cycle_count }
    }

    /// Cycles elapsed up to the given reading, modulo one counter period —
    /// correct across a single counter wraparound.
    pub fn stop(&self, cycle_count: u32) -> (r: u32)
        ensures
            cycle_count >= self.spec_start_value() ==> r == cycle_count
                - self.spec_start_value(),
            cycle_count < self.spec_start_value() ==> r as int == cycle_count as int
                - self.spec_start_value() as int + 0x1_0000_0000,
    {
        cycle_count.wrapping_sub(self.start_value)
    }
}

} // verus!
