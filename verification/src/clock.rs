//! Pacing: a clock receives the cycles each step consumed and may slow
//! emulation down to the speed of the source hardware. The cycle accounting
//! lives here; actually waiting on wall time is the caller's concern.

use vstd::prelude::*;

verus! {

/// A clock is used as a physical timing mechanism for the emulated machine.
/// Each tick gets the number of cycles passed and can slow down or speed up
/// emulation depending on the implementation.
pub trait Clock {
    fn tick(&mut self, cycles: u8);
}

/// A clock that runs as fast as the host
pub struct NoClock;

impl Clock for NoClock {
    fn tick(&mut self, _cycles: u8) {
    }
}

/// The cycle ledger of a wall-time pacer: counts emulated cycles and says,
/// every few milliseconds' worth of them, how long the batch should have
/// taken on the source hardware. A caller owning a real clock sleeps off the
/// difference and resets the ledger.
pub struct WallClock {
    pub cycles: u64,
    pub ns_per_cycle: u64,
    pub cycles_per_tick: u64,
}

impl WallClock {
    /// A ledger for a machine running at `hz` cycles per second, aiming to
    /// reconcile roughly every five milliseconds.
    pub fn new(hz: u64) -> (r: WallClock)
        requires
            hz > 0,
        ensures
            r.cycles == 0,
            r.ns_per_cycle == 1_000_000_000u64 / hz,
            r.cycles_per_tick == hz / 5_000,
    {
        WallClock {
            cycles: 0,
            ns_per_cycle: 1_000_000_000 / hz,
            // Attempt to sync every 5 ms
            cycles_per_tick: hz / 5_000,
        }
    }

    /// A ledger at the source hardware's clock rate of about 1.048 MHz.
    pub fn z80() -> (r: WallClock)
        ensures
            r.cycles == 0,
            r.ns_per_cycle == 1_000_000_000u64 / 1_048_000,
            r.cycles_per_tick == 1_048_000u64 / 5_000,
    {
        WallClock::new(1_048_000)
    }

    /// Counts the cycles one step consumed.
    pub fn add_cycles(&mut self, cycles: u8)
        ensures
            *final(self) == (WallClock {
                cycles: vstd::wrapping::u64_specs::wrapping_add(old(self).cycles, cycles as u64),
                ..*old(self)
            }),
    {
        self.cycles = self.cycles.wrapping_add(cycles as u64);
    }

    /// True when a reconciliation batch's worth of cycles has accumulated.
    pub fn needs_sync(&self) -> (r: bool)
        ensures
            r == (self.cycles >= self.cycles_per_tick),
    {
        self.cycles >= self.cycles_per_tick
    }

    /// How long the counted cycles take on the source hardware, in
    /// nanoseconds.
    pub fn expected_duration_ns(&self) -> (r: u64)
        requires
            self.cycles * self.ns_per_cycle <= u64::MAX,
        ensures
            r == self.cycles * self.ns_per_cycle,
    {
        self.cycles * self.ns_per_cycle
    }

    /// Starts the next batch, carrying any cycles past the batch boundary.
    pub fn reset(&mut self)
        requires
            old(self).cycles_per_tick > 0,
        ensures
            *final(self) == (WallClock {
                cycles: old(self).cycles % old(self).cycles_per_tick,
                ..*old(self)
            }),
    {
        self.cycles = self.cycles % self.cycles_per_tick;
    }
}

} // verus!
