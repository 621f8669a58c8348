//! Cycle-counter timestamps.
use vstd::prelude::*;

verus! {

/// A reading of the free-running cycle counter.
#[derive(Debug, Clone, Copy, PartialEq, Eq, Structural)]
pub struct Instant {
    now: u32,
}

impl Instant {
    /// The counter value this instant was taken at.
    pub closed spec fn spec_now(self) -> u32 {
        self.now
    }

    /// The instant at counter value `count`.
    pub fn from_count(count: u32) -> (r: Self)
        ensures
            r.spec_now() == count,
    {
        Instant { now: count }
    }

    /// Cycles from this instant to counter value `count`, modulo 2^32.
    pub fn elapsed(self, count: u32) -> (r: u32)
        ensures
            r == (if count >= self.spec_now() {
                count - self.spec_now()
            } else {
                count + 0x1_0000_0000 - self.spec_now()
            }),
    {
        count.wrapping_sub(self.now)
    }

    /// The counter value of this instant divided by the core frequency `cpu_hz`.
    pub fn ms(&self, cpu_hz: u32) -> (r: u32)
        requires
            cpu_hz > 0,
        ensures
            r == self.spec_now() / cpu_hz,
    {
        self.now / cpu_hz
    }
}

/// The cycle counter.
pub struct Dwt;

impl Dwt {
    /// Cycles in `ms` milliseconds at the core frequency `cpu_hz`.
    pub fn cycles_for_ms(ms: u32, cpu_hz: u32) -> (r: u64)
        ensures
            r == (ms as int) * (cpu_hz as int) / 1000,
    {
        proof {
            assert((ms as int) * (cpu_hz as int) <= 0xffff_ffff * 0xffff_ffff) by (nonlinear_arith);
        }
        (ms as u64) * (cpu_hz as u64) / 1000
    }

    /// A millisecond wait that started at `start` is over at counter value
    /// `count` once more than `cycles` cycles have elapsed.
    pub fn delay_over(start: Instant, count: u32, cycles: u64) -> (r: bool)
        ensures
            r == (start.elapsed_spec(count) > cycles),
    {
        (start.elapsed(count) as u64) > cycles
    }
}

impl Instant {
    /// Cycles from this instant to counter value `count`, modulo 2^32.
    pub open spec fn elapsed_spec(self, count: u32) -> u32 {
        if count >= self.spec_now() {
            (count - self.spec_now()) as u32
        } else {
            (count + 0x1_0000_0000 - self.spec_now()) as u32
        }
    }
}

} // verus!
