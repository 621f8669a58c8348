//! Busy-wait delays calibrated on the core clock.
use vstd::prelude::*;

verus! {

/// Error of a bounded wait.
#[derive(Debug, Clone, Copy, PartialEq, Eq, Structural)]
pub enum Error {
    Timeout,
}

/// Busy-loop cycles spent per microsecond at a given core clock.
pub open spec fn spec_cycles_per_us(sys_clock: u32) -> u32 {
    if sys_clock > 24_000_000 {
        8
    } else if sys_clock > 18_000_000 {
        6
    } else if sys_clock > 8_000_000 {
        4
    } else {
        1
    }
}

/// Busy-loop cycles spent per microsecond at the core clock `sys_clock` (in Hz).
pub fn cycles_per_us(sys_clock: u32) -> (r: u32)
    ensures
        r == spec_cycles_per_us(sys_clock),
        1 <= r <= 8,
{
    if sys_clock > 24_000_000 {
        8
    } else if sys_clock > 18_000_000 {
        6
    } else if sys_clock > 8_000_000 {
        4
    } else {
        1
    }
}

/// Waits `us` microseconds at the core clock `sys_clock`: `us` calls of
/// `spin(cycles_per_us(sys_clock))`, where `spin` burns the given number of
/// core cycles (on the target, `cortex_m::asm::delay`).
pub fn delay_us<F: Fn(u32)>(us: usize, sys_clock: u32, spin: &F)
    requires
        forall|c: u32| spin.requires((c,)),
{
    let cnt = cycles_per_us(sys_clock);
    let mut i: usize = 0;
    while i < us
        invariant
            i <= us,
            forall|c: u32| spin.requires((c,)),
        decreases us - i,
    {
        spin(cnt);
        i = i + 1;
    }
}

/// Waits `ms` milliseconds: `ms` waits of 1000 microseconds.
pub fn delay_ms<F: Fn(u32)>(ms: usize, sys_clock: u32, spin: &F)
    requires
        forall|c: u32| spin.requires((c,)),
{
    let mut i: usize = 0;
    while i < ms
        invariant
            i <= ms,
            forall|c: u32| spin.requires((c,)),
        decreases ms - i,
    {
        delay_us(1000, sys_clock, spin);
        i = i + 1;
    }
}

/// Waits `s` seconds: `s` waits of 1 000 000 microseconds.
pub fn delay_s<F: Fn(u32)>(s: usize, sys_clock: u32, spin: &F)
    requires
        forall|c: u32| spin.requires((c,)),
{
    let mut i: usize = 0;
    while i < s
        invariant
            i <= s,
            forall|c: u32| spin.requires((c,)),
        decreases s - i,
    {
        delay_us(1_000_000, sys_clock, spin);
        i = i + 1;
    }
}

/// Polls `f` up to `timeout_tick` times, calling `spin(1)` after each
/// `false`. `Ok` as soon as `f` answers `true`, `Err(Timeout)` when every
/// poll answered `false`.
pub fn wait_for_true_timeout_block<F: Fn() -> bool, S: Fn(u32)>(
    timeout_tick: usize,
    f: F,
    spin: &S,
) -> (r: Result<(), Error>)
    requires
        f.requires(()),
        forall|c: u32| spin.requires((c,)),
    ensures
        timeout_tick == 0 ==> r == Err::<(), Error>(Error::Timeout),
        r is Ok ==> f.ensures((), true),
        r is Err ==> r == Err::<(), Error>(Error::Timeout),
        r is Err && timeout_tick > 0 ==> f.ensures((), false),
{
    let mut i: usize = 0;
    while i < timeout_tick
        invariant
            i <= timeout_tick,
            f.requires(()),
            forall|c: u32| spin.requires((c,)),
            i > 0 ==> f.ensures((), false),
        decreases timeout_tick - i,
    {
        if f() {
            return Ok(());
        }
        spin(1);
        i = i + 1;
    }
    Err(Error::Timeout)
}

} // verus!
