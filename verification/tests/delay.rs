use std::cell::Cell;

use py32f030_hal::delay::{cycles_per_us, delay_ms, delay_s, delay_us, wait_for_true_timeout_block, Error};
use py32f030_hal::dwt::{Dwt, Instant};

#[test]
fn cycles_follow_the_core_clock() {
    assert_eq!(cycles_per_us(48_000_000), 8);
    assert_eq!(cycles_per_us(24_000_000), 6);
    assert_eq!(cycles_per_us(16_000_000), 4);
    assert_eq!(cycles_per_us(8_000_000), 1);
}

#[test]
fn delays_spin_per_microsecond() {
    let calls = Cell::new(0u64);
    let cycles = Cell::new(0u64);
    let spin = |c: u32| {
        calls.set(calls.get() + 1);
        cycles.set(cycles.get() + c as u64);
    };
    delay_us(10, 16_000_000, &spin);
    assert_eq!((calls.get(), cycles.get()), (10, 40));
    delay_ms(2, 24_000_000, &spin);
    assert_eq!(calls.get(), 10 + 2000);
    delay_s(0, 24_000_000, &spin);
    assert_eq!(calls.get(), 2010);
}

#[test]
fn bounded_wait() {
    let polls = Cell::new(0usize);
    let spin = |_c: u32| {};
    let r = wait_for_true_timeout_block(5, || {
        polls.set(polls.get() + 1);
        polls.get() == 3
    }, &spin);
    assert_eq!(r, Ok(()));
    assert_eq!(polls.get(), 3);
    let r = wait_for_true_timeout_block(4, || false, &spin);
    assert_eq!(r, Err(Error::Timeout));
    assert_eq!(wait_for_true_timeout_block(0, || true, &spin), Err(Error::Timeout));
}

#[test]
fn cycle_counter_arithmetic() {
    let start = Instant::from_count(0xffff_fff0);
    assert_eq!(start.elapsed(0x10), 0x20);
    assert_eq!(Instant::from_count(5).elapsed(12), 7);
    assert_eq!(Instant::from_count(48_000_000).ms(8_000_000), 6);
    assert_eq!(Dwt::cycles_for_ms(3, 8_000_000), 24_000);
    assert!(Dwt::delay_over(start, 0x10, 0x1f));
    assert!(!Dwt::delay_over(start, 0x10, 0x20));
}
