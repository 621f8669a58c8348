//! Real-time clock: counter, alarm and prescaler register values.
pub mod types;

use crate::bit::{bit_mask_idx_get, bit_mask_idx_modify, bit_write, field_max, field_value, field_write, read_flag, write_flag};
pub use types::{Error, EventKind, PinSignal, RtcClock};
use vstd::prelude::*;

verus! {

/// Frequency of the external high-speed clock the RTC divides.
pub const HSE_HZ: u32 = 24_000_000;

/// RTC configuration: clock source and an optional initial counter value.
#[derive(Debug, Clone, Copy, PartialEq, Eq, Structural)]
pub struct Config {
    clock: RtcClock,
    load: Option<u32>,
}

impl Config {
    pub closed spec fn spec_clock(self) -> RtcClock {
        self.clock
    }

    pub closed spec fn spec_load(self) -> Option<u32> {
        self.load
    }

    /// A configuration with the given clock and initial counter value.
    pub fn new(clock: RtcClock, load: Option<u32>) -> (r: Self)
        ensures
            r.spec_clock() == clock,
            r.spec_load() == load,
    {
        Self { clock, load }
    }

    /// The clock source.
    pub fn clock(&self) -> (r: RtcClock)
        ensures
            r == self.spec_clock(),
    {
        self.clock
    }

    /// The initial counter value, if any.
    pub fn load(&self) -> (r: Option<u32>)
        ensures
            r == self.spec_load(),
    {
        self.load
    }
}

impl Default for Config {
    fn default() -> (r: Self)
        ensures
            r.spec_clock() == RtcClock::LSI,
            r.spec_load().is_none(),
    {
        Self { clock: RtcClock::LSI, load: None }
    }
}

impl RtcClock {
    /// Frequency of the RTC clock in Hz.
    pub open spec fn spec_hz(self) -> u32 {
        match self {
            RtcClock::LSI => 32768,
            RtcClock::LSE => 32768,
            RtcClock::HSE_DIV_32 => HSE_HZ / 128,
        }
    }

    /// Frequency of the RTC clock in Hz.
    pub fn hz(&self) -> (r: u32)
        ensures
            r == self.spec_hz(),
    {
        match *self {
            RtcClock::LSI => 32768,
            RtcClock::LSE => 32768,
            RtcClock::HSE_DIV_32 => HSE_HZ / 128,
        }
    }

    /// Prescaler reload value giving one counter tick per second.
    pub fn reload(&self) -> (r: u32)
        ensures
            r == self.spec_hz() - 1,
    {
        self.hz() - 1
    }
}

/// High and low halves of a prescaler reload value (`PRLH` takes 4 bits, `PRLL` 16 bits).
pub fn reload_registers(val: u32) -> (r: (u32, u32))
    ensures
        r.0 == field_value(val, 16, 4),
        r.1 == field_value(val, 0, 16),
{
    let high = bit_mask_idx_get::<4>(16, val);
    let low = bit_mask_idx_get::<16>(0, val);
    (high, low)
}

/// The counter value read from `CNTL` and `CNTH`: `CNTH` in the high half over `CNTL`.
pub open spec fn spec_get_counter(cntl: u32, cnth: u32) -> u32 {
    field_write(cntl, 16, 16, cnth)
}

/// The `CNTH` and `CNTL` values that hold `val`: its high and low halves.
pub open spec fn spec_split_counter(val: u32) -> (u32, u32) {
    (field_value(val, 16, 16), field_value(val, 0, 16))
}

/// The 32-bit counter assembled from its high and low registers.
pub fn get_counter(cntl: u32, cnth: u32) -> (r: u32)
    requires
        cnth <= 0xffff,
    ensures
        r == spec_get_counter(cntl, cnth),
{
    proof {
        crate::bit::lemma_field_max_values();
    }
    bit_mask_idx_modify::<16>(16, cntl, cnth)
}

/// High and low register values of a 32-bit counter or alarm value.
pub fn split_counter(val: u32) -> (r: (u32, u32))
    ensures
        r == spec_split_counter(val),
{
    let high = bit_mask_idx_get::<16>(16, val);
    let low = bit_mask_idx_get::<16>(0, val);
    (high, low)
}

/// The counter value at which an alarm `after` seconds from `now` fires.
pub fn alarm_value(now: u32, after: u32) -> (r: u32)
    requires
        1 <= now + after <= u32::MAX,
    ensures
        r == now + after - 1,
{
    now + after - 1
}

/// `CRL.RSF`: the registers are synchronised.
pub const CRL_RSF: usize = 3;

/// `CRL.CNF`: configuration mode.
pub const CRL_CNF: usize = 4;

/// `CRL.RTOFF`: the last write has completed.
pub const CRL_RTOFF: usize = 5;

/// The RTC accepts a new configuration (`RTOFF` set) according to a `CRL` value.
pub fn configurable(crl: u32) -> (r: bool)
    ensures
        r == (field_value(crl, CRL_RTOFF as u32, 1) == 1),
{
    read_flag(crl, CRL_RTOFF)
}

/// The registers are synchronised (`RSF` set) according to a `CRL` value.
pub fn is_registers_synchronized(crl: u32) -> (r: bool)
    ensures
        r == (field_value(crl, CRL_RSF as u32, 1) == 1),
{
    read_flag(crl, CRL_RSF)
}

/// `CRL` with configuration mode entered (`en`) or left.
pub fn set_configurable(crl: u32, en: bool) -> (r: u32)
    ensures
        r == bit_write(crl, CRL_CNF as u32, en),
{
    write_flag(crl, CRL_CNF, en)
}

/// `CRH` with the interrupt of `event` enabled (`en`) or disabled.
pub fn event_config(crh: u32, event: EventKind, en: bool) -> (r: u32)
    ensures
        r == bit_write(crh, event.spec_bit(), en),
{
    write_flag(crh, event.bit(), en)
}

/// Whether `CRH` enables the interrupt of `event`.
pub fn is_event_enabled(crh: u32, event: EventKind) -> (r: bool)
    ensures
        r == (field_value(crh, event.spec_bit(), 1) == 1),
{
    read_flag(crh, event.bit())
}

/// Whether `CRL` shows `event`.
pub fn event_flag(crl: u32, event: EventKind) -> (r: bool)
    ensures
        r == (field_value(crl, event.spec_bit(), 1) == 1),
{
    read_flag(crl, event.bit())
}

/// `CRL` with the flag of `event` cleared.
pub fn clear_event(crl: u32, event: EventKind) -> (r: u32)
    ensures
        r == bit_write(crl, event.spec_bit(), false),
{
    write_flag(crl, event.bit(), false)
}

/// Counter value that ends a wait of `second` seconds from `now`.
pub fn wait_until(now: u32, second: u32) -> (r: u32)
    requires
        now + second <= u32::MAX,
    ensures
        r == now + second,
{
    now + second
}

/// `CRH` after an interrupt: each event (second, alarm, overflow, in that order)
/// that is flagged in `CRL` and enabled has its interrupt switched off.
pub open spec fn spec_silence_fired(crh: u32, crl: u32) -> u32 {
    let a = if field_value(crl, 0, 1) == 1 && field_value(crh, 0, 1) == 1 {
        bit_write(crh, 0, false)
    } else {
        crh
    };
    let b = if field_value(crl, 1, 1) == 1 && field_value(a, 1, 1) == 1 {
        bit_write(a, 1, false)
    } else {
        a
    };
    if field_value(crl, 2, 1) == 1 && field_value(b, 2, 1) == 1 {
        bit_write(b, 2, false)
    } else {
        b
    }
}

/// Interrupt service: `CRH` with the interrupts of the fired events switched off.
pub fn on_interrupt(crh: u32, crl: u32) -> (r: u32)
    ensures
        r == spec_silence_fired(crh, crl),
{
    let mut h = crh;
    if event_flag(crl, EventKind::Second) && is_event_enabled(h, EventKind::Second) {
        h = event_config(h, EventKind::Second, false);
    }
    if event_flag(crl, EventKind::Alarm) && is_event_enabled(h, EventKind::Alarm) {
        h = event_config(h, EventKind::Alarm, false);
    }
    if event_flag(crl, EventKind::OverFlow) && is_event_enabled(h, EventKind::OverFlow) {
        h = event_config(h, EventKind::OverFlow, false);
    }
    h
}

/// A wait on the first `n` of `events`, looking at `crl`: whether one of them
/// fired, and `CRL` with the flags of those that fired cleared.
pub open spec fn spec_poll(crl: u32, events: Seq<EventKind>, n: int) -> (bool, u32)
    decreases n,
{
    if n <= 0 {
        (false, crl)
    } else {
        let (fired, c) = spec_poll(crl, events, n - 1);
        let e = events[n - 1];
        if field_value(c, e.spec_bit(), 1) == 1 {
            (true, bit_write(c, e.spec_bit(), false))
        } else {
            (fired, c)
        }
    }
}

/// One poll of a wait on `events`: whether one of them fired, and `CRL` with
/// their flags cleared.
pub fn poll_events(crl: u32, events: &[EventKind]) -> (r: (bool, u32))
    ensures
        r == spec_poll(crl, events@, events@.len() as int),
{
    let mut fired = false;
    let mut c = crl;
    let mut i: usize = 0;
    while i < events.len()
        invariant
            i <= events@.len(),
            (fired, c) == spec_poll(crl, events@, i as int),
        decreases events@.len() - i,
    {
        let e = events[i];
        if event_flag(c, e) {
            fired = true;
            c = clear_event(c, e);
        }
        i = i + 1;
    }
    (fired, c)
}

/// Writing a value to the counter registers and reading them back gives the
/// value: both halves `split_counter` gives fit the 16-bit `CNTH` and `CNTL`
/// registers, and `get_counter` of the two halves is the value again.
pub proof fn law_counter_round_trip(val: u32)
    ensures
        spec_split_counter(val).0 <= 0xffff,
        spec_split_counter(val).1 <= 0xffff,
        spec_get_counter(spec_split_counter(val).1, spec_split_counter(val).0) == val,
{
    crate::bit::lemma_field_max_values();
    crate::bit::lemma_field_value_bound(val, 16, 16);
    crate::bit::lemma_field_value_bound(val, 0, 16);
    assert(field_write(field_value(val, 0, 16), 16, 16, field_value(val, 16, 16)) == val)
        by (bit_vector);
}

/// The prescaler reload chosen for a clock makes the counter tick once a
/// second: the tick rate `f_rtcclk / (reload + 1)` is 1 Hz.
pub proof fn law_one_tick_per_second(clock: RtcClock)
    ensures
        clock.spec_hz() >= 1,
        (clock.spec_hz() as int) / ((clock.spec_hz() - 1) + 1) == 1,
{
    let h = clock.spec_hz() as int;
    assert(h >= 1);
    assert(h / h == 1) by (nonlinear_arith)
        requires
            h >= 1,
    ;
}

} // verus!
