//! Tick counting and alarms of the SysTick time driver.
use crate::bit::{bit_write, write_flag};
use vstd::prelude::*;

verus! {

/// Number of alarms the driver can hand out.
pub const ALARM_COUNT: usize = 1;

/// `SYST_CSR.ENABLE`: the counter runs.
pub const SYST_CSR_ENABLE: usize = 0;

/// `SYST_CSR.TICKINT`: reaching zero raises the SysTick exception.
pub const SYST_CSR_TICKINT: usize = 1;

/// `SYST_CSR.CLKSOURCE`: the counter runs on the core clock.
pub const SYST_CSR_CLKSOURCE: usize = 2;

/// Clock of the SysTick counter.
#[derive(Debug, Clone, Copy, PartialEq, Eq, Structural)]
pub enum SystClkSource {
    /// The core clock.
    Core,
    /// The external reference clock.
    External,
}

/// `SYST_CSR` with the counter clock set to `source`.
pub fn csr_with_clock_source(csr: u32, source: SystClkSource) -> (r: u32)
    ensures
        r == bit_write(csr, SYST_CSR_CLKSOURCE as u32, source == SystClkSource::Core),
{
    match source {
        SystClkSource::External => write_flag(csr, SYST_CSR_CLKSOURCE, false),
        SystClkSource::Core => write_flag(csr, SYST_CSR_CLKSOURCE, true),
    }
}

/// `SYST_CSR` with the counter started (`en`) or stopped.
pub fn csr_with_counter(csr: u32, en: bool) -> (r: u32)
    ensures
        r == bit_write(csr, SYST_CSR_ENABLE as u32, en),
{
    write_flag(csr, SYST_CSR_ENABLE, en)
}

/// `SYST_CSR` with the tick interrupt enabled (`en`) or disabled.
pub fn csr_with_interrupt(csr: u32, en: bool) -> (r: u32)
    ensures
        r == bit_write(csr, SYST_CSR_TICKINT as u32, en),
{
    write_flag(csr, SYST_CSR_TICKINT, en)
}

/// SysTick reload value for one tick: core cycles per tick.
pub fn cnt_per_tick(sys_clock: u32, tick_hz: u32) -> (r: u32)
    requires
        tick_hz > 0,
    ensures
        r == sys_clock / tick_hz,
{
    sys_clock / tick_hz
}

/// An alarm: when it rings and what it calls.
#[derive(Debug)]
pub struct AlarmState<C> {
    /// Tick at which it rings; `u64::MAX` when disarmed.
    pub timestamp: u64,
    /// What ringing calls.
    pub callback: Option<C>,
}

impl<C> AlarmState<C> {
    /// A disarmed alarm with no callback.
    pub fn new() -> (r: Self)
        ensures
            r.timestamp == u64::MAX,
            r.callback is None,
    {
        AlarmState { timestamp: u64::MAX, callback: None }
    }
}

/// The tick after `now`, wrapping at `u64::MAX`.
pub open spec fn next_tick(now: u64) -> u64 {
    if now == u64::MAX {
        0
    } else {
        (now + 1) as u64
    }
}

/// An alarm set for `timestamp` rings at tick `now`.
pub open spec fn rings(timestamp: u64, now: u64) -> bool {
    timestamp <= now
}

/// Tick count and alarms of the driver.
pub struct SystickDriver<C> {
    alarm_count: u8,
    alarms: Vec<AlarmState<C>>,
    period_count: u64,
}

impl<C: Copy> SystickDriver<C> {
    /// Alarms handed out so far.
    pub closed spec fn spec_alarm_count(&self) -> nat {
        self.alarm_count as nat
    }

    /// Current tick.
    pub closed spec fn spec_now(&self) -> u64 {
        self.period_count
    }

    /// The alarms.
    pub closed spec fn spec_alarms(&self) -> Seq<AlarmState<C>> {
        self.alarms@
    }

    /// Well-formed: one state per alarm, and no more handed out than there are.
    pub open spec fn wf(&self) -> bool {
        &&& self.spec_alarms().len() == ALARM_COUNT
        &&& self.spec_alarm_count() <= ALARM_COUNT
    }

    /// Tick 0, no alarm handed out, every alarm disarmed.
    pub fn new() -> (d: Self)
        ensures
            d.wf(),
            d.spec_now() == 0,
            d.spec_alarm_count() == 0,
            forall|i: int|
                0 <= i < ALARM_COUNT ==> #[trigger] d.spec_alarms()[i].timestamp == u64::MAX
                    && d.spec_alarms()[i].callback is None,
    {
        let mut alarms: Vec<AlarmState<C>> = Vec::new();
        let mut i: usize = 0;
        while i < ALARM_COUNT
            invariant
                i <= ALARM_COUNT,
                alarms@.len() == i,
                forall|j: int|
                    0 <= j < i ==> #[trigger] alarms@[j].timestamp == u64::MAX
                        && alarms@[j].callback is None,
            decreases ALARM_COUNT - i,
        {
            alarms.push(AlarmState::new());
            i = i + 1;
        }
        SystickDriver { alarm_count: 0, alarms, period_count: 0 }
    }

    /// Current tick.
    pub fn now(&self) -> (r: u64)
        ensures
            r == self.spec_now(),
    {
        self.period_count
    }

    /// Hands out the next alarm id, or `None` once all `ALARM_COUNT` are out.
    pub fn allocate_alarm(&mut self) -> (r: Option<u8>)
        requires
            old(self).wf(),
        ensures
            final(self).wf(),
            final(self).spec_now() == old(self).spec_now(),
            final(self).spec_alarms() == old(self).spec_alarms(),
            old(self).spec_alarm_count() < ALARM_COUNT ==> r == Some(
                old(self).spec_alarm_count() as u8,
            ) && final(self).spec_alarm_count() == old(self).spec_alarm_count() + 1,
            old(self).spec_alarm_count() >= ALARM_COUNT ==> r is None
                && final(self).spec_alarm_count() == old(self).spec_alarm_count(),
    {
        if (self.alarm_count as usize) < ALARM_COUNT {
            let id = self.alarm_count;
            self.alarm_count = id + 1;
            Some(id)
        } else {
            None
        }
    }

    /// Sets what alarm `n` calls when it rings.
    pub fn set_alarm_callback(&mut self, n: usize, callback: C)
        requires
            old(self).wf(),
            n < ALARM_COUNT,
        ensures
            final(self).wf(),
            final(self).spec_now() == old(self).spec_now(),
            final(self).spec_alarm_count() == old(self).spec_alarm_count(),
            final(self).spec_alarms() == old(self).spec_alarms().update(
                n as int,
                AlarmState { timestamp: old(self).spec_alarms()[n as int].timestamp, callback: Some(callback) },
            ),
    {
        let ts = self.alarms[n].timestamp;
        self.alarms.set(n, AlarmState { timestamp: ts, callback: Some(callback) });
    }

    /// Arms alarm `n` for tick `timestamp`. A tick that has already come
    /// disarms it and answers `false`; a later one answers `true`.
    pub fn set_alarm(&mut self, n: usize, timestamp: u64) -> (r: bool)
        requires
            old(self).wf(),
            n < ALARM_COUNT,
        ensures
            final(self).wf(),
            final(self).spec_now() == old(self).spec_now(),
            final(self).spec_alarm_count() == old(self).spec_alarm_count(),
            r == (timestamp > old(self).spec_now()),
            final(self).spec_alarms() == old(self).spec_alarms().update(
                n as int,
                AlarmState {
                    timestamp: if r {
                        timestamp
                    } else {
                        u64::MAX
                    },
                    callback: old(self).spec_alarms()[n as int].callback,
                },
            ),
    {
        let cb = self.alarms[n].callback;
        if timestamp <= self.period_count {
            self.alarms.set(n, AlarmState { timestamp: u64::MAX, callback: cb });
            false
        } else {
            self.alarms.set(n, AlarmState { timestamp, callback: cb });
            true
        }
    }

    /// One SysTick period passed: the tick advances (wrapping), and alarm `n`
    /// rings if its tick has come. A ringing alarm is disarmed and its
    /// callback, if any, is handed back to be called.
    pub fn on_interrupt(&mut self, n: usize) -> (r: Option<C>)
        requires
            old(self).wf(),
            n < ALARM_COUNT,
        ensures
            final(self).wf(),
            final(self).spec_now() == next_tick(old(self).spec_now()),
            final(self).spec_alarm_count() == old(self).spec_alarm_count(),
            rings(old(self).spec_alarms()[n as int].timestamp, final(self).spec_now()) ==> r == old(
                self,
            ).spec_alarms()[n as int].callback && final(self).spec_alarms() == old(
                self,
            ).spec_alarms().update(
                n as int,
                AlarmState { timestamp: u64::MAX, callback: old(self).spec_alarms()[n as int].callback },
            ),
            !rings(old(self).spec_alarms()[n as int].timestamp, final(self).spec_now()) ==> r is None
                && final(self).spec_alarms() == old(self).spec_alarms(),
    {
        self.period_count = self.period_count.wrapping_add(1);
        let ts = self.alarms[n].timestamp;
        if ts <= self.period_count {
            let cb = self.alarms[n].callback;
            self.alarms.set(n, AlarmState { timestamp: u64::MAX, callback: cb });
            cb
        } else {
            None
        }
    }
}

/// An alarm rings once: once it has rung it is disarmed, and a disarmed
/// alarm does not ring at the following tick unless the tick counter has
/// reached `u64::MAX`. An alarm set for a later tick than now answers `true`
/// and does not ring before that tick.
pub proof fn law_alarm_rings_once(now: u64, timestamp: u64)
    ensures
        next_tick(now) < u64::MAX ==> !rings(u64::MAX, next_tick(now)),
        timestamp > now ==> forall|t: u64| now <= t < timestamp ==> !#[trigger] rings(timestamp, t),
{
}

} // verus!
