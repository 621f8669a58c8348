//! RTC value types.
use vstd::prelude::*;

verus! {

/// RTC errors.
#[derive(Debug, Clone, Copy, PartialEq, Eq, Structural)]
pub enum Error {
    Clock,
    Timeout,
}

/// Signal driven on the RTC output pin.
#[derive(Debug, Clone, Copy, PartialEq, Eq, Structural)]
pub enum PinSignal {
    /// The alarm pulse.
    AlarmPulse,
    /// The second pulse.
    SecondPulse,
    /// The RTC clock.
    Clock,
}

/// RTC events.
#[derive(Debug, Clone, Copy, PartialEq, Eq, Structural)]
pub enum EventKind {
    /// The second tick.
    Second,
    /// The alarm.
    Alarm,
    /// The counter overflowed.
    OverFlow,
}

impl EventKind {
    /// Position of the event's flag in `CRL` and of its enable in `CRH`.
    pub open spec fn spec_bit(self) -> u32 {
        match self {
            EventKind::Second => 0,
            EventKind::Alarm => 1,
            EventKind::OverFlow => 2,
        }
    }

    /// Position of the event's flag in `CRL` and of its enable in `CRH`.
    pub fn bit(&self) -> (r: usize)
        ensures
            r == self.spec_bit(),
    {
        match *self {
            EventKind::Second => 0,
            EventKind::Alarm => 1,
            EventKind::OverFlow => 2,
        }
    }
}

/// Clock that drives the RTC.
#[allow(non_camel_case_types)]
#[derive(Debug, Clone, Copy, PartialEq, Eq, Structural)]
pub enum RtcClock {
    LSI,
    LSE,
    HSE_DIV_32,
}

} // verus!
