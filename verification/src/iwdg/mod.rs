//! Independent watchdog.
use crate::bit::{bit_mask_idx_get, field_value};
use vstd::prelude::*;

verus! {

/// Largest reload value.
pub const RELOAD_MAX: u16 = 0xfff;

/// Clock of the independent watchdog, in Hz.
pub const IWDG_CLOCK_HZ: u32 = 32000;

/// Key that reloads the counter.
pub const FEED_KEY: u16 = 0xaaaa;

/// Key that unlocks the prescaler and reload registers.
pub const ACCESS_KEY: u16 = 0x5555;

/// Key that starts the watchdog.
pub const START_KEY: u16 = 0xcccc;

/// Prescaler of the watchdog clock.
#[derive(Debug, Clone, Copy, PartialEq, Eq, Structural)]
pub enum Div {
    Div4,
    Div8,
    Div16,
    Div32,
    Div64,
    Div128,
    Div256,
}

impl Div {
    pub open spec fn spec_bits(self) -> u32 {
        match self {
            Div::Div4 => 0,
            Div::Div8 => 1,
            Div::Div16 => 2,
            Div::Div32 => 3,
            Div::Div64 => 4,
            Div::Div128 => 5,
            Div::Div256 => 6,
        }
    }

    /// `PR` register code.
    pub fn bits(&self) -> (r: u32)
        ensures
            r == self.spec_bits(),
    {
        match *self {
            Div::Div4 => 0,
            Div::Div8 => 1,
            Div::Div16 => 2,
            Div::Div32 => 3,
            Div::Div64 => 4,
            Div::Div128 => 5,
            Div::Div256 => 6,
        }
    }
}

/// Watchdog configuration: prescaler and reload value.
#[derive(Debug, Clone, Copy, PartialEq, Eq, Structural)]
pub struct Config {
    div: Div,
    reload: u16,
}

/// Counter clock for a prescaler code: the watchdog clock divided by 4, 8, ..., 256.
pub open spec fn counter_hz(div_bits: u32) -> u32 {
    if div_bits == 0 {
        8000
    } else if div_bits == 1 {
        4000
    } else if div_bits == 2 {
        2000
    } else if div_bits == 3 {
        1000
    } else if div_bits == 4 {
        500
    } else if div_bits == 5 {
        250
    } else {
        125
    }
}

impl Config {
    pub closed spec fn spec_div(self) -> Div {
        self.div
    }

    pub closed spec fn spec_reload(self) -> u16 {
        self.reload
    }

    /// The prescaler.
    pub fn div(&self) -> (r: Div)
        ensures
            r == self.spec_div(),
    {
        self.div
    }

    /// The reload value.
    pub fn reload(&self) -> (r: u16)
        ensures
            r == self.spec_reload(),
            r <= RELOAD_MAX,
    {
        proof {
            use_type_invariant(self);
        }
        self.reload
    }

    #[verifier::type_invariant]
    spec fn inv(self) -> bool {
        self.reload <= RELOAD_MAX
    }

    /// Time from the last feed to the reset, in microseconds.
    pub fn timeout_us(&self) -> (r: u32)
        ensures
            r == 1_000_000 * (self.spec_reload() as int) / (counter_hz(self.spec_div().spec_bits()) as int),
    {
        proof {
            use_type_invariant(self);
        }
        let b = self.div.bits();
        let shift = b + 2;
        let hz = IWDG_CLOCK_HZ >> shift;
        assert((b == 0 ==> hz == 8000) && (b == 1 ==> hz == 4000) && (b == 2 ==> hz == 2000) && (b
            == 3 ==> hz == 1000) && (b == 4 ==> hz == 500) && (b == 5 ==> hz == 250) && (b == 6
            ==> hz == 125)) by (bit_vector)
            requires
                shift == b + 2,
                b <= 6,
                hz == 32000u32 >> shift,
        ;
        1000_000 * self.reload as u32 / hz
    }
}

impl Default for Config {
    fn default() -> (r: Self)
        ensures
            r.spec_div() == Div::Div256,
            r.spec_reload() == RELOAD_MAX,
    {
        Self { div: Div::Div256, reload: RELOAD_MAX }
    }
}

/// The watchdog has taken the new prescaler and reload values (status flags clear).
pub fn is_updated(sr: u32) -> (r: bool)
    ensures
        r == (field_value(sr, 0, 1) == 0 && field_value(sr, 1, 1) == 0),
{
    bit_mask_idx_get::<1>(0, sr) == 0 && bit_mask_idx_get::<1>(1, sr) == 0
}

} // verus!
