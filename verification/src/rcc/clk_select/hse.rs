//! The external high-speed clock.
use crate::bit::field_write;
use crate::rcc::CLK_HZ;
use super::CR_RESET;
use vstd::prelude::*;

verus! {

/// How the external clock is fed.
#[derive(Debug, Clone, Copy, PartialEq, Eq, Structural)]
pub enum HseBypass {
    HseBypassOscillator,
    HseBypassPulse,
}

impl HseBypass {
    /// Register code.
    pub fn bits(&self) -> (r: u32)
        ensures
            r == (match *self {
                HseBypass::HseBypassOscillator => 0u32,
                HseBypass::HseBypassPulse => 1u32,
            }),
    {
        match *self {
            HseBypass::HseBypassOscillator => 0,
            HseBypass::HseBypassPulse => 1,
        }
    }
}

/// The external high-speed clock at `HZ` Hz.
pub struct HseClk<const HZ: u32>;

impl<const HZ: u32> CLK_HZ for HseClk<HZ> {
    open spec fn spec_hz(&self) -> u32 {
        HZ
    }

    fn hz(&self) -> (r: u32) {
        HZ
    }
}

/// `RCC_CR.HSEON`.
pub const CR_HSEON: u32 = 16;

impl<const HZ: u32> HseClk<HZ> {
    /// `RCC_CR` value written to switch the external clock on (`en`) or off.
    pub fn cr_value(en: bool) -> (r: u32)
        ensures
            r == field_write(CR_RESET, CR_HSEON, 1, if en { 1 } else { 0 }),
    {
        let v: u32 = if en {
            1
        } else {
            0
        };
        proof {
            crate::bit::lemma_field_max_values();
        }
        (CR_RESET & !(1u32 << CR_HSEON)) | (v << CR_HSEON)
    }

    /// Result of switching the clock on (`en`) or off, given whether
    /// `HSERDY` was seen before the wait gave up: switching off always
    /// succeeds, switching on succeeds once the clock is ready.
    pub fn config_result(en: bool, ready: bool) -> (r: Result<(), ()>)
        ensures
            r is Ok <==> (!en || ready),
    {
        if !en {
            Ok(())
        } else if ready {
            Ok(())
        } else {
            Err(())
        }
    }
}

} // verus!
