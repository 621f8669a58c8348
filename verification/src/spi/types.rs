//! SPI value types.
use vstd::prelude::*;

verus! {

/// SPI errors.
#[derive(Debug, Clone, Copy, PartialEq, Eq, Structural)]
pub enum Error {
    Init,
    Read,
    Write,
    Timeout,
    Busy,
}

/// Bidirectional data mode.
#[derive(Debug, Clone, Copy, PartialEq, Eq, Structural)]
pub enum BidirectionalMode {
    /// 2-line unidirectional data mode.
    Line2Unidirectional,
    /// 1-line bidirectional data mode.
    Line1Bidirectional,
}

/// Frame format; must not change while a transfer is ongoing.
#[derive(Debug, Clone, Copy, PartialEq, Eq, Structural)]
pub enum BitOrder {
    /// Most significant bit first.
    MSB,
    /// Least significant bit first.
    LSB,
}

/// Baud rate divider of PCLK; in slave mode at most PCLK/4 is supported.
#[derive(Debug, Clone, Copy, PartialEq, Eq, Structural)]
pub enum BaudRateDiv {
    Div2,
    Div4,
    Div8,
    Div16,
    Div32,
    Div64,
    Div128,
    Div256,
}

impl BaudRateDiv {
    pub open spec fn spec_bits(self) -> u32 {
        match self {
            BaudRateDiv::Div2 => 0,
            BaudRateDiv::Div4 => 1,
            BaudRateDiv::Div8 => 2,
            BaudRateDiv::Div16 => 3,
            BaudRateDiv::Div32 => 4,
            BaudRateDiv::Div64 => 5,
            BaudRateDiv::Div128 => 6,
            BaudRateDiv::Div256 => 7,
        }
    }

    pub open spec fn spec_div(self) -> u32 {
        match self {
            BaudRateDiv::Div2 => 2,
            BaudRateDiv::Div4 => 4,
            BaudRateDiv::Div8 => 8,
            BaudRateDiv::Div16 => 16,
            BaudRateDiv::Div32 => 32,
            BaudRateDiv::Div64 => 64,
            BaudRateDiv::Div128 => 128,
            BaudRateDiv::Div256 => 256,
        }
    }

    /// `BR` register code.
    pub fn bits(&self) -> (r: u32)
        ensures
            r == self.spec_bits(),
    {
        match *self {
            BaudRateDiv::Div2 => 0,
            BaudRateDiv::Div4 => 1,
            BaudRateDiv::Div8 => 2,
            BaudRateDiv::Div16 => 3,
            BaudRateDiv::Div32 => 4,
            BaudRateDiv::Div64 => 5,
            BaudRateDiv::Div128 => 6,
            BaudRateDiv::Div256 => 7,
        }
    }

    /// The divider with register code `value` (at most 7).
    pub fn from_bits(value: u8) -> (r: Self)
        requires
            value <= 7,
        ensures
            r.spec_bits() == value,
    {
        match value {
            0 => Self::Div2,
            1 => Self::Div4,
            2 => Self::Div8,
            3 => Self::Div16,
            4 => Self::Div32,
            5 => Self::Div64,
            6 => Self::Div128,
            _ => Self::Div256,
        }
    }

    /// Bus clock for the APB clock `pclk`: `pclk / 2^(code + 1)`.
    pub fn baud_rate(&self, pclk: u32) -> (r: u32)
        ensures
            r == pclk / self.spec_div(),
    {
        let shift = self.bits();
        let div: u32 = 0x02 << shift;
        assert((shift == 0 ==> div == 2) && (shift == 1 ==> div == 4) && (shift == 2 ==> div == 8)
            && (shift == 3 ==> div == 16) && (shift == 4 ==> div == 32) && (shift == 5 ==> div
            == 64) && (shift == 6 ==> div == 128) && (shift == 7 ==> div == 256)) by (bit_vector)
            requires
                shift <= 7,
                div == 0x02u32 << shift,
        ;
        pclk / div
    }
}

/// Master or slave role.
#[derive(Debug, Clone, Copy, PartialEq, Eq, Structural)]
pub enum Rule {
    Slave,
    Master,
}

/// Slave fast mode.
#[derive(Debug, Clone, Copy, PartialEq, Eq, Structural)]
pub enum SlaveSpeedMode {
    /// The fastest supported SPI clock is below PCLK/4.
    Normal,
    /// SPI clock up to PCLK/4.
    Fast,
}

/// Data frame length.
#[derive(Debug, Clone, Copy, PartialEq, Eq, Structural)]
pub enum DataLength {
    Length8,
    Length16,
}

/// Idle level of the clock line.
#[derive(Debug, Clone, Copy, PartialEq, Eq, Structural)]
pub enum Polarity {
    IdleLow,
    IdleHigh,
}

/// Clock edge on which data is captured.
#[derive(Debug, Clone, Copy, PartialEq, Eq, Structural)]
pub enum Phase {
    CaptureOnFirstTransition,
    CaptureOnSecondTransition,
}

/// Clock polarity and phase.
#[derive(Debug, Clone, Copy, PartialEq, Eq, Structural)]
pub struct Mode {
    pub polarity: Polarity,
    pub phase: Phase,
}

} // verus!
