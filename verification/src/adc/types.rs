//! ADC value types.
use vstd::prelude::*;

verus! {

/// ADC errors.
#[derive(Debug, Clone, Copy, PartialEq, Eq, Structural)]
pub enum Error {
    Busy,
    Timeout,
    Calibrate,
}

/// ADC clock source and divider (`CKMODE`).
#[allow(non_camel_case_types)]
#[derive(Debug, Clone, Copy, PartialEq, Eq, Structural)]
pub enum ClockMode {
    PCLK,
    PLCK_DIV2,
    PCLK_DIV4,
    PCLK_DIV8,
    PCLK_DIV16,
    PCLK_DIV32,
    PCLK_DIV64,
    HSI,
    HSI_DIV2,
    HSI_DIV4,
    HSI_DIV8,
    HSI_DIV16,
    HSI_DIV32,
    HSI_DIV64,
}

impl ClockMode {
    pub open spec fn spec_bits(self) -> u32 {
        match self {
            ClockMode::PCLK => 0,
            ClockMode::PLCK_DIV2 => 1,
            ClockMode::PCLK_DIV4 => 2,
            ClockMode::PCLK_DIV8 => 3,
            ClockMode::PCLK_DIV16 => 4,
            ClockMode::PCLK_DIV32 => 5,
            ClockMode::PCLK_DIV64 => 6,
            ClockMode::HSI => 0b1000,
            ClockMode::HSI_DIV2 => 0b1001,
            ClockMode::HSI_DIV4 => 0b1010,
            ClockMode::HSI_DIV8 => 0b1011,
            ClockMode::HSI_DIV16 => 0b1100,
            ClockMode::HSI_DIV32 => 0b1101,
            ClockMode::HSI_DIV64 => 0b1110,
        }
    }

    /// Register code.
    pub fn bits(&self) -> (r: u32)
        ensures
            r == self.spec_bits(),
    {
        match *self {
            ClockMode::PCLK => 0,
            ClockMode::PLCK_DIV2 => 1,
            ClockMode::PCLK_DIV4 => 2,
            ClockMode::PCLK_DIV8 => 3,
            ClockMode::PCLK_DIV16 => 4,
            ClockMode::PCLK_DIV32 => 5,
            ClockMode::PCLK_DIV64 => 6,
            ClockMode::HSI => 0b1000,
            ClockMode::HSI_DIV2 => 0b1001,
            ClockMode::HSI_DIV4 => 0b1010,
            ClockMode::HSI_DIV8 => 0b1011,
            ClockMode::HSI_DIV16 => 0b1100,
            ClockMode::HSI_DIV32 => 0b1101,
            ClockMode::HSI_DIV64 => 0b1110,
        }
    }
}

/// Analog input channel: 0 to 7 on PA0 to PA7, 8 and 9 on PB0 and PB1, 11 the temperature sensor, 12 the internal reference voltage.
#[derive(Debug, Clone, Copy, PartialEq, Eq, Structural)]
pub enum AdcChannel {
    Channel0,
    Channel1,
    Channel2,
    Channel3,
    Channel4,
    Channel5,
    Channel6,
    Channel7,
    Channel8,
    Channel9,
    Channel11,
    Channel12,
}

impl AdcChannel {
    pub open spec fn spec_bits(self) -> u32 {
        match self {
            AdcChannel::Channel0 => 0,
            AdcChannel::Channel1 => 1,
            AdcChannel::Channel2 => 2,
            AdcChannel::Channel3 => 3,
            AdcChannel::Channel4 => 4,
            AdcChannel::Channel5 => 5,
            AdcChannel::Channel6 => 6,
            AdcChannel::Channel7 => 7,
            AdcChannel::Channel8 => 8,
            AdcChannel::Channel9 => 9,
            AdcChannel::Channel11 => 11,
            AdcChannel::Channel12 => 12,
        }
    }

    /// Channel number.
    pub fn bits(&self) -> (r: u32)
        ensures
            r == self.spec_bits(),
    {
        match *self {
            AdcChannel::Channel0 => 0,
            AdcChannel::Channel1 => 1,
            AdcChannel::Channel2 => 2,
            AdcChannel::Channel3 => 3,
            AdcChannel::Channel4 => 4,
            AdcChannel::Channel5 => 5,
            AdcChannel::Channel6 => 6,
            AdcChannel::Channel7 => 7,
            AdcChannel::Channel8 => 8,
            AdcChannel::Channel9 => 9,
            AdcChannel::Channel11 => 11,
            AdcChannel::Channel12 => 12,
        }
    }
}

/// Single, continuous or discontinuous conversion.
#[derive(Debug, Clone, Copy, PartialEq, Eq, Structural)]
pub enum ConversionMode {
    Single,
    Continuous,
    Discontinuous,
}

/// External trigger selection (`EXTSEL`).
#[allow(non_camel_case_types)]
#[derive(Debug, Clone, Copy, PartialEq, Eq, Structural)]
pub enum ExitTrigleSource {
    TIM1_TRG0,
    TIM1_CC4,
    TIM3_TRGP,
}

impl ExitTrigleSource {
    pub open spec fn spec_bits(self) -> u32 {
        match self {
            ExitTrigleSource::TIM1_TRG0 => 0,
            ExitTrigleSource::TIM1_CC4 => 1,
            ExitTrigleSource::TIM3_TRGP => 3,
        }
    }

    /// Register code.
    pub fn bits(&self) -> (r: u32)
        ensures
            r == self.spec_bits(),
    {
        match *self {
            ExitTrigleSource::TIM1_TRG0 => 0,
            ExitTrigleSource::TIM1_CC4 => 1,
            ExitTrigleSource::TIM3_TRGP => 3,
        }
    }
}

/// External trigger enable and polarity.
#[derive(Debug, Clone, Copy, PartialEq, Eq, Structural)]
pub enum TrigleSignal {
    Soft,
    Rising(ExitTrigleSource),
    Falling(ExitTrigleSource),
    RisingFalling(ExitTrigleSource),
}

/// Data alignment.
#[derive(Debug, Clone, Copy, PartialEq, Eq, Structural)]
pub enum Align {
    Right,
    Left,
}

/// Conversion resolution (`RESSEL`).
#[derive(Debug, Clone, Copy, PartialEq, Eq, Structural)]
pub enum Resolution {
    Bit12,
    Bit10,
    Bit8,
    Bit6,
}

impl Resolution {
    pub open spec fn spec_bits(self) -> u32 {
        match self {
            Resolution::Bit12 => 0,
            Resolution::Bit10 => 1,
            Resolution::Bit8 => 2,
            Resolution::Bit6 => 3,
        }
    }

    /// Register code.
    pub fn bits(&self) -> (r: u32)
        ensures
            r == self.spec_bits(),
    {
        match *self {
            Resolution::Bit12 => 0,
            Resolution::Bit10 => 1,
            Resolution::Bit8 => 2,
            Resolution::Bit6 => 3,
        }
    }
}

/// Scan sequence direction.
#[derive(Debug, Clone, Copy, PartialEq, Eq, Structural)]
pub enum ScanDir {
    Up,
    Down,
}

/// Sampling time of all channels (`SMP`).
#[allow(non_camel_case_types)]
#[derive(Debug, Clone, Copy, PartialEq, Eq, Structural)]
pub enum SampleCycles {
    Cycle_3_5,
    Cycle_5_5,
    Cycle_7_5,
    Cycle_13_5,
    Cycle_28_5,
    Cycle_41_5,
    Cycle_71_5,
    Cycle_239_5,
}

impl SampleCycles {
    pub open spec fn spec_bits(self) -> u32 {
        match self {
            SampleCycles::Cycle_3_5 => 0,
            SampleCycles::Cycle_5_5 => 1,
            SampleCycles::Cycle_7_5 => 2,
            SampleCycles::Cycle_13_5 => 3,
            SampleCycles::Cycle_28_5 => 4,
            SampleCycles::Cycle_41_5 => 5,
            SampleCycles::Cycle_71_5 => 6,
            SampleCycles::Cycle_239_5 => 7,
        }
    }

    /// Register code.
    pub fn bits(&self) -> (r: u32)
        ensures
            r == self.spec_bits(),
    {
        match *self {
            SampleCycles::Cycle_3_5 => 0,
            SampleCycles::Cycle_5_5 => 1,
            SampleCycles::Cycle_7_5 => 2,
            SampleCycles::Cycle_13_5 => 3,
            SampleCycles::Cycle_28_5 => 4,
            SampleCycles::Cycle_41_5 => 5,
            SampleCycles::Cycle_71_5 => 6,
            SampleCycles::Cycle_239_5 => 7,
        }
    }
}

/// Calibration sampling time (`CALSMP`).
#[allow(non_camel_case_types)]
#[derive(Debug, Clone, Copy, PartialEq, Eq, Structural)]
pub enum CalibrationSampleTime {
    Cycle_1,
    Cycle_2,
    Cycle_4,
    Cycle_8,
}

impl CalibrationSampleTime {
    pub open spec fn spec_bits(self) -> u32 {
        match self {
            CalibrationSampleTime::Cycle_1 => 3,
            CalibrationSampleTime::Cycle_2 => 0,
            CalibrationSampleTime::Cycle_4 => 1,
            CalibrationSampleTime::Cycle_8 => 2,
        }
    }

    /// Register code.
    pub fn bits(&self) -> (r: u32)
        ensures
            r == self.spec_bits(),
    {
        match *self {
            CalibrationSampleTime::Cycle_1 => 3,
            CalibrationSampleTime::Cycle_2 => 0,
            CalibrationSampleTime::Cycle_4 => 1,
            CalibrationSampleTime::Cycle_8 => 2,
        }
    }
}

/// What the calibration corrects.
#[derive(Debug, Clone, Copy, PartialEq, Eq, Structural)]
pub enum CalibrationSelect {
    Offset,
    OffsetLinearity,
}

impl CalibrationSelect {
    pub open spec fn spec_bits(self) -> u32 {
        match self {
            CalibrationSelect::Offset => 0,
            CalibrationSelect::OffsetLinearity => 1,
        }
    }

    /// Register code.
    pub fn bits(&self) -> (r: u32)
        ensures
            r == self.spec_bits(),
    {
        match *self {
            CalibrationSelect::Offset => 0,
            CalibrationSelect::OffsetLinearity => 1,
        }
    }
}

/// ADC events (flags in `ISR`, interrupt enables in `IER`).
#[derive(Debug, Clone, Copy, PartialEq, Eq, Structural)]
pub enum Event {
    EOSMP,
    EOC,
    EOSEQ,
    OVR,
    AWD,
}

impl Event {
    pub open spec fn spec_bits(self) -> u32 {
        match self {
            Event::EOSMP => 1,
            Event::EOC => 2,
            Event::EOSEQ => 3,
            Event::OVR => 4,
            Event::AWD => 7,
        }
    }

    /// Bit position in `ISR` and `IER`.
    pub fn bits(&self) -> (r: u32)
        ensures
            r == self.spec_bits(),
    {
        match *self {
            Event::EOSMP => 1,
            Event::EOC => 2,
            Event::EOSEQ => 3,
            Event::OVR => 4,
            Event::AWD => 7,
        }
    }
}

} // verus!
