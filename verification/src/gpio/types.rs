//! GPIO configuration value types.
use vstd::prelude::*;

verus! {

/// Pin mode (`MODER`).
#[derive(Debug, Clone, Copy, PartialEq, Eq, Structural)]
pub enum PinMode {
    Input,
    Output,
    Af,
    Analog,
}

impl PinMode {
    pub open spec fn spec_bits(self) -> u32 {
        match self {
            PinMode::Input => 0,
            PinMode::Output => 1,
            PinMode::Af => 2,
            PinMode::Analog => 3,
        }
    }

    /// `MODER` field code.
    pub fn bits(&self) -> (r: u32)
        ensures
            r == self.spec_bits(),
    {
        match *self {
            PinMode::Input => 0,
            PinMode::Output => 1,
            PinMode::Af => 2,
            PinMode::Analog => 3,
        }
    }
}

/// Output speed (`OSPEEDR`).
#[derive(Debug, Clone, Copy, PartialEq, Eq, Structural)]
pub enum PinSpeed {
    VeryLow,
    Low,
    High,
    VeryHigh,
}

impl PinSpeed {
    pub open spec fn spec_bits(self) -> u32 {
        match self {
            PinSpeed::VeryLow => 0,
            PinSpeed::Low => 1,
            PinSpeed::High => 2,
            PinSpeed::VeryHigh => 3,
        }
    }

    /// `OSPEEDR` field code.
    pub fn bits(&self) -> (r: u32)
        ensures
            r == self.spec_bits(),
    {
        match *self {
            PinSpeed::VeryLow => 0,
            PinSpeed::Low => 1,
            PinSpeed::High => 2,
            PinSpeed::VeryHigh => 3,
        }
    }
}

/// Alternate function number.
#[derive(Debug, Clone, Copy, PartialEq, Eq, Structural)]
pub enum PinAF {
    AF0,
    AF1,
    AF2,
    AF3,
    AF4,
    AF5,
    AF6,
    AF7,
    AF8,
    AF9,
    AF10,
    AF11,
    AF12,
    AF13,
    AF14,
    AF15,
}

impl PinAF {
    pub open spec fn spec_bits(self) -> u32 {
        match self {
            PinAF::AF0 => 0,
            PinAF::AF1 => 1,
            PinAF::AF2 => 2,
            PinAF::AF3 => 3,
            PinAF::AF4 => 4,
            PinAF::AF5 => 5,
            PinAF::AF6 => 6,
            PinAF::AF7 => 7,
            PinAF::AF8 => 8,
            PinAF::AF9 => 9,
            PinAF::AF10 => 10,
            PinAF::AF11 => 11,
            PinAF::AF12 => 12,
            PinAF::AF13 => 13,
            PinAF::AF14 => 14,
            PinAF::AF15 => 15,
        }
    }

    /// Alternate function number (`AFRL`/`AFRH` field code).
    pub fn bits(&self) -> (r: u32)
        ensures
            r == self.spec_bits(),
    {
        match *self {
            PinAF::AF0 => 0,
            PinAF::AF1 => 1,
            PinAF::AF2 => 2,
            PinAF::AF3 => 3,
            PinAF::AF4 => 4,
            PinAF::AF5 => 5,
            PinAF::AF6 => 6,
            PinAF::AF7 => 7,
            PinAF::AF8 => 8,
            PinAF::AF9 => 9,
            PinAF::AF10 => 10,
            PinAF::AF11 => 11,
            PinAF::AF12 => 12,
            PinAF::AF13 => 13,
            PinAF::AF14 => 14,
            PinAF::AF15 => 15,
        }
    }

    /// The alternate function with number `value` (0 to 15).
    pub fn from_bits(value: u32) -> (r: Self)
        requires
            value <= 15,
        ensures
            r.spec_bits() == value,
    {
        match value {
            0 => Self::AF0,
            1 => Self::AF1,
            2 => Self::AF2,
            3 => Self::AF3,
            4 => Self::AF4,
            5 => Self::AF5,
            6 => Self::AF6,
            7 => Self::AF7,
            8 => Self::AF8,
            9 => Self::AF9,
            10 => Self::AF10,
            11 => Self::AF11,
            12 => Self::AF12,
            13 => Self::AF13,
            14 => Self::AF14,
            _ => Self::AF15,
        }
    }
}

/// Internal pull-up / pull-down (`PUPDR`).
#[derive(Debug, Clone, Copy, PartialEq, Eq, Structural)]
pub enum PinPullUpDown {
    No,
    PullUp,
    PollDown,
}

impl PinPullUpDown {
    pub open spec fn spec_bits(self) -> u32 {
        match self {
            PinPullUpDown::No => 0,
            PinPullUpDown::PullUp => 1,
            PinPullUpDown::PollDown => 2,
        }
    }

    /// `PUPDR` field code.
    pub fn bits(&self) -> (r: u32)
        ensures
            r == self.spec_bits(),
    {
        match *self {
            PinPullUpDown::No => 0,
            PinPullUpDown::PullUp => 1,
            PinPullUpDown::PollDown => 2,
        }
    }
}

/// Output driver type (`OTYPER`).
#[derive(Debug, Clone, Copy, PartialEq, Eq, Structural)]
pub enum PinOutputType {
    PushPull,
    OpenDrain,
}

impl PinOutputType {
    pub open spec fn spec_bits(self) -> u32 {
        match self {
            PinOutputType::PushPull => 0,
            PinOutputType::OpenDrain => 1,
        }
    }

    /// `OTYPER` field code.
    pub fn bits(&self) -> (r: u32)
        ensures
            r == self.spec_bits(),
    {
        match *self {
            PinOutputType::PushPull => 0,
            PinOutputType::OpenDrain => 1,
        }
    }
}

/// Electrical I/O type: a pull configuration together with a driver type.
#[derive(Debug, Clone, Copy, PartialEq, Eq, Structural)]
pub enum PinIoType {
    Floating,
    PullUp,
    PullDown,
    OpenDrain,
}

impl PinIoType {
    pub open spec fn spec_split(self) -> (PinPullUpDown, PinOutputType) {
        match self {
            PinIoType::PullUp => (PinPullUpDown::PullUp, PinOutputType::PushPull),
            PinIoType::PullDown => (PinPullUpDown::PollDown, PinOutputType::PushPull),
            PinIoType::Floating => (PinPullUpDown::No, PinOutputType::PushPull),
            PinIoType::OpenDrain => (PinPullUpDown::No, PinOutputType::OpenDrain),
        }
    }

    /// The pull configuration and driver type of this I/O type.
    pub fn split(self) -> (r: (PinPullUpDown, PinOutputType))
        ensures
            r == self.spec_split(),
    {
        let (push_pull, output_type) = match self {
            PinIoType::PullUp => (PinPullUpDown::PullUp, PinOutputType::PushPull),
            PinIoType::PullDown => (PinPullUpDown::PollDown, PinOutputType::PushPull),
            PinIoType::Floating => (PinPullUpDown::No, PinOutputType::PushPull),
            PinIoType::OpenDrain => (PinPullUpDown::No, PinOutputType::OpenDrain),
        };
        (push_pull, output_type)
    }
}

/// Configuration lock state.
#[derive(Debug, Clone, Copy, PartialEq, Eq, Structural)]
pub enum PinLock {
    Unlock,
    Lock,
}

/// Electrical level of a pin.
#[derive(Debug, Clone, Copy, PartialEq, Eq, Structural)]
pub enum PinLevel {
    Low,
    Hight,
}

impl PinLevel {
    pub open spec fn spec_bits(self) -> u32 {
        match self {
            PinLevel::Low => 0,
            PinLevel::Hight => 1,
        }
    }

    pub open spec fn spec_not(self) -> PinLevel {
        if self == PinLevel::Low {
            PinLevel::Hight
        } else {
            PinLevel::Low
        }
    }

    /// `IDR`/`ODR` bit value.
    pub fn bits(&self) -> (r: u32)
        ensures
            r == self.spec_bits(),
    {
        match *self {
            PinLevel::Low => 0,
            PinLevel::Hight => 1,
        }
    }

    /// The level a register bit value (0 or 1) stands for.
    pub fn from_bits(value: u32) -> (r: Self)
        requires
            value <= 1,
        ensures
            r.spec_bits() == value,
    {
        match value {
            0 => Self::Low,
            _ => Self::Hight,
        }
    }
}

impl core::ops::Not for PinLevel {
    type Output = Self;

    fn not(self) -> (r: Self::Output) {
        if self == Self::Low {
            Self::Hight
        } else {
            Self::Low
        }
    }
}

impl vstd::std_specs::ops::NotSpecImpl for PinLevel {
    open spec fn obeys_not_spec() -> bool {
        true
    }

    open spec fn not_req(self) -> bool {
        true
    }

    open spec fn not_spec(self) -> PinLevel {
        self.spec_not()
    }
}

impl From<PinLevel> for bool {
    fn from(value: PinLevel) -> (r: Self) {
        PinLevel::Hight == value
    }
}

impl vstd::std_specs::convert::FromSpecImpl<PinLevel> for bool {
    open spec fn obeys_from_spec() -> bool {
        true
    }

    open spec fn from_spec(v: PinLevel) -> bool {
        v == PinLevel::Hight
    }
}

} // verus!
