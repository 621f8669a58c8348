//! Clock configuration value types.
use vstd::prelude::*;

verus! {

/// Clock configuration errors.
#[derive(Debug, Clone, Copy, PartialEq, Eq, Structural)]
pub enum Error {
    LsiTimeout,
    HseTimeout,
    PllTimeout,
    SysTimeout,
}

/// Frequency of the internal high-speed clock.
#[derive(Debug, Clone, Copy, PartialEq, Eq, Structural)]
pub enum HsiHz {
    /// 000: 4 MHz
    MHz4,
    /// 001: 8 MHz
    MHz8,
    /// 010: 16 MHz
    MHz16,
    /// 011: 22.12 MHz
    MHz22_12,
    /// 100: 24 MHz
    MHz24,
}

/// Decodes the `HSI_FS` field of `RCC_ICSCR`: codes 0 to 4 as documented on
/// [`HsiHz`]; the reserved codes 5 and 6 read as 22.12 and 24 MHz, 7 as 4 MHz.
pub open spec fn spec_hsi_hz_from(value: u8) -> HsiHz {
    if value == 1 {
        HsiHz::MHz8
    } else if value == 2 {
        HsiHz::MHz16
    } else if value == 3 || value == 5 {
        HsiHz::MHz22_12
    } else if value == 4 || value == 6 {
        HsiHz::MHz24
    } else {
        HsiHz::MHz4
    }
}

impl HsiHz {
    /// Frequency in Hz.
    pub open spec fn spec_hz(self) -> u32 {
        match self {
            HsiHz::MHz4 => 4_000_000,
            HsiHz::MHz8 => 8_000_000,
            HsiHz::MHz16 => 16_000_000,
            HsiHz::MHz22_12 => 22_120_000,
            HsiHz::MHz24 => 24_000_000,
        }
    }

    /// Register code written to select this frequency.
    pub open spec fn spec_bits(self) -> u8 {
        match self {
            HsiHz::MHz4 => 0x00,
            HsiHz::MHz8 => 0x01,
            HsiHz::MHz16 => 0x02,
            HsiHz::MHz22_12 => 0x03,
            HsiHz::MHz24 => 0x04,
        }
    }

    /// Frequency in Hz.
    pub fn hz(&self) -> (r: u32)
        ensures
            r == self.spec_hz(),
    {
        match *self {
            HsiHz::MHz4 => 4000000,
            HsiHz::MHz8 => 8000000,
            HsiHz::MHz16 => 16000000,
            HsiHz::MHz22_12 => 22120000,
            HsiHz::MHz24 => 24000000,
        }
    }

    /// Register code written to select this frequency.
    pub fn bits(&self) -> (r: u8)
        ensures
            r == self.spec_bits(),
    {
        match *self {
            HsiHz::MHz4 => 0x00,
            HsiHz::MHz8 => 0x01,
            HsiHz::MHz16 => 0x02,
            HsiHz::MHz22_12 => 0x03,
            HsiHz::MHz24 => 0x04,
        }
    }
}

impl From<u8> for HsiHz {
    fn from(value: u8) -> (r: Self) {
        match value {
            0 => Self::MHz4,
            1 => Self::MHz8,
            2 => Self::MHz16,
            3 => Self::MHz22_12,
            4 => Self::MHz24,
            5 => Self::MHz22_12,
            6 => Self::MHz24,
            _ => Self::MHz4,
        }
    }
}

impl vstd::std_specs::convert::FromSpecImpl<u8> for HsiHz {
    open spec fn obeys_from_spec() -> bool {
        true
    }

    open spec fn from_spec(v: u8) -> HsiHz {
        spec_hsi_hz_from(v)
    }
}

} // verus!

verus! {

/// Division factor of the internal high-speed clock.
#[derive(Debug, Clone, Copy, PartialEq, Eq, Structural)]
pub enum HsiDiv {
    DIV1,
    DIV2,
    DIV4,
    DIV8,
    DIV16,
    DIV32,
    DIV64,
    DIV128,
}

/// A division factor the internal high-speed clock divider supports.
pub open spec fn is_hsi_div(div: u32) -> bool {
    div == 1 || div == 2 || div == 4 || div == 8 || div == 16 || div == 32 || div == 64 || div
        == 128
}

/// The `HSIDIV` register code of a supported division factor.
pub open spec fn hsi_div_code(div: u32) -> u8 {
    if div == 1 {
        0
    } else if div == 2 {
        1
    } else if div == 4 {
        2
    } else if div == 8 {
        3
    } else if div == 16 {
        4
    } else if div == 32 {
        5
    } else if div == 64 {
        6
    } else {
        7
    }
}

impl HsiDiv {
    pub open spec fn spec_bits(self) -> u8 {
        match self {
            HsiDiv::DIV1 => 0,
            HsiDiv::DIV2 => 1,
            HsiDiv::DIV4 => 2,
            HsiDiv::DIV8 => 3,
            HsiDiv::DIV16 => 4,
            HsiDiv::DIV32 => 5,
            HsiDiv::DIV64 => 6,
            HsiDiv::DIV128 => 7,
        }
    }

    /// The divider for a division factor; only the factors the hardware supports are accepted.
    pub fn from_div(value: u32) -> (r: Self)
        requires
            is_hsi_div(value),
        ensures
            r.spec_bits() == hsi_div_code(value),
    {
        match value {
            1 => Self::DIV1,
            2 => Self::DIV2,
            4 => Self::DIV4,
            8 => Self::DIV8,
            16 => Self::DIV16,
            32 => Self::DIV32,
            64 => Self::DIV64,
            _ => Self::DIV128,
        }
    }

    /// `HSIDIV` register code.
    pub fn bits(&self) -> (r: u8)
        ensures
            r == self.spec_bits(),
    {
        match *self {
            HsiDiv::DIV1 => 0,
            HsiDiv::DIV2 => 1,
            HsiDiv::DIV4 => 2,
            HsiDiv::DIV8 => 3,
            HsiDiv::DIV16 => 4,
            HsiDiv::DIV32 => 5,
            HsiDiv::DIV64 => 6,
            HsiDiv::DIV128 => 7,
        }
    }
}

/// APB clock (PCLK) prescaler.
#[derive(Debug, Clone, Copy, PartialEq, Eq, Structural)]
pub enum PclkDiv {
    Div1,
    Div2,
    Div4,
    Div8,
    Div16,
}

/// Division factor of an APB prescaler code (`PPRE`, 3 bits).
pub open spec fn pclk_divisor(code: u32) -> u32 {
    if code <= 3 {
        1
    } else if code == 4 {
        2
    } else if code == 5 {
        4
    } else if code == 6 {
        8
    } else {
        16
    }
}

impl PclkDiv {
    pub open spec fn spec_bits(self) -> u8 {
        match self {
            PclkDiv::Div1 => 1,
            PclkDiv::Div2 => 4,
            PclkDiv::Div4 => 5,
            PclkDiv::Div8 => 6,
            PclkDiv::Div16 => 7,
        }
    }

    pub open spec fn spec_div(self) -> u32 {
        match self {
            PclkDiv::Div1 => 1,
            PclkDiv::Div2 => 2,
            PclkDiv::Div4 => 4,
            PclkDiv::Div8 => 8,
            PclkDiv::Div16 => 16,
        }
    }

    /// Decodes a `PPRE` field value (3 bits).
    pub fn from_bits(value: u8) -> (r: Self)
        requires
            value <= 7,
        ensures
            r.spec_div() == pclk_divisor(value as u32),
            value >= 4 ==> r.spec_bits() == value,
    {
        match value {
            0..=3 => Self::Div1,
            4 => Self::Div2,
            5 => Self::Div4,
            6 => Self::Div8,
            _ => Self::Div16,
        }
    }

    /// Register code of this prescaler.
    pub fn bits(&self) -> (r: u8)
        ensures
            r == self.spec_bits(),
    {
        match *self {
            PclkDiv::Div1 => 1,
            PclkDiv::Div2 => 4,
            PclkDiv::Div4 => 5,
            PclkDiv::Div8 => 6,
            PclkDiv::Div16 => 7,
        }
    }

    /// Division factor.
    pub fn div(&self) -> (r: u32)
        ensures
            r == self.spec_div(),
    {
        match *self {
            Self::Div1 => 1,
            Self::Div2 => 2,
            Self::Div4 => 4,
            Self::Div8 => 8,
            Self::Div16 => 16,
        }
    }
}

/// AHB clock (HCLK) prescaler.
#[derive(Debug, Clone, Copy, PartialEq, Eq, Structural)]
pub enum HclkDiv {
    Div1,
    Div2,
    Div4,
    Div8,
    Div16,
    Div64,
    Div128,
    Div256,
    Div512,
}

/// Division factor of an AHB prescaler code (`HPRE`, 4 bits).
pub open spec fn hclk_divisor(code: u32) -> u32 {
    if code <= 7 {
        1
    } else if code == 8 {
        2
    } else if code == 9 {
        4
    } else if code == 10 {
        8
    } else if code == 11 {
        16
    } else if code == 12 {
        64
    } else if code == 13 {
        128
    } else if code == 14 {
        256
    } else {
        512
    }
}

impl HclkDiv {
    pub open spec fn spec_bits(self) -> u8 {
        match self {
            HclkDiv::Div1 => 1,
            HclkDiv::Div2 => 8,
            HclkDiv::Div4 => 9,
            HclkDiv::Div8 => 10,
            HclkDiv::Div16 => 11,
            HclkDiv::Div64 => 12,
            HclkDiv::Div128 => 13,
            HclkDiv::Div256 => 14,
            HclkDiv::Div512 => 15,
        }
    }

    pub open spec fn spec_div(self) -> u32 {
        match self {
            HclkDiv::Div1 => 1,
            HclkDiv::Div2 => 2,
            HclkDiv::Div4 => 4,
            HclkDiv::Div8 => 8,
            HclkDiv::Div16 => 16,
            HclkDiv::Div64 => 64,
            HclkDiv::Div128 => 128,
            HclkDiv::Div256 => 256,
            HclkDiv::Div512 => 512,
        }
    }

    /// Decodes an `HPRE` field value (4 bits).
    pub fn from_bits(value: u8) -> (r: Self)
        requires
            value <= 15,
        ensures
            r.spec_div() == hclk_divisor(value as u32),
            value >= 8 ==> r.spec_bits() == value,
    {
        match value {
            0..=7 => Self::Div1,
            8 => Self::Div2,
            9 => Self::Div4,
            10 => Self::Div8,
            11 => Self::Div16,
            12 => Self::Div64,
            13 => Self::Div128,
            14 => Self::Div256,
            _ => Self::Div512,
        }
    }

    /// Register code of this prescaler.
    pub fn bits(&self) -> (r: u8)
        ensures
            r == self.spec_bits(),
    {
        match *self {
            HclkDiv::Div1 => 1,
            HclkDiv::Div2 => 8,
            HclkDiv::Div4 => 9,
            HclkDiv::Div8 => 10,
            HclkDiv::Div16 => 11,
            HclkDiv::Div64 => 12,
            HclkDiv::Div128 => 13,
            HclkDiv::Div256 => 14,
            HclkDiv::Div512 => 15,
        }
    }

    /// Division factor.
    pub fn div(&self) -> (r: u32)
        ensures
            r == self.spec_div(),
    {
        match *self {
            Self::Div1 => 1,
            Self::Div2 => 2,
            Self::Div4 => 4,
            Self::Div8 => 8,
            Self::Div16 => 16,
            Self::Div64 => 64,
            Self::Div128 => 128,
            Self::Div256 => 256,
            Self::Div512 => 512,
        }
    }
}

/// Source routed to the MCO output pin.
#[derive(Debug, Clone, Copy, PartialEq, Eq, Structural)]
pub enum McoSelect {
    Disable,
    SysClk,
    Hsi,
    Hse,
    Pll,
    Lsi,
    Lse,
}

impl McoSelect {
    pub open spec fn spec_bits(self) -> u8 {
        match self {
            McoSelect::Disable => 0,
            McoSelect::SysClk => 1,
            McoSelect::Hsi => 3,
            McoSelect::Hse => 4,
            McoSelect::Pll => 5,
            McoSelect::Lsi => 6,
            McoSelect::Lse => 7,
        }
    }

    /// `MCOSEL` register code.
    pub fn bits(&self) -> (r: u8)
        ensures
            r == self.spec_bits(),
    {
        match *self {
            McoSelect::Disable => 0,
            McoSelect::SysClk => 1,
            McoSelect::Hsi => 3,
            McoSelect::Hse => 4,
            McoSelect::Pll => 5,
            McoSelect::Lsi => 6,
            McoSelect::Lse => 7,
        }
    }
}

/// The prescaler codes encode powers of two: an APB code `4 + k` divides by
/// `2^(k+1)` and codes up to 3 do not divide; an AHB code `8 + k` divides by
/// `2^(k+1)` up to 16 and `12 + k` by `2^(k+6)` (there is no division by 32);
/// the internal clock divider code `k` divides by `2^k`. Each prescaler value
/// is written as the code that decodes back to its own division.
pub proof fn law_prescaler_codes(p: PclkDiv, h: HclkDiv, v: u32, c: u32)
    ensures
        pclk_divisor(p.spec_bits() as u32) == p.spec_div(),
        hclk_divisor(h.spec_bits() as u32) == h.spec_div(),
        c <= 3 ==> pclk_divisor(c) == 1,
        4 <= c <= 7 ==> pclk_divisor(c) == vstd::arithmetic::power2::pow2((c - 3) as nat),
        c <= 7 ==> hclk_divisor(c) == 1,
        8 <= c <= 11 ==> hclk_divisor(c) == vstd::arithmetic::power2::pow2((c - 7) as nat),
        12 <= c <= 15 ==> hclk_divisor(c) == vstd::arithmetic::power2::pow2((c - 6) as nat),
        is_hsi_div(v) ==> vstd::arithmetic::power2::pow2(hsi_div_code(v) as nat) == v,
{
    vstd::arithmetic::power2::lemma2_to64();
}

} // verus!
