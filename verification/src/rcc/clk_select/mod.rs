//! The clock sources: internal and external, high and low speed.
pub mod hse;
pub mod hsi;

use crate::bit::field_write;
use super::CLK_HZ;
use vstd::prelude::*;

verus! {

/// The external low-speed clock.
pub struct CLK_LSE;

/// The internal low-speed clock.
pub struct CLK_LSI;

/// Reset value of `RCC_CR`.
pub const CR_RESET: u32 = 0x0100;

/// Reset value of `RCC_ICSCR`.
pub const ICSCR_RESET: u32 = 0x1000_0000;

/// Address of the factory trim value of the first HSI frequency; the others follow, one word each.
pub const HSI_TRIM_BASE: u32 = 0x1FFF_0F00;

/// Frequency of the internal high-speed clock.
#[derive(Debug, Clone, Copy, PartialEq, Eq, Structural)]
pub enum HsiClk {
    Hz4M,
    Hz8M,
    Hz16M,
    Hz22_12M,
    Hz24M,
}

impl HsiClk {
    /// `ICSCR.HSI_FS` code.
    pub open spec fn spec_bits(self) -> u32 {
        match self {
            HsiClk::Hz4M => 0,
            HsiClk::Hz8M => 1,
            HsiClk::Hz16M => 2,
            HsiClk::Hz22_12M => 3,
            HsiClk::Hz24M => 4,
        }
    }

    /// `ICSCR.HSI_FS` code.
    pub fn bits(&self) -> (r: u32)
        ensures
            r == self.spec_bits(),
    {
        match *self {
            HsiClk::Hz4M => 0,
            HsiClk::Hz8M => 1,
            HsiClk::Hz16M => 2,
            HsiClk::Hz22_12M => 3,
            HsiClk::Hz24M => 4,
        }
    }

    /// Address of the factory trim value for this frequency.
    pub fn trim_addr(&self) -> (r: u32)
        ensures
            r == HSI_TRIM_BASE + 4 * self.spec_bits(),
    {
        HSI_TRIM_BASE + 4 * self.bits()
    }

    /// `RCC_ICSCR` value that selects this frequency with trim value `trim`
    /// (its low 13 bits).
    pub fn icscr_value(&self, trim: u32) -> (r: u32)
        ensures
            r == field_write(
                field_write(ICSCR_RESET, 13, 3, self.spec_bits()),
                0,
                13,
                trim & 0x1fff,
            ),
    {
        let fs = self.bits();
        let with_fs = (ICSCR_RESET & !(7u32 << 13u32)) | (fs << 13u32);
        let t = trim & 0x1fffu32;
        proof {
            assert(((1u32 << 3u32) - 1u32) as u32 == 7u32 && ((1u32 << 13u32) - 1u32) as u32
                == 0x1fffu32) by (bit_vector);
        }
        (with_fs & !(0x1fffu32 << 0u32)) | (t << 0u32)
    }
}

impl CLK_HZ for HsiClk {
    open spec fn spec_hz(&self) -> u32 {
        match *self {
            HsiClk::Hz4M => 4_000_000,
            HsiClk::Hz8M => 8_000_000,
            HsiClk::Hz16M => 16_000_000,
            HsiClk::Hz22_12M => 22_120_000,
            HsiClk::Hz24M => 24_000_000,
        }
    }

    fn hz(&self) -> (r: u32) {
        match *self {
            HsiClk::Hz4M => 4 * 1000 * 1000,
            HsiClk::Hz8M => 8 * 1000 * 1000,
            HsiClk::Hz16M => 16 * 1000 * 1000,
            HsiClk::Hz22_12M => 22120 * 1000,
            HsiClk::Hz24M => 24 * 1000 * 1000,
        }
    }
}

impl Default for HsiClk {
    fn default() -> (r: Self)
        ensures
            r == HsiClk::Hz8M,
    {
        HsiClk::Hz8M
    }
}

/// Divider of the internal high-speed clock.
#[derive(Debug, Clone, Copy, PartialEq, Eq, Structural)]
pub enum HsiDiv {
    HsiDiv1,
    HsiDiv2,
    HsiDiv4,
    HsiDiv8,
    HsiDiv16,
    HsiDiv32,
    HsiDiv64,
    HsiDiv128,
}

impl HsiDiv {
    /// `CR.HSIDIV` code.
    pub open spec fn spec_bits(self) -> u32 {
        match self {
            HsiDiv::HsiDiv1 => 0,
            HsiDiv::HsiDiv2 => 1,
            HsiDiv::HsiDiv4 => 2,
            HsiDiv::HsiDiv8 => 3,
            HsiDiv::HsiDiv16 => 4,
            HsiDiv::HsiDiv32 => 5,
            HsiDiv::HsiDiv64 => 6,
            HsiDiv::HsiDiv128 => 7,
        }
    }

    /// The division factor, `2` to the power of the code.
    pub open spec fn spec_factor(self) -> u32 {
        match self {
            HsiDiv::HsiDiv1 => 1,
            HsiDiv::HsiDiv2 => 2,
            HsiDiv::HsiDiv4 => 4,
            HsiDiv::HsiDiv8 => 8,
            HsiDiv::HsiDiv16 => 16,
            HsiDiv::HsiDiv32 => 32,
            HsiDiv::HsiDiv64 => 64,
            HsiDiv::HsiDiv128 => 128,
        }
    }

    /// `CR.HSIDIV` code.
    pub fn bits(&self) -> (r: u32)
        ensures
            r == self.spec_bits(),
    {
        match *self {
            HsiDiv::HsiDiv1 => 0,
            HsiDiv::HsiDiv2 => 1,
            HsiDiv::HsiDiv4 => 2,
            HsiDiv::HsiDiv8 => 3,
            HsiDiv::HsiDiv16 => 4,
            HsiDiv::HsiDiv32 => 5,
            HsiDiv::HsiDiv64 => 6,
            HsiDiv::HsiDiv128 => 7,
        }
    }

    /// The division factor: `1 << code`.
    pub fn factor(&self) -> (r: u32)
        ensures
            r == self.spec_factor(),
            r == 1u32 << self.spec_bits(),
    {
        let b = self.bits();
        proof {
            assert(1u32 << 0u32 == 1 && 1u32 << 1u32 == 2 && 1u32 << 2u32 == 4 && 1u32 << 3u32
                == 8 && 1u32 << 4u32 == 16 && 1u32 << 5u32 == 32 && 1u32 << 6u32 == 64 && 1u32
                << 7u32 == 128) by (bit_vector);
        }
        1u32 << b
    }

    /// `RCC_CR` value written to select this divider.
    pub fn cr_value(&self) -> (r: u32)
        ensures
            r == field_write(CR_RESET, 11, 3, self.spec_bits()),
    {
        let b = self.bits();
        proof {
            crate::bit::lemma_field_max_values();
        }
        (CR_RESET & !(7u32 << 11u32)) | (b << 11u32)
    }
}

impl Default for HsiDiv {
    fn default() -> (r: Self)
        ensures
            r == HsiDiv::HsiDiv1,
    {
        HsiDiv::HsiDiv1
    }
}

} // verus!
