//! The internal high-speed clock chosen by value.
use crate::bit::field_write;
use super::CR_RESET;
use vstd::prelude::*;

verus! {

/// Frequency of the internal high-speed clock.
#[derive(Debug, Clone, Copy, PartialEq, Eq, Structural)]
pub enum HsiHz {
    Hz4M,
    Hz8M,
    Hz16M,
    Hz22_12M,
    Hz24M,
}

impl HsiHz {
    /// `ICSCR.HSI_FS` code.
    pub open spec fn spec_bits(self) -> u32 {
        match self {
            HsiHz::Hz4M => 0,
            HsiHz::Hz8M => 1,
            HsiHz::Hz16M => 2,
            HsiHz::Hz22_12M => 3,
            HsiHz::Hz24M => 4,
        }
    }

    /// `ICSCR.HSI_FS` code.
    pub fn bits(&self) -> (r: u32)
        ensures
            r == self.spec_bits(),
    {
        match *self {
            HsiHz::Hz4M => 0,
            HsiHz::Hz8M => 1,
            HsiHz::Hz16M => 2,
            HsiHz::Hz22_12M => 3,
            HsiHz::Hz24M => 4,
        }
    }
}

/// Divider of the internal high-speed clock.
#[derive(Debug, Clone, Copy, PartialEq, Eq, Structural)]
pub enum HsiDiv {
    HsiDiv1,
    HsiDiv2,
    HsiDiv4,
    HsiDiv8,
    HsiDiv16,
    HsiDiv32,
    HsiDiv64,
    HsiDiv128,
}

impl HsiDiv {
    /// `CR.HSIDIV` code.
    pub open spec fn spec_bits(self) -> u32 {
        match self {
            HsiDiv::HsiDiv1 => 0,
            HsiDiv::HsiDiv2 => 1,
            HsiDiv::HsiDiv4 => 2,
            HsiDiv::HsiDiv8 => 3,
            HsiDiv::HsiDiv16 => 4,
            HsiDiv::HsiDiv32 => 5,
            HsiDiv::HsiDiv64 => 6,
            HsiDiv::HsiDiv128 => 7,
        }
    }

    /// `CR.HSIDIV` code.
    pub fn bits(&self) -> (r: u32)
        ensures
            r == self.spec_bits(),
    {
        match *self {
            HsiDiv::HsiDiv1 => 0,
            HsiDiv::HsiDiv2 => 1,
            HsiDiv::HsiDiv4 => 2,
            HsiDiv::HsiDiv8 => 3,
            HsiDiv::HsiDiv16 => 4,
            HsiDiv::HsiDiv32 => 5,
            HsiDiv::HsiDiv64 => 6,
            HsiDiv::HsiDiv128 => 7,
        }
    }
}

/// The internal high-speed clock at a frequency.
#[derive(Debug, Clone, Copy, PartialEq, Eq, Structural)]
pub struct HsiClk {
    pub hz: HsiHz,
}

/// The internal high-speed clock as system source: a frequency and a divider.
#[derive(Debug, Clone, Copy, PartialEq, Eq, Structural)]
pub struct HsiSys {
    pub hz: HsiClk,
    pub div: HsiDiv,
}

impl HsiSys {
    /// `RCC_CR` value written to select the divider when the source is enabled.
    pub fn cr_value(&self) -> (r: u32)
        ensures
            r == field_write(CR_RESET, 11, 3, self.div.spec_bits()),
    {
        let b = self.div.bits();
        proof {
            crate::bit::lemma_field_max_values();
        }
        (CR_RESET & !(7u32 << 11u32)) | (b << 11u32)
    }
}

} // verus!
