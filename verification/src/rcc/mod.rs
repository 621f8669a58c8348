//! Clock sources of the reset and clock controller, and the switch of the
//! core clock between them.
#![allow(non_camel_case_types)]

pub mod clk_select;

use crate::bit::{field_value, field_write};
use clk_select::{HsiClk, HsiDiv};
use vstd::prelude::*;

verus! {

/// A clock with a known frequency.
pub trait CLK_HZ {
    /// Frequency in Hz.
    spec fn spec_hz(&self) -> u32;

    /// Frequency in Hz.
    fn hz(&self) -> (r: u32)
        ensures
            r == self.spec_hz(),
    ;
}

/// Reset value of `RCC_CFGR`.
pub const CFGR_RESET: u32 = 0;

/// `CFGR.SW` code of each source: HSISYS, HSE, PLL, LSI, LSE.
pub const SW_HSISYS: u32 = 0b000;

pub const SW_HSE: u32 = 0b001;

pub const SW_PLL: u32 = 0b010;

pub const SW_LSI: u32 = 0b011;

pub const SW_LSE: u32 = 0b100;

/// Frequency of the LSI clock in Hz.
pub const LSI_HZ: u32 = 32768;

/// The internal high-speed clock with its frequency and divider.
#[derive(Debug, Clone, Copy, PartialEq, Eq, Structural)]
pub struct HsiSys {
    pub clk: HsiClk,
    pub div: HsiDiv,
}

impl HsiSys {
    /// The same divider with frequency `clk`.
    pub fn set_clk(&self, clk: HsiClk) -> (r: Self)
        ensures
            r == (HsiSys { clk, div: self.div }),
    {
        HsiSys { clk, div: self.div }
    }

    /// The same frequency with divider `div`.
    pub fn set_div(&self, div: HsiDiv) -> (r: Self)
        ensures
            r == (HsiSys { clk: self.clk, div }),
    {
        HsiSys { clk: self.clk, div }
    }

    /// Core frequency this source gives: the HSI frequency divided by the divider.
    pub open spec fn spec_core_hz(self) -> u32 {
        (self.clk.spec_hz() / self.div.spec_factor()) as u32
    }

    /// Core frequency this source gives.
    pub fn core_hz(&self) -> (r: u32)
        ensures
            r == self.spec_core_hz(),
    {
        let hz = self.clk.hz();
        hz / self.div.factor()
    }
}

impl Default for HsiSys {
    fn default() -> (r: Self)
        ensures
            r == (HsiSys { clk: HsiClk::Hz8M, div: HsiDiv::HsiDiv1 }),
    {
        HsiSys { clk: HsiClk::default(), div: HsiDiv::default() }
    }
}

/// Source of the core clock.
#[derive(Debug, Clone, Copy, PartialEq, Eq, Structural)]
pub enum SysClkSource {
    HSISYS(HsiSys),
    HSE,
    PLL_CLK,
    LSI,
    LSE,
}

impl SysClkSource {
    /// `CFGR.SW` code of the source.
    pub open spec fn spec_sw(self) -> u32 {
        match self {
            SysClkSource::HSISYS(_) => SW_HSISYS,
            SysClkSource::HSE => SW_HSE,
            SysClkSource::PLL_CLK => SW_PLL,
            SysClkSource::LSI => SW_LSI,
            SysClkSource::LSE => SW_LSE,
        }
    }

    /// `CFGR.SW` code of the source.
    pub fn sw(&self) -> (r: u32)
        ensures
            r == self.spec_sw(),
    {
        match *self {
            SysClkSource::HSISYS(_) => SW_HSISYS,
            SysClkSource::HSE => SW_HSE,
            SysClkSource::PLL_CLK => SW_PLL,
            SysClkSource::LSI => SW_LSI,
            SysClkSource::LSE => SW_LSE,
        }
    }
}

/// What a switch of the core clock does.
#[derive(Debug, Clone, Copy, PartialEq, Eq, Structural)]
pub enum CoreSwitch {
    /// The PLL drives the core and the current source is not the PLL: nothing is written.
    Refused,
    /// Configure `hsi` first when it is there, write `cfgr` to `RCC_CFGR`,
    /// and record `f_cpu` as the core frequency when it is there.
    Write { hsi: Option<HsiSys>, cfgr: u32, f_cpu: Option<u32> },
}

/// The switch of the core clock from `core` to `cfg`, given the `RCC_CFGR` value read.
pub open spec fn spec_core_switch(core: SysClkSource, cfgr: u32, cfg: SysClkSource) -> CoreSwitch {
    if field_value(cfgr, 3, 3) == SW_PLL && core != SysClkSource::PLL_CLK {
        CoreSwitch::Refused
    } else {
        CoreSwitch::Write {
            hsi: match cfg {
                SysClkSource::HSISYS(h) => Some(h),
                _ => None,
            },
            cfgr: field_write(CFGR_RESET, 0, 3, cfg.spec_sw()),
            f_cpu: match cfg {
                SysClkSource::HSISYS(h) => Some(h.spec_core_hz()),
                SysClkSource::LSI => Some(LSI_HZ),
                _ => None,
            },
        }
    }
}

/// The clock tree: the current source of the core clock.
#[derive(Debug, Clone, Copy, PartialEq, Eq, Structural)]
pub struct Clk {
    pub core: SysClkSource,
}

impl Default for Clk {
    fn default() -> (r: Self)
        ensures
            r == (Clk { core: SysClkSource::HSISYS(HsiSys { clk: HsiClk::Hz8M, div: HsiDiv::HsiDiv1 }) }),
    {
        Clk { core: SysClkSource::HSISYS(HsiSys::default()) }
    }
}

impl Clk {
    /// The clock tree, handed out once: `taken` records that it was.
    pub fn take(taken: &mut bool) -> (r: Option<Self>)
        ensures
            *final(taken),
            !*old(taken) ==> r == Some(
                Clk { core: SysClkSource::HSISYS(HsiSys { clk: HsiClk::Hz8M, div: HsiDiv::HsiDiv1 }) },
            ),
            *old(taken) ==> r is None,
    {
        if !*taken {
            *taken = true;
            Some(Clk::default())
        } else {
            None
        }
    }

    /// How to switch the core clock to `cfg`, given the `RCC_CFGR` value read;
    /// the answer is always `false`.
    pub fn sys_core_clk_config(&self, cfgr: u32, cfg: SysClkSource) -> (r: (bool, CoreSwitch))
        ensures
            r.0 == false,
            r.1 == spec_core_switch(self.core, cfgr, cfg),
    {
        proof {
            crate::bit::lemma_field_max_values();
        }
        let sws = (cfgr >> 3u32) & 7u32;
        if sws == SW_PLL && self.core != SysClkSource::PLL_CLK {
            return (false, CoreSwitch::Refused);
        }
        let sw = cfg.sw();
        assert(sw <= 7);
        let new_cfgr = (CFGR_RESET & !(7u32 << 0u32)) | (sw << 0u32);
        let hsi = match cfg {
            SysClkSource::HSISYS(h) => Some(h),
            _ => None,
        };
        let f_cpu = match cfg {
            SysClkSource::HSISYS(h) => Some(h.core_hz()),
            SysClkSource::LSI => Some(LSI_HZ),
            _ => None,
        };
        (false, CoreSwitch::Write { hsi, cfgr: new_cfgr, f_cpu })
    }
}

} // verus!
