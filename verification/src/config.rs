//! System start-up configuration.
use vstd::prelude::*;

verus! {

/// System clock source chosen at start-up.
#[allow(non_camel_case_types)]
#[derive(Clone, Copy, PartialEq, Eq, Structural)]
pub enum SysClockSource {
    /// Internal high-speed clock, 8 MHz.
    HSI,
    /// External high-speed clock, 24 MHz.
    HSE,
    /// Phase locked loop fed by the internal clock, 16 MHz.
    PLL_HSI,
}

impl Default for SysClockSource {
    fn default() -> (r: Self)
        ensures
            r == SysClockSource::HSI,
    {
        SysClockSource::HSI
    }
}

/// System initialisation configuration.
#[derive(Clone, Copy, PartialEq, Eq, Structural)]
pub struct Config {
    /// Clock the system runs from.
    pub sys_clk: SysClockSource,
}

impl Default for Config {
    fn default() -> (r: Self)
        ensures
            r.sys_clk == SysClockSource::HSI,
    {
        Config { sys_clk: SysClockSource::HSI }
    }
}

impl Config {
    /// Chooses the system clock.
    pub fn sys_clk(self, sys_clk: SysClockSource) -> (r: Self)
        ensures
            r.sys_clk == sys_clk,
    {
        Self { sys_clk }
    }
}

} // verus!
