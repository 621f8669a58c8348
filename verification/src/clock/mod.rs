//! Clock tree configuration.
//!
//! The reset and clock controller (RCC) is described by [`Rcc`], an image of its
//! registers. Operations compute the new register values; each configuration step
//! also names the hardware flag that must be awaited before the next step.
pub mod peripheral;
pub mod types;

use crate::bit::{bit_mask_idx_get, bit_mask_idx_modify, bit_of, field_value, field_write};
use core::marker::PhantomData;
pub use types::{
    hclk_divisor, hsi_div_code, is_hsi_div, pclk_divisor, spec_hsi_hz_from, Error, HclkDiv, HsiDiv,
    HsiHz, McoSelect, PclkDiv,
};
use vstd::prelude::*;

verus! {

/// Tick budget for waiting on the external clock, the PLL and the system clock switch.
pub const TIMEOUT: usize = 1_000_000;

/// Tick budget for waiting on the low-speed internal clock.
pub const LSI_TIMEOUT: usize = 1000;

/// Image of the RCC registers.
#[derive(Debug, Clone, Copy, PartialEq, Eq, Structural)]
pub struct Rcc {
    pub cr: u32,
    pub icscr: u32,
    pub cfgr: u32,
    pub pllcfgr: u32,
    pub ecscr: u32,
    pub csr: u32,
    pub bdcr: u32,
    pub ahbenr: u32,
    pub apbenr1: u32,
    pub apbenr2: u32,
    pub iopenr: u32,
    pub ahbrstr: u32,
    pub apbrstr1: u32,
    pub apbrstr2: u32,
    pub ioprstr: u32,
}

/// `HPRE` field of `RCC_CFGR`.
pub open spec fn spec_hpre(rcc: Rcc) -> u32 {
    field_value(rcc.cfgr, 8, 4)
}

/// `PPRE` field of `RCC_CFGR`.
pub open spec fn spec_ppre(rcc: Rcc) -> u32 {
    field_value(rcc.cfgr, 12, 3)
}

/// HCLK frequency for a given core clock.
pub open spec fn spec_hclk(rcc: Rcc, core_hz: u32) -> u32 {
    (core_hz / hclk_divisor(spec_hpre(rcc))) as u32
}

/// PCLK frequency for a given core clock.
pub open spec fn spec_pclk(rcc: Rcc, core_hz: u32) -> u32 {
    (spec_hclk(rcc, core_hz) / pclk_divisor(spec_ppre(rcc))) as u32
}

/// Clock of the timers: PCLK, doubled when the APB prescaler divides.
pub open spec fn spec_timer_pclk(rcc: Rcc, core_hz: u32) -> int {
    if pclk_divisor(spec_ppre(rcc)) == 1 {
        spec_pclk(rcc, core_hz) as int
    } else {
        2 * spec_pclk(rcc, core_hz)
    }
}

/// HCLK frequency in Hz, for the core clock `core_hz`.
pub fn sys_hclk(rcc: &Rcc, core_hz: u32) -> (r: u32)
    ensures
        r == spec_hclk(*rcc, core_hz),
{
    let code = bit_mask_idx_get::<4>(8, rcc.cfgr);
    proof {
        crate::bit::lemma_field_value_bound(rcc.cfgr, 8, 4);
        crate::bit::lemma_field_max_values();
    }
    let hpre = HclkDiv::from_bits(code as u8);
    core_hz / hpre.div()
}

/// PCLK frequency in Hz, for the core clock `core_hz`.
pub fn sys_pclk(rcc: &Rcc, core_hz: u32) -> (r: u32)
    ensures
        r == spec_pclk(*rcc, core_hz),
{
    let code = bit_mask_idx_get::<3>(12, rcc.cfgr);
    proof {
        crate::bit::lemma_field_value_bound(rcc.cfgr, 12, 3);
        crate::bit::lemma_field_max_values();
    }
    let ppre = PclkDiv::from_bits(code as u8);
    sys_hclk(rcc, core_hz) / ppre.div()
}

/// Timer kernel clock in Hz, for the core clock `core_hz`.
pub fn timer_pclk(rcc: &Rcc, core_hz: u32) -> (r: u32)
    ensures
        r == spec_timer_pclk(*rcc, core_hz),
{
    let code = bit_mask_idx_get::<3>(12, rcc.cfgr);
    proof {
        crate::bit::lemma_field_value_bound(rcc.cfgr, 12, 3);
        crate::bit::lemma_field_max_values();
    }
    let ppre = PclkDiv::from_bits(code as u8);
    let pclk = sys_pclk(rcc, core_hz);
    if ppre == PclkDiv::Div1 {
        pclk
    } else {
        let d = ppre.div();
        let h = sys_hclk(rcc, core_hz);
        assert(d >= 2);
        assert(pclk == h / d);
        assert(2 * (h / d) <= h) by (nonlinear_arith)
            requires
                d >= 2,
        ;
        2 * pclk
    }
}

/// A hardware condition to await after a configuration step.
#[derive(Debug, Clone, Copy, PartialEq, Eq, Structural)]
pub enum WaitFor {
    /// Nothing needs to be awaited.
    Nothing,
    /// The low-speed internal clock ready flag reaches the given state.
    LsiReady(bool),
    /// The external high-speed clock reports ready.
    HseReady,
    /// The PLL reports locked.
    PllReady,
    /// The system clock switch status equals the requested source.
    SysSwitched,
}

impl WaitFor {
    /// The awaited condition holds for these register values.
    pub open spec fn spec_done(self, rcc: Rcc) -> bool {
        match self {
            WaitFor::Nothing => true,
            WaitFor::LsiReady(en) => bit_of(rcc.csr, 1) == en,
            WaitFor::HseReady => bit_of(rcc.cr, 17),
            WaitFor::PllReady => bit_of(rcc.cr, 25),
            WaitFor::SysSwitched => field_value(rcc.cfgr, 3, 3) == field_value(rcc.cfgr, 0, 3),
        }
    }

    pub open spec fn spec_timeout(self) -> usize {
        match self {
            WaitFor::LsiReady(_) => LSI_TIMEOUT,
            _ => TIMEOUT,
        }
    }

    pub open spec fn spec_error(self) -> Error {
        match self {
            WaitFor::LsiReady(_) => Error::LsiTimeout,
            WaitFor::HseReady => Error::HseTimeout,
            WaitFor::PllReady => Error::PllTimeout,
            _ => Error::SysTimeout,
        }
    }

    /// Whether the awaited condition holds for these register values.
    pub fn is_done(&self, rcc: &Rcc) -> (r: bool)
        ensures
            r == self.spec_done(*rcc),
    {
        proof {
            crate::bit::lemma_field_max_values();
            crate::bit::lemma_field_value_bound(rcc.csr, 1, 1);
            crate::bit::lemma_field_value_bound(rcc.cr, 17, 1);
            crate::bit::lemma_field_value_bound(rcc.cr, 25, 1);
        }
        match *self {
            WaitFor::Nothing => true,
            WaitFor::LsiReady(en) => (bit_mask_idx_get::<1>(1, rcc.csr) != 0) == en,
            WaitFor::HseReady => bit_mask_idx_get::<1>(17, rcc.cr) != 0,
            WaitFor::PllReady => bit_mask_idx_get::<1>(25, rcc.cr) != 0,
            WaitFor::SysSwitched => bit_mask_idx_get::<3>(3, rcc.cfgr) == bit_mask_idx_get::<3>(
                0,
                rcc.cfgr,
            ),
        }
    }

    /// How many ticks the condition may take.
    pub fn timeout(&self) -> (r: usize)
        ensures
            r == self.spec_timeout(),
    {
        match *self {
            WaitFor::LsiReady(_) => LSI_TIMEOUT,
            _ => TIMEOUT,
        }
    }

    /// The error reported when the condition does not come in time.
    pub fn error(&self) -> (r: Error)
        ensures
            r == self.spec_error(),
    {
        match *self {
            WaitFor::LsiReady(_) => Error::LsiTimeout,
            WaitFor::HseReady => Error::HseTimeout,
            WaitFor::PllReady => Error::PllTimeout,
            _ => Error::SysTimeout,
        }
    }
}


/// `0` or `1` for a flag.
pub open spec fn flag(en: bool) -> u32 {
    if en {
        1
    } else {
        0
    }
}

/// A clock whose frequency is known.
pub trait ClockFrequency {
    /// The clock's parameters are meaningful.
    spec fn spec_frequency_valid() -> bool;

    /// Frequency in Hz for these register values.
    spec fn spec_hz(rcc: Rcc) -> int;

    /// Frequency in Hz.
    fn hz(rcc: &Rcc) -> (r: u32)
        requires
            Self::spec_frequency_valid(),
            0 <= Self::spec_hz(*rcc) <= u32::MAX,
        ensures
            r == Self::spec_hz(*rcc),
    ;
}

/// An input clock that can be switched on and off.
pub trait Clock {
    /// The clock's parameters are ones the hardware supports.
    spec fn spec_clock_valid() -> bool;

    /// Register values after switching, and what to await afterwards.
    spec fn spec_set(rcc: Rcc, en: bool) -> (Rcc, WaitFor);

    /// Switches the clock on or off; the result is the condition to await.
    fn set(rcc: &mut Rcc, en: bool) -> (w: WaitFor)
        requires
            Self::spec_clock_valid(),
        ensures
            (*final(rcc), w) == Self::spec_set(*old(rcc), en),
    ;

    /// Switches the clock on; the result is the condition to await.
    fn enable(rcc: &mut Rcc) -> (w: WaitFor)
        requires
            Self::spec_clock_valid(),
        ensures
            (*final(rcc), w) == Self::spec_set(*old(rcc), true),
    {
        Self::set(rcc, true)
    }
}

/// Low-speed internal clock, 32 kHz.
pub struct LSI;

/// Low-speed external clock, 32 kHz.
pub struct LSE;

/// Phase locked loop doubling the frequency of its source.
pub struct PLL<CLK: PllSelect> {
    _clk: PhantomData<CLK>,
}

/// High-speed internal clock.
pub struct HSI;

/// High-speed external clock of `HZ` Hz (4 to 32 MHz).
pub struct HSE<const HZ: u32>;

/// High-speed internal clock divided by `DIV` (1, 2, 4, ..., 128).
pub struct HSIDiv<const DIV: u32> {}

/// `HSI_FS` field of `RCC_ICSCR`.
pub open spec fn spec_hsi_fs(rcc: Rcc) -> u32 {
    field_value(rcc.icscr, 13, 3)
}

impl HSI {
    /// Register values after selecting the internal clock frequency.
    pub open spec fn spec_set_hz(rcc: Rcc, hsi_hz: HsiHz) -> Rcc {
        Rcc { icscr: field_write(rcc.icscr, 13, 3, hsi_hz.spec_bits() as u32), ..rcc }
    }

    /// Selects the internal clock frequency.
    pub fn set_hz(rcc: &mut Rcc, hsi_hz: HsiHz)
        ensures
            *final(rcc) == Self::spec_set_hz(*old(rcc), hsi_hz),
    {
        proof {
            crate::bit::lemma_field_max_values();
        }
        rcc.icscr = bit_mask_idx_modify::<3>(13, rcc.icscr, hsi_hz.bits() as u32);
    }
}

impl ClockFrequency for LSI {
    open spec fn spec_frequency_valid() -> bool {
        true
    }

    open spec fn spec_hz(rcc: Rcc) -> int {
        32768
    }

    fn hz(rcc: &Rcc) -> (r: u32) {
        32768
    }
}

impl ClockFrequency for LSE {
    open spec fn spec_frequency_valid() -> bool {
        true
    }

    open spec fn spec_hz(rcc: Rcc) -> int {
        32768
    }

    fn hz(rcc: &Rcc) -> (r: u32) {
        32768
    }
}

impl ClockFrequency for HSI {
    open spec fn spec_frequency_valid() -> bool {
        true
    }

    open spec fn spec_hz(rcc: Rcc) -> int {
        spec_hsi_hz_from(spec_hsi_fs(rcc) as u8).spec_hz() as int
    }

    fn hz(rcc: &Rcc) -> (r: u32) {
        proof {
            crate::bit::lemma_field_max_values();
            crate::bit::lemma_field_value_bound(rcc.icscr, 13, 3);
        }
        let code = bit_mask_idx_get::<3>(13, rcc.icscr);
        let hsi_fs: HsiHz = HsiHz::from(code as u8);
        hsi_fs.hz()
    }
}

impl<const HZ: u32> ClockFrequency for HSE<HZ> {
    open spec fn spec_frequency_valid() -> bool {
        true
    }

    open spec fn spec_hz(rcc: Rcc) -> int {
        HZ as int
    }

    fn hz(rcc: &Rcc) -> (r: u32) {
        HZ
    }
}

impl<CLK> ClockFrequency for PLL<CLK> where CLK: PllSelect + ClockFrequency {
    open spec fn spec_frequency_valid() -> bool {
        CLK::spec_frequency_valid()
    }

    open spec fn spec_hz(rcc: Rcc) -> int {
        2 * CLK::spec_hz(rcc)
    }

    fn hz(rcc: &Rcc) -> (r: u32) {
        CLK::hz(rcc) * 2
    }
}

impl<const DIV: u32> ClockFrequency for HSIDiv<DIV> {
    open spec fn spec_frequency_valid() -> bool {
        DIV != 0
    }

    open spec fn spec_hz(rcc: Rcc) -> int {
        HSI::spec_hz(rcc) / (DIV as int)
    }

    fn hz(rcc: &Rcc) -> (r: u32) {
        proof {
            crate::bit::lemma_field_max_values();
            crate::bit::lemma_field_value_bound(rcc.icscr, 13, 3);
        }
        HSI::hz(rcc) / DIV
    }
}

impl Clock for LSI {
    open spec fn spec_clock_valid() -> bool {
        true
    }

    open spec fn spec_set(rcc: Rcc, en: bool) -> (Rcc, WaitFor) {
        (Rcc { csr: field_write(rcc.csr, 0, 1, flag(en)), ..rcc }, WaitFor::LsiReady(en))
    }

    fn set(rcc: &mut Rcc, en: bool) -> (w: WaitFor) {
        proof {
            crate::bit::lemma_field_max_values();
        }
        rcc.csr = bit_mask_idx_modify::<1>(
            0,
            rcc.csr,
            if en {
                1
            } else {
                0
            },
        );
        WaitFor::LsiReady(en)
    }
}

impl Clock for LSE {
    open spec fn spec_clock_valid() -> bool {
        true
    }

    open spec fn spec_set(rcc: Rcc, en: bool) -> (Rcc, WaitFor) {
        (
            Rcc {
                bdcr: field_write(field_write(rcc.bdcr, 25, 1, 1), 24, 1, 0),
                ecscr: field_write(rcc.ecscr, 16, 2, flag(en)),
                ..rcc
            },
            WaitFor::Nothing,
        )
    }

    fn set(rcc: &mut Rcc, en: bool) -> (w: WaitFor) {
        proof {
            crate::bit::lemma_field_max_values();
        }
        rcc.bdcr = bit_mask_idx_modify::<1>(24, bit_mask_idx_modify::<1>(25, rcc.bdcr, 1), 0);
        // LSE drive strength: 0 off, 1 weak (default), 2 medium, 3 strong
        let lse_driver: u32 = if en {
            0b01
        } else {
            0
        };
        rcc.ecscr = bit_mask_idx_modify::<2>(16, rcc.ecscr, lse_driver);
        WaitFor::Nothing
    }
}

impl Clock for HSI {
    open spec fn spec_clock_valid() -> bool {
        true
    }

    open spec fn spec_set(rcc: Rcc, en: bool) -> (Rcc, WaitFor) {
        (Rcc { cr: field_write(rcc.cr, 8, 1, flag(en)), ..rcc }, WaitFor::Nothing)
    }

    fn set(rcc: &mut Rcc, en: bool) -> (w: WaitFor) {
        proof {
            crate::bit::lemma_field_max_values();
        }
        rcc.cr = bit_mask_idx_modify::<1>(
            8,
            rcc.cr,
            if en {
                1
            } else {
                0
            },
        );
        WaitFor::Nothing
    }
}

/// `HSE_FREQ` code for an external clock of `hz` Hz; 0 switches the oscillator range off.
pub open spec fn hse_freq_code(hz: u32, en: bool) -> u32 {
    if !en {
        0
    } else if hz < 8_000_000 {
        1
    } else if hz < 16_000_000 {
        2
    } else {
        3
    }
}

impl<const HZ: u32> Clock for HSE<HZ> {
    open spec fn spec_clock_valid() -> bool {
        4_000_000 <= HZ <= 32_000_000
    }

    open spec fn spec_set(rcc: Rcc, en: bool) -> (Rcc, WaitFor) {
        (
            Rcc {
                ecscr: field_write(rcc.ecscr, 2, 2, hse_freq_code(HZ, en)),
                cr: field_write(rcc.cr, 16, 1, flag(en)),
                ..rcc
            },
            WaitFor::HseReady,
        )
    }

    fn set(rcc: &mut Rcc, en: bool) -> (w: WaitFor) {
        proof {
            crate::bit::lemma_field_max_values();
        }
        let freq: u32 = if !en {
            0
        } else if HZ < 8_000_000 {
            1
        } else if HZ < 16_000_000 {
            2
        } else {
            3
        };
        rcc.ecscr = bit_mask_idx_modify::<2>(2, rcc.ecscr, freq);
        rcc.cr = bit_mask_idx_modify::<1>(
            16,
            rcc.cr,
            if en {
                1
            } else {
                0
            },
        );
        WaitFor::HseReady
    }
}

impl<CLK> Clock for PLL<CLK> where CLK: PllSelect {
    open spec fn spec_clock_valid() -> bool {
        CLK::spec_clock_valid()
    }

    open spec fn spec_set(rcc: Rcc, en: bool) -> (Rcc, WaitFor) {
        CLK::spec_set(rcc, en)
    }

    fn set(rcc: &mut Rcc, en: bool) -> (w: WaitFor) {
        CLK::set(rcc, en)
    }
}

impl<const DIV: u32> Clock for HSIDiv<DIV> {
    open spec fn spec_clock_valid() -> bool {
        is_hsi_div(DIV)
    }

    open spec fn spec_set(rcc: Rcc, en: bool) -> (Rcc, WaitFor) {
        (
            Rcc {
                cr: field_write(field_write(rcc.cr, 11, 3, hsi_div_code(DIV) as u32), 8, 1, flag(en)),
                ..rcc
            },
            WaitFor::Nothing,
        )
    }

    fn set(rcc: &mut Rcc, en: bool) -> (w: WaitFor) {
        proof {
            crate::bit::lemma_field_max_values();
        }
        let hsi_div = HsiDiv::from_div(DIV);
        rcc.cr = bit_mask_idx_modify::<3>(11, rcc.cr, hsi_div.bits() as u32);
        HSI::set(rcc, en)
    }
}

/// Source of the PLL.
#[derive(Debug, Clone, Copy, PartialEq, Eq, Structural)]
pub enum PllClock {
    Hsi,
    Hse,
}

impl PllClock {
    /// Register values after selecting this PLL source and switching the PLL on.
    pub open spec fn spec_config(self, rcc: Rcc) -> Rcc {
        Rcc {
            pllcfgr: field_write(rcc.pllcfgr, 0, 1, flag(self == PllClock::Hse)),
            cr: field_write(rcc.cr, 24, 1, 1),
            ..rcc
        }
    }

    /// Selects this PLL source and switches the PLL on; the PLL lock must then be awaited.
    pub fn config(&self, rcc: &mut Rcc) -> (w: WaitFor)
        ensures
            *final(rcc) == self.spec_config(*old(rcc)),
            w == WaitFor::PllReady,
    {
        proof {
            crate::bit::lemma_field_max_values();
        }
        rcc.pllcfgr = bit_mask_idx_modify::<1>(
            0,
            rcc.pllcfgr,
            if *self == PllClock::Hse {
                1
            } else {
                0
            },
        );
        rcc.cr = bit_mask_idx_modify::<1>(24, rcc.cr, 1);
        WaitFor::PllReady
    }
}

/// A clock that can feed the PLL.
///
/// The PLL must be configured before it is enabled: first the source is
/// switched on, then the source is selected and the PLL started.
pub trait PllSelect: Clock {
    spec fn spec_source() -> PllClock;

    /// The PLL source code this clock selects.
    fn source() -> (r: PllClock)
        ensures
            r == Self::spec_source(),
    ;

    /// Performs configuration step `step` (0: switch the source on, 1: start the PLL)
    /// and returns the condition to await, or `None` once all steps are done.
    fn config(step: usize, rcc: &mut Rcc) -> (w: Option<WaitFor>)
        requires
            Self::spec_clock_valid(),
        ensures
            step == 0 ==> w == Some(Self::spec_set(*old(rcc), true).1) && *final(rcc)
                == Self::spec_set(*old(rcc), true).0,
            step == 1 ==> w == Some(WaitFor::PllReady) && *final(rcc)
                == Self::spec_source().spec_config(*old(rcc)),
            step >= 2 ==> w.is_none() && *final(rcc) == *old(rcc),
    {
        if step == 0 {
            Some(Self::enable(rcc))
        } else if step == 1 {
            Some(Self::source().config(rcc))
        } else {
            None
        }
    }
}

impl PllSelect for HSI {
    open spec fn spec_source() -> PllClock {
        PllClock::Hsi
    }

    fn source() -> (r: PllClock) {
        PllClock::Hsi
    }
}

impl<const HZ: u32> PllSelect for HSE<HZ> {
    open spec fn spec_source() -> PllClock {
        PllClock::Hse
    }

    fn source() -> (r: PllClock) {
        PllClock::Hse
    }
}

/// System clock switch selection (`SW` of `RCC_CFGR`).
#[derive(Debug, Clone, Copy, PartialEq, Eq, Structural)]
pub enum SysClockSw {
    HSISys,
    HSE,
    PLL,
    LSI,
    LSE,
}

impl SysClockSw {
    pub open spec fn spec_bits(self) -> u32 {
        match self {
            SysClockSw::HSISys => 0,
            SysClockSw::HSE => 1,
            SysClockSw::PLL => 2,
            SysClockSw::LSI => 3,
            SysClockSw::LSE => 4,
        }
    }

    /// Register values after requesting the switch.
    pub open spec fn spec_config(self, rcc: Rcc) -> Rcc {
        Rcc { cfgr: field_write(rcc.cfgr, 0, 3, self.spec_bits()), ..rcc }
    }

    /// `SW` register code.
    pub fn bits(&self) -> (r: u32)
        ensures
            r == self.spec_bits(),
    {
        match *self {
            SysClockSw::HSISys => 0,
            SysClockSw::HSE => 1,
            SysClockSw::PLL => 2,
            SysClockSw::LSI => 3,
            SysClockSw::LSE => 4,
        }
    }

    /// Requests the switch; the switch status must then be awaited.
    pub fn config(&self, rcc: &mut Rcc) -> (w: WaitFor)
        ensures
            *final(rcc) == self.spec_config(*old(rcc)),
            w == WaitFor::SysSwitched,
    {
        proof {
            crate::bit::lemma_field_max_values();
        }
        rcc.cfgr = bit_mask_idx_modify::<3>(0, rcc.cfgr, self.bits());
        WaitFor::SysSwitched
    }
}

/// The configuration step `step` of a clock that is switched on and then made the system clock.
pub open spec fn spec_direct_sys_config(
    step: nat,
    rcc: Rcc,
    set: (Rcc, WaitFor),
    sw: SysClockSw,
) -> Option<(Rcc, WaitFor)> {
    if step == 0 {
        Some(set)
    } else if step == 1 {
        Some((sw.spec_config(rcc), WaitFor::SysSwitched))
    } else {
        None
    }
}

/// A clock that can drive the system clock.
pub trait SysClkSelect: Clock + ClockFrequency {
    /// Effect of configuration step `step`: new register values and the condition to await.
    spec fn spec_sys_config(step: nat, rcc: Rcc) -> Option<(Rcc, WaitFor)>;

    /// Performs configuration step `step` and returns the condition to await,
    /// or `None` once all steps are done. The core clock is then `Self::hz`.
    fn config(step: usize, rcc: &mut Rcc) -> (w: Option<WaitFor>)
        requires
            Self::spec_clock_valid(),
        ensures
            match Self::spec_sys_config(step as nat, *old(rcc)) {
                Some((r2, w2)) => *final(rcc) == r2 && w == Some(w2),
                None => *final(rcc) == *old(rcc) && w.is_none(),
            },
    ;
}

impl<const DIV: u32> SysClkSelect for HSIDiv<DIV> {
    open spec fn spec_sys_config(step: nat, rcc: Rcc) -> Option<(Rcc, WaitFor)> {
        spec_direct_sys_config(step, rcc, Self::spec_set(rcc, true), SysClockSw::HSISys)
    }

    fn config(step: usize, rcc: &mut Rcc) -> (w: Option<WaitFor>) {
        if step == 0 {
            Some(Self::enable(rcc))
        } else if step == 1 {
            Some(SysClockSw::HSISys.config(rcc))
        } else {
            None
        }
    }
}

impl<const HZ: u32> SysClkSelect for HSE<HZ> {
    open spec fn spec_sys_config(step: nat, rcc: Rcc) -> Option<(Rcc, WaitFor)> {
        spec_direct_sys_config(step, rcc, Self::spec_set(rcc, true), SysClockSw::HSE)
    }

    fn config(step: usize, rcc: &mut Rcc) -> (w: Option<WaitFor>) {
        if step == 0 {
            Some(Self::enable(rcc))
        } else if step == 1 {
            Some(SysClockSw::HSE.config(rcc))
        } else {
            None
        }
    }
}

impl SysClkSelect for LSI {
    open spec fn spec_sys_config(step: nat, rcc: Rcc) -> Option<(Rcc, WaitFor)> {
        spec_direct_sys_config(step, rcc, Self::spec_set(rcc, true), SysClockSw::LSI)
    }

    fn config(step: usize, rcc: &mut Rcc) -> (w: Option<WaitFor>) {
        if step == 0 {
            Some(Self::enable(rcc))
        } else if step == 1 {
            Some(SysClockSw::LSI.config(rcc))
        } else {
            None
        }
    }
}

impl SysClkSelect for LSE {
    open spec fn spec_sys_config(step: nat, rcc: Rcc) -> Option<(Rcc, WaitFor)> {
        spec_direct_sys_config(step, rcc, Self::spec_set(rcc, true), SysClockSw::LSE)
    }

    fn config(step: usize, rcc: &mut Rcc) -> (w: Option<WaitFor>) {
        if step == 0 {
            Some(Self::enable(rcc))
        } else if step == 1 {
            Some(SysClockSw::LSE.config(rcc))
        } else {
            None
        }
    }
}

impl<CLK> SysClkSelect for PLL<CLK> where CLK: PllSelect + ClockFrequency {
    open spec fn spec_sys_config(step: nat, rcc: Rcc) -> Option<(Rcc, WaitFor)> {
        if step == 0 {
            Some(CLK::spec_set(rcc, true))
        } else if step == 1 {
            Some((CLK::spec_source().spec_config(rcc), WaitFor::PllReady))
        } else if step == 2 {
            Some((SysClockSw::PLL.spec_config(rcc), WaitFor::SysSwitched))
        } else {
            None
        }
    }

    fn config(step: usize, rcc: &mut Rcc) -> (w: Option<WaitFor>) {
        if step < 2 {
            CLK::config(step, rcc)
        } else if step == 2 {
            Some(SysClockSw::PLL.config(rcc))
        } else {
            None
        }
    }
}

/// MCO output prescaler.
#[derive(Debug, Clone, Copy, PartialEq, Eq, Structural)]
pub enum McoDIV {
    DIV1,
    DIV2,
    DIV4,
    DIV8,
    DIV16,
    DIV32,
    DIV64,
    DIV128,
}

impl McoDIV {
    pub open spec fn spec_bits(self) -> u8 {
        match self {
            McoDIV::DIV1 => 0,
            McoDIV::DIV2 => 1,
            McoDIV::DIV4 => 2,
            McoDIV::DIV8 => 3,
            McoDIV::DIV16 => 4,
            McoDIV::DIV32 => 5,
            McoDIV::DIV64 => 6,
            McoDIV::DIV128 => 7,
        }
    }

    /// The prescaler for a division factor (1, 2, 4, ..., 128).
    pub fn from_div(value: u32) -> (r: Self)
        requires
            is_hsi_div(value),
        ensures
            r.spec_bits() == hsi_div_code(value),
    {
        match value {
            1 => Self::DIV1,
            2 => Self::DIV2,
            4 => Self::DIV4,
            8 => Self::DIV8,
            16 => Self::DIV16,
            32 => Self::DIV32,
            64 => Self::DIV64,
            _ => Self::DIV128,
        }
    }

    /// `MCOPRE` register code.
    pub fn bits(&self) -> (r: u8)
        ensures
            r == self.spec_bits(),
    {
        match *self {
            McoDIV::DIV1 => 0,
            McoDIV::DIV2 => 1,
            McoDIV::DIV4 => 2,
            McoDIV::DIV8 => 3,
            McoDIV::DIV16 => 4,
            McoDIV::DIV32 => 5,
            McoDIV::DIV64 => 6,
            McoDIV::DIV128 => 7,
        }
    }
}

/// The system clock, driven by `CLK`.
pub struct SysClock<CLK: SysClkSelect> {
    _clk: PhantomData<CLK>,
}

impl<CLK: SysClkSelect> SysClock<CLK> {
    /// Performs configuration step `step` of making `CLK` the system clock; see
    /// [`SysClkSelect::config`].
    pub fn config(step: usize, rcc: &mut Rcc) -> (w: Option<WaitFor>)
        requires
            CLK::spec_clock_valid(),
        ensures
            match CLK::spec_sys_config(step as nat, *old(rcc)) {
                Some((r2, w2)) => *final(rcc) == r2 && w == Some(w2),
                None => *final(rcc) == *old(rcc) && w.is_none(),
            },
    {
        CLK::config(step, rcc)
    }

    /// The handle of a configured system clock.
    pub fn new() -> (r: Self) {
        SysClock { _clk: PhantomData }
    }

    /// System clock frequency in Hz.
    pub fn hz(&self, rcc: &Rcc) -> (r: u32)
        requires
            CLK::spec_frequency_valid(),
            0 <= CLK::spec_hz(*rcc) <= u32::MAX,
        ensures
            r == CLK::spec_hz(*rcc),
    {
        CLK::hz(rcc)
    }
}

impl HclkDiv {
    /// Register values after selecting this AHB prescaler.
    pub open spec fn spec_config(self, rcc: Rcc) -> Rcc {
        Rcc { cfgr: field_write(rcc.cfgr, 8, 4, self.spec_bits() as u32), ..rcc }
    }

    /// Selects this AHB prescaler.
    pub fn config(&self, rcc: &mut Rcc)
        ensures
            *final(rcc) == self.spec_config(*old(rcc)),
    {
        proof {
            crate::bit::lemma_field_max_values();
        }
        rcc.cfgr = bit_mask_idx_modify::<4>(8, rcc.cfgr, self.bits() as u32);
    }
}

impl PclkDiv {
    /// Register values after selecting this APB prescaler.
    pub open spec fn spec_config(self, rcc: Rcc) -> Rcc {
        Rcc { cfgr: field_write(rcc.cfgr, 12, 3, self.spec_bits() as u32), ..rcc }
    }

    /// Selects this APB prescaler.
    pub fn config(&self, rcc: &mut Rcc)
        ensures
            *final(rcc) == self.spec_config(*old(rcc)),
    {
        proof {
            crate::bit::lemma_field_max_values();
        }
        rcc.cfgr = bit_mask_idx_modify::<3>(12, rcc.cfgr, self.bits() as u32);
    }
}

/// The MCO clock output.
pub struct Mco;

impl Mco {
    /// Register values after routing `source` divided by `div` to the MCO pin.
    pub open spec fn spec_select(rcc: Rcc, source: McoSelect, div: McoDIV) -> Rcc {
        Rcc {
            cfgr: field_write(
                field_write(rcc.cfgr, 28, 3, div.spec_bits() as u32),
                24,
                3,
                source.spec_bits() as u32,
            ),
            ..rcc
        }
    }

    /// Routes `source` divided by `div` to the MCO pin.
    pub fn select(rcc: &mut Rcc, source: McoSelect, div: McoDIV)
        ensures
            *final(rcc) == Self::spec_select(*old(rcc), source, div),
    {
        proof {
            crate::bit::lemma_field_max_values();
        }
        rcc.cfgr = bit_mask_idx_modify::<3>(
            24,
            bit_mask_idx_modify::<3>(28, rcc.cfgr, div.bits() as u32),
            source.bits() as u32,
        );
    }
}

/// Register values after making a clock the RTC clock (`RTCSEL` code `sel`).
pub open spec fn spec_rtc_select(rcc: Rcc, sel: u32) -> Rcc {
    Rcc {
        bdcr: field_write(field_write(field_write(rcc.bdcr, 8, 2, sel), 15, 1, 1), 24, 1, 1),
        ..rcc
    }
}

/// A clock that can drive the RTC.
pub trait RtcSelect: Clock + ClockFrequency {
    spec fn spec_rtc_sel() -> u32;

    /// `RTCSEL` register code of this clock.
    fn rtc_sel() -> (r: u32)
        ensures
            r == Self::spec_rtc_sel(),
            r <= 3,
    ;

    /// Performs configuration step `step` (0: switch the clock on, 1: route it to the RTC)
    /// and returns the condition to await, or `None` once all steps are done.
    fn config(step: usize, rcc: &mut Rcc) -> (w: Option<WaitFor>)
        requires
            Self::spec_clock_valid(),
        ensures
            step == 0 ==> w == Some(Self::spec_set(*old(rcc), true).1) && *final(rcc)
                == Self::spec_set(*old(rcc), true).0,
            step == 1 ==> w == Some(WaitFor::Nothing) && *final(rcc) == spec_rtc_select(
                *old(rcc),
                Self::spec_rtc_sel(),
            ),
            step >= 2 ==> w.is_none() && *final(rcc) == *old(rcc),
    {
        if step == 0 {
            Some(Self::enable(rcc))
        } else if step == 1 {
            proof {
                crate::bit::lemma_field_max_values();
            }
            let sel = Self::rtc_sel();
            rcc.bdcr = bit_mask_idx_modify::<1>(
                24,
                bit_mask_idx_modify::<1>(15, bit_mask_idx_modify::<2>(8, rcc.bdcr, sel), 1),
                1,
            );
            Some(WaitFor::Nothing)
        } else {
            None
        }
    }
}

impl RtcSelect for LSI {
    open spec fn spec_rtc_sel() -> u32 {
        0b10
    }

    fn rtc_sel() -> (r: u32) {
        0b10
    }
}

impl RtcSelect for LSE {
    open spec fn spec_rtc_sel() -> u32 {
        0b10
    }

    fn rtc_sel() -> (r: u32) {
        0b10
    }
}

impl<const HZ: u32> RtcSelect for HSE<HZ> {
    open spec fn spec_rtc_sel() -> u32 {
        0b11
    }

    fn rtc_sel() -> (r: u32) {
        0b11
    }
}

/// The RTC clock, driven by `CLK`.
pub struct RtcClock<CLK: RtcSelect> {
    _clk: PhantomData<CLK>,
}

impl<CLK: RtcSelect> RtcClock<CLK> {
    /// Performs configuration step `step` of routing `CLK` to the RTC; see [`RtcSelect::config`].
    pub fn config(step: usize, rcc: &mut Rcc) -> (w: Option<WaitFor>)
        requires
            CLK::spec_clock_valid(),
        ensures
            step == 0 ==> w == Some(CLK::spec_set(*old(rcc), true).1) && *final(rcc)
                == CLK::spec_set(*old(rcc), true).0,
            step == 1 ==> w == Some(WaitFor::Nothing) && *final(rcc) == spec_rtc_select(
                *old(rcc),
                CLK::spec_rtc_sel(),
            ),
            step >= 2 ==> w.is_none() && *final(rcc) == *old(rcc),
    {
        CLK::config(step, rcc)
    }
}

impl ClockFrequency for RtcClock<LSE> {
    open spec fn spec_frequency_valid() -> bool {
        true
    }

    open spec fn spec_hz(rcc: Rcc) -> int {
        32768
    }

    fn hz(rcc: &Rcc) -> (r: u32) {
        LSE::hz(rcc)
    }
}

impl ClockFrequency for RtcClock<LSI> {
    open spec fn spec_frequency_valid() -> bool {
        true
    }

    open spec fn spec_hz(rcc: Rcc) -> int {
        32768
    }

    fn hz(rcc: &Rcc) -> (r: u32) {
        LSI::hz(rcc)
    }
}

impl<const HZ: u32> ClockFrequency for RtcClock<HSE<HZ>> {
    open spec fn spec_frequency_valid() -> bool {
        true
    }

    open spec fn spec_hz(rcc: Rcc) -> int {
        HZ as int / 128
    }

    fn hz(rcc: &Rcc) -> (r: u32) {
        HSE::<HZ>::hz(rcc) / 128
    }
}

/// Switches the low-speed internal clock on; the ready flag must then be awaited.
pub fn lsi_enable(rcc: &mut Rcc) -> (w: WaitFor)
    ensures
        (*final(rcc), w) == LSI::spec_set(*old(rcc), true),
{
    LSI::enable(rcc)
}

/// The bus clocks never run faster than the clock above them: PCLK <= HCLK <= core,
/// and the timer clock lies between PCLK and HCLK.
pub proof fn law_clock_ordering(rcc: Rcc, core_hz: u32)
    ensures
        spec_hclk(rcc, core_hz) <= core_hz,
        spec_pclk(rcc, core_hz) <= spec_hclk(rcc, core_hz),
        spec_pclk(rcc, core_hz) <= spec_timer_pclk(rcc, core_hz) <= spec_hclk(rcc, core_hz),
{
    let hd = hclk_divisor(spec_hpre(rcc)) as int;
    let pd = pclk_divisor(spec_ppre(rcc)) as int;
    let h = spec_hclk(rcc, core_hz) as int;
    assert(hd >= 1);
    assert(pd >= 1);
    assert((core_hz as int) / hd <= core_hz) by (nonlinear_arith)
        requires
            hd >= 1,
    ;
    assert(h / pd <= h) by (nonlinear_arith)
        requires
            pd >= 1,
            h >= 0,
    ;
    if pd != 1 {
        assert(2 * (h / pd) <= h) by (nonlinear_arith)
            requires
                pd >= 2,
                h >= 0,
        ;
    }
}

/// Selecting an internal clock frequency reads back as that frequency.
pub proof fn law_hsi_set_hz_read_back(rcc: Rcc, hsi_hz: HsiHz)
    ensures
        HSI::spec_hz(HSI::spec_set_hz(rcc, hsi_hz)) == hsi_hz.spec_hz(),
{
    crate::bit::lemma_field_max_values();
    crate::bit::law_get_after_modify(rcc.icscr, 13, 3, hsi_hz.spec_bits() as u32);
}

/// The PLL is fed by the clock it was asked for: the step that starts the PLL
/// of `PLL<HSE<HZ>>` sets the PLL source bit (`PLLSRC`, bit 0 of `PLLCFGR`) to
/// the external clock, the one of `PLL<HSI>` clears it to the internal clock;
/// both switch the PLL on (`PLLON`, bit 24 of `CR`), leave the other bits of
/// both registers as they were, and then wait for the PLL to lock.
pub proof fn law_pll_source_is_its_input<const HZ: u32>(rcc: Rcc, b: u32)
    requires
        b < 32,
    ensures
        ({
            let (r, w) = PLL::<HSE<HZ>>::spec_sys_config(1, rcc)->Some_0;
            &&& PLL::<HSE<HZ>>::spec_sys_config(1, rcc) is Some
            &&& w == WaitFor::PllReady
            &&& field_value(r.pllcfgr, b, 1) == if b == 0 { 1 } else { field_value(rcc.pllcfgr, b, 1) }
            &&& field_value(r.cr, b, 1) == if b == 24 { 1 } else { field_value(rcc.cr, b, 1) }
        }),
        ({
            let (r, w) = PLL::<HSI>::spec_sys_config(1, rcc)->Some_0;
            &&& PLL::<HSI>::spec_sys_config(1, rcc) is Some
            &&& w == WaitFor::PllReady
            &&& field_value(r.pllcfgr, b, 1) == if b == 0 { 0 } else { field_value(rcc.pllcfgr, b, 1) }
            &&& field_value(r.cr, b, 1) == if b == 24 { 1 } else { field_value(rcc.cr, b, 1) }
        }),
{
    crate::bit::lemma_field_max_values();
    if b == 0 {
        crate::bit::law_get_after_modify(rcc.pllcfgr, 0, 1, 1);
        crate::bit::law_get_after_modify(rcc.pllcfgr, 0, 1, 0);
    } else {
        crate::bit::law_modify_keeps_disjoint_field(rcc.pllcfgr, 0, 1, 1, b, 1);
        crate::bit::law_modify_keeps_disjoint_field(rcc.pllcfgr, 0, 1, 0, b, 1);
    }
    if b == 24 {
        crate::bit::law_get_after_modify(rcc.cr, 24, 1, 1);
    } else {
        crate::bit::law_modify_keeps_disjoint_field(rcc.cr, 24, 1, 1, b, 1);
    }
}

} // verus!
