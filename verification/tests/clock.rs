use py32f030_hal::clock::peripheral::PeripheralClockIndex;
use py32f030_hal::clock::types::{HclkDiv, HsiDiv, HsiHz, McoSelect, PclkDiv};
use py32f030_hal::clock::{
    lsi_enable, sys_hclk, sys_pclk, timer_pclk, Clock, ClockFrequency, Mco, McoDIV, PllClock,
    PllSelect, Rcc, RtcClock, SysClkSelect, SysClock, SysClockSw, WaitFor, HSE, HSI, HSIDiv,
    LSE, LSI, PLL,
};

fn zero() -> Rcc {
    Rcc {
        cr: 0,
        icscr: 0,
        cfgr: 0,
        pllcfgr: 0,
        ecscr: 0,
        csr: 0,
        bdcr: 0,
        ahbenr: 0,
        apbenr1: 0,
        apbenr2: 0,
        iopenr: 0,
        ahbrstr: 0,
        apbrstr1: 0,
        apbrstr2: 0,
        ioprstr: 0,
    }
}

#[test]
fn hclk_and_pclk_follow_the_prescalers() {
    let mut rcc = zero();
    // HPRE = 9 (divide by 4), PPRE = 4 (divide by 2)
    rcc.cfgr = (9 << 8) | (4 << 12);
    assert_eq!(sys_hclk(&rcc, 24_000_000), 6_000_000);
    assert_eq!(sys_pclk(&rcc, 24_000_000), 3_000_000);
    assert_eq!(timer_pclk(&rcc, 24_000_000), 6_000_000);
}

#[test]
fn undivided_buses_run_at_core_speed() {
    let rcc = zero();
    assert_eq!(sys_hclk(&rcc, 8_000_000), 8_000_000);
    assert_eq!(sys_pclk(&rcc, 8_000_000), 8_000_000);
    assert_eq!(timer_pclk(&rcc, 8_000_000), 8_000_000);
}

#[test]
fn clock_ordering_on_values() {
    let mut rcc = zero();
    rcc.cfgr = (15 << 8) | (7 << 12);
    let core = 24_000_000;
    let h = sys_hclk(&rcc, core);
    let p = sys_pclk(&rcc, core);
    let t = timer_pclk(&rcc, core);
    assert_eq!(h, 24_000_000 / 512);
    assert_eq!(p, 24_000_000 / 512 / 16);
    assert!(p <= t && t <= h && h <= core);
}

#[test]
fn hsi_frequency_read_back() {
    let mut rcc = zero();
    HSI::set_hz(&mut rcc, HsiHz::MHz8);
    assert_eq!((rcc.icscr >> 13) & 7, 1);
    assert_eq!(HSI::hz(&rcc), 8_000_000);
    HSI::set_hz(&mut rcc, HsiHz::MHz4);
    assert_eq!(HSI::hz(&rcc), 4_000_000);
}

#[test]
fn hsi_every_frequency_reads_back() {
    let mut rcc = zero();
    for (h, code, hz) in [
        (HsiHz::MHz4, 0, 4_000_000),
        (HsiHz::MHz8, 1, 8_000_000),
        (HsiHz::MHz16, 2, 16_000_000),
        (HsiHz::MHz22_12, 3, 22_120_000),
        (HsiHz::MHz24, 4, 24_000_000),
    ] {
        HSI::set_hz(&mut rcc, h);
        assert_eq!(h.bits(), code);
        assert_eq!((rcc.icscr >> 13) & 7, code as u32);
        assert_eq!(HSI::hz(&rcc), hz);
    }
    assert_eq!(HsiHz::from(5u8), HsiHz::MHz22_12);
    assert_eq!(HsiHz::from(6u8), HsiHz::MHz24);
    assert_eq!(HsiHz::from(9u8), HsiHz::MHz4);
}

#[test]
fn lsi_enable_sets_lsion_and_waits_ready() {
    let mut rcc = zero();
    let w = lsi_enable(&mut rcc);
    assert_eq!(rcc.csr, 1);
    assert_eq!(w, WaitFor::LsiReady(true));
    assert!(!w.is_done(&rcc));
    rcc.csr |= 1 << 1;
    assert!(w.is_done(&rcc));
    assert_eq!(w.timeout(), 1000);
    assert_eq!(w.error(), py32f030_hal::clock::types::Error::LsiTimeout);
}

#[test]
fn hse_set_programs_frequency_range() {
    let mut rcc = zero();
    let w = HSE::<24_000_000>::set(&mut rcc, true);
    assert_eq!(w, WaitFor::HseReady);
    assert_eq!((rcc.ecscr >> 2) & 3, 3);
    assert_eq!((rcc.cr >> 16) & 1, 1);
    let w = HSE::<4_000_000>::set(&mut rcc, false);
    assert_eq!(w, WaitFor::HseReady);
    assert_eq!((rcc.ecscr >> 2) & 3, 0);
    assert_eq!((rcc.cr >> 16) & 1, 0);
    assert_eq!(w.error(), py32f030_hal::clock::types::Error::HseTimeout);
}

#[test]
fn lse_set_drive() {
    let mut rcc = zero();
    rcc.bdcr = 1 << 24;
    let w = LSE::set(&mut rcc, true);
    assert_eq!(w, WaitFor::Nothing);
    assert_eq!(rcc.bdcr, 1 << 25);
    assert_eq!((rcc.ecscr >> 16) & 3, 1);
    assert_eq!(LSE::hz(&rcc), 32768);
    assert_eq!(LSI::hz(&rcc), 32768);
}

#[test]
fn hsi_div_clock() {
    let mut rcc = zero();
    HSI::set_hz(&mut rcc, HsiHz::MHz8);
    let w = HSIDiv::<4>::set(&mut rcc, true);
    assert_eq!(w, WaitFor::Nothing);
    assert_eq!((rcc.cr >> 11) & 7, 2);
    assert_eq!((rcc.cr >> 8) & 1, 1);
    assert_eq!(HSIDiv::<4>::hz(&rcc), 2_000_000);
}

#[test]
fn pll_steps() {
    let mut rcc = zero();
    assert_eq!(<HSI as PllSelect>::config(0, &mut rcc), Some(WaitFor::Nothing));
    assert_eq!((rcc.cr >> 8) & 1, 1);
    assert_eq!(<HSI as PllSelect>::config(1, &mut rcc), Some(WaitFor::PllReady));
    assert_eq!((rcc.cr >> 24) & 1, 1);
    assert_eq!(rcc.pllcfgr & 1, 0);
    let before = rcc;
    assert_eq!(<HSI as PllSelect>::config(2, &mut rcc), None);
    assert_eq!(rcc, before);
    let mut rcc2 = zero();
    assert_eq!(PllClock::Hse.config(&mut rcc2), WaitFor::PllReady);
    assert_eq!(rcc2.pllcfgr & 1, 1);
}

#[test]
fn sys_clock_switch_steps() {
    let mut rcc = zero();
    assert_eq!(SysClock::<PLL<HSI>>::config(0, &mut rcc), Some(WaitFor::Nothing));
    assert_eq!(SysClock::<PLL<HSI>>::config(1, &mut rcc), Some(WaitFor::PllReady));
    assert_eq!(SysClock::<PLL<HSI>>::config(2, &mut rcc), Some(WaitFor::SysSwitched));
    assert_eq!(rcc.cfgr & 7, 2);
    assert_eq!(SysClock::<PLL<HSI>>::config(3, &mut rcc), None);
    let w = WaitFor::SysSwitched;
    assert!(!w.is_done(&rcc));
    rcc.cfgr |= 2 << 3;
    assert!(w.is_done(&rcc));
}

#[test]
fn sys_clock_hse_and_lsi() {
    let mut rcc = zero();
    assert_eq!(<HSE<8_000_000> as SysClkSelect>::config(0, &mut rcc), Some(WaitFor::HseReady));
    assert_eq!(<HSE<8_000_000> as SysClkSelect>::config(1, &mut rcc), Some(WaitFor::SysSwitched));
    assert_eq!(rcc.cfgr & 7, 1);
    let mut rcc = zero();
    assert_eq!(<LSI as SysClkSelect>::config(1, &mut rcc), Some(WaitFor::SysSwitched));
    assert_eq!(rcc.cfgr & 7, 3);
    assert_eq!(SysClockSw::LSE.bits(), 4);
    let clk = SysClock::<HSE<8_000_000>>::new();
    assert_eq!(clk.hz(&rcc), 8_000_000);
}

#[test]
fn bus_dividers() {
    let mut rcc = zero();
    HclkDiv::Div4.config(&mut rcc);
    PclkDiv::Div8.config(&mut rcc);
    assert_eq!((rcc.cfgr >> 8) & 0xf, 9);
    assert_eq!((rcc.cfgr >> 12) & 7, 6);
    assert_eq!(sys_hclk(&rcc, 16_000_000), 4_000_000);
    assert_eq!(sys_pclk(&rcc, 16_000_000), 500_000);
    assert_eq!(HclkDiv::from_bits(3).div(), 1);
    assert_eq!(HclkDiv::from_bits(12).div(), 64);
    assert_eq!(PclkDiv::from_bits(2).div(), 1);
    assert_eq!(PclkDiv::from_bits(7).div(), 16);
    assert_eq!(HsiDiv::from_div(32).bits(), 5);
}

#[test]
fn mco_select_writes_both_fields() {
    let mut rcc = zero();
    Mco::select(&mut rcc, McoSelect::Lsi, McoDIV::from_div(8));
    assert_eq!((rcc.cfgr >> 28) & 7, 3);
    assert_eq!((rcc.cfgr >> 24) & 7, McoSelect::Lsi.bits() as u32);
}

#[test]
fn rtc_clock_routing() {
    let mut rcc = zero();
    assert_eq!(RtcClock::<LSI>::config(0, &mut rcc), Some(WaitFor::LsiReady(true)));
    assert_eq!(RtcClock::<LSI>::config(1, &mut rcc), Some(WaitFor::Nothing));
    assert_eq!((rcc.bdcr >> 8) & 3, 2);
    assert_eq!((rcc.bdcr >> 15) & 1, 1);
    assert_eq!((rcc.bdcr >> 24) & 1, 1);
    assert_eq!(RtcClock::<LSI>::config(2, &mut rcc), None);
    assert_eq!(<RtcClock<HSE<8_000_000>> as ClockFrequency>::hz(&rcc), 62_500);
}

#[test]
fn peripheral_clock_gates() {
    let mut rcc = zero();
    let p = PeripheralClockIndex::SPI1;
    assert!(!p.is_open(&rcc));
    p.open(&mut rcc);
    assert!(p.is_open(&rcc));
    let other = PeripheralClockIndex::GPIOA;
    assert!(!other.is_open(&rcc));
    other.open(&mut rcc);
    p.close(&mut rcc);
    assert!(!p.is_open(&rcc));
    assert!(other.is_open(&rcc));
    let gates = rcc;
    p.reset(&mut rcc);
    assert_eq!(rcc.ahbenr, gates.ahbenr);
    assert_eq!(rcc.apbenr1, gates.apbenr1);
    assert_eq!(rcc.apbenr2, gates.apbenr2);
    assert_eq!(rcc.iopenr, gates.iopenr);
}
