use py32f030_hal::rcc::clk_select::hse::{HseBypass, HseClk};
use py32f030_hal::rcc::clk_select::hsi::{HsiClk as HsiFreq, HsiDiv as HsiDivisor, HsiHz, HsiSys as HsiSource};
use py32f030_hal::rcc::clk_select::{HsiClk, HsiDiv};
use py32f030_hal::rcc::{Clk, CoreSwitch, HsiSys, SysClkSource, CLK_HZ};

#[test]
fn hsi_frequencies() {
    assert_eq!(HsiClk::Hz4M.hz(), 4_000_000);
    assert_eq!(HsiClk::Hz24M.hz(), 24_000_000);
    assert_eq!(HsiClk::Hz22_12M.hz(), 22_120_000);
    assert_eq!(HsiClk::default(), HsiClk::Hz8M);
    assert_eq!(HsiDiv::default(), HsiDiv::HsiDiv1);
    assert_eq!(HsiClk::Hz16M.trim_addr(), 0x1FFF_0F08);
    assert_eq!(HsiDiv::HsiDiv128.factor(), 128);
}

#[test]
fn hsi_register_values() {
    assert_eq!(HsiClk::Hz8M.icscr_value(0xffff_ffff), 0x1000_0000 | (1 << 13) | 0x1fff);
    assert_eq!(HsiDiv::HsiDiv4.cr_value(), 0x0100 | (2 << 11));
    let s = HsiSource { hz: HsiFreq { hz: HsiHz::Hz24M }, div: HsiDivisor::HsiDiv8 };
    assert_eq!(s.cr_value(), 0x0100 | (3 << 11));
    assert_eq!(HsiHz::Hz22_12M.bits(), 3);
}

#[test]
fn hsi_sys_setters() {
    let s = HsiSys::default();
    let t = s.set_clk(HsiClk::Hz24M);
    assert_eq!(t, HsiSys { clk: HsiClk::Hz24M, div: HsiDiv::HsiDiv1 });
    let u = t.set_div(HsiDiv::HsiDiv2);
    assert_eq!(u, HsiSys { clk: HsiClk::Hz24M, div: HsiDiv::HsiDiv2 });
    assert_eq!(u.core_hz(), 12_000_000);
}

#[test]
fn clk_taken_once() {
    let mut taken = false;
    let first = Clk::take(&mut taken);
    assert!(first.is_some());
    assert!(taken);
    assert!(Clk::take(&mut taken).is_none());
    assert_eq!(first.unwrap(), Clk::default());
}

#[test]
fn core_switch() {
    let clk = Clk::default();
    let (r, sw) = clk.sys_core_clk_config(0, SysClkSource::LSI);
    assert!(!r);
    assert_eq!(sw, CoreSwitch::Write { hsi: None, cfgr: 3, f_cpu: Some(32768) });
    let (_, sw) = clk.sys_core_clk_config(0, SysClkSource::HSISYS(HsiSys { clk: HsiClk::Hz16M, div: HsiDiv::HsiDiv4 }));
    assert_eq!(
        sw,
        CoreSwitch::Write {
            hsi: Some(HsiSys { clk: HsiClk::Hz16M, div: HsiDiv::HsiDiv4 }),
            cfgr: 0,
            f_cpu: Some(4_000_000)
        }
    );
    let (_, sw) = clk.sys_core_clk_config(0, SysClkSource::LSE);
    assert_eq!(sw, CoreSwitch::Write { hsi: None, cfgr: 4, f_cpu: None });
    // the PLL drives the core: refused unless the tree already runs on the PLL
    let (r, sw) = clk.sys_core_clk_config(0b010 << 3, SysClkSource::HSE);
    assert!(!r);
    assert_eq!(sw, CoreSwitch::Refused);
    let pll = Clk { core: SysClkSource::PLL_CLK };
    let (_, sw) = pll.sys_core_clk_config(0b010 << 3, SysClkSource::HSE);
    assert_eq!(sw, CoreSwitch::Write { hsi: None, cfgr: 1, f_cpu: None });
}

#[test]
fn hse_clock() {
    assert_eq!(HseClk::<16_000_000>.hz(), 16_000_000);
    assert_eq!(HseClk::<8_000_000>::cr_value(true), 0x0100 | (1 << 16));
    assert_eq!(HseClk::<8_000_000>::cr_value(false), 0x0100);
    assert_eq!(HseClk::<8_000_000>::config_result(true, false), Err(()));
    assert_eq!(HseClk::<8_000_000>::config_result(true, true), Ok(()));
    assert_eq!(HseClk::<8_000_000>::config_result(false, false), Ok(()));
    assert_eq!(HseBypass::HseBypassPulse.bits(), 1);
}
