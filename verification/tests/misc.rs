use py32f030_hal::clock::peripheral::PeripheralClockIndex;
use py32f030_hal::clock::Rcc;
use py32f030_hal::config::{Config as SysConfig, SysClockSource};
use py32f030_hal::dma::Channel;
use py32f030_hal::iwdg::{is_updated, Config as WdgConfig, Div};
use py32f030_hal::mode::{Async, Blocking, Mode};
use py32f030_hal::pwr::pwr;
use py32f030_hal::rtc::{alarm_value, get_counter, reload_registers, split_counter, Config as RtcConfig, RtcClock};
use py32f030_hal::syscfg::syscfg;
use py32f030_hal::rtc::{clear_event, configurable, event_config, event_flag, is_event_enabled, is_registers_synchronized, on_interrupt, poll_events, set_configurable, wait_until, EventKind};
use py32f030_hal::clock::peripheral::PeripheralInterrupt;
use py32f030_hal::exti::Line;

#[test]
fn watchdog_default_timeout() {
    let c = WdgConfig::default();
    assert_eq!(c.div(), Div::Div256);
    assert_eq!(c.reload(), 0xfff);
    assert_eq!(c.timeout_us(), 1_000_000 * 0xfff / 125);
    assert_eq!(Div::Div64.bits(), 4);
    assert!(is_updated(0));
    assert!(!is_updated(1));
    assert!(!is_updated(2));
}

#[test]
fn rtc_counter_round_trip() {
    let v = 0x1234_5678;
    let (h, l) = split_counter(v);
    assert_eq!((h, l), (0x1234, 0x5678));
    assert_eq!(get_counter(l, h), v);
    assert_eq!(reload_registers(32767), (0, 32767));
    assert_eq!(reload_registers(0xabcdef), (0xb, 0xcdef));
    assert_eq!(alarm_value(100, 5), 104);
}

#[test]
fn rtc_clock_and_config() {
    assert_eq!(RtcClock::LSE.hz(), 32768);
    assert_eq!(RtcClock::LSI.reload(), 32767);
    assert_eq!(RtcClock::HSE_DIV_32.hz(), 187_500);
    let c = RtcConfig::new(RtcClock::LSE, Some(7));
    assert_eq!(c.clock(), RtcClock::LSE);
    assert_eq!(c.load(), Some(7));
    let d = RtcConfig::default();
    assert_eq!(d.clock(), RtcClock::LSI);
    assert_eq!(d.load(), None);
}

#[test]
fn syscfg_and_pwr() {
    let mut rcc = Rcc {
        cr: 0, icscr: 0, cfgr: 0, pllcfgr: 0, ecscr: 0, csr: 0, bdcr: 0, ahbenr: 0,
        apbenr1: 0, apbenr2: 0, iopenr: 0, ahbrstr: 0, apbrstr1: 0, apbrstr2: 0, ioprstr: 0,
    };
    syscfg::open(&mut rcc);
    assert!(syscfg::clock().is_open(&rcc));
    assert_eq!(syscfg::clock(), PeripheralClockIndex::SYSCFG);
    syscfg::close(&mut rcc);
    assert!(!syscfg::clock().is_open(&rcc));
    let mut cfgr3 = 0u32;
    syscfg::set_dma_channel_map(&mut cfgr3, Channel::Channel2, 0b10101);
    assert_eq!(cfgr3, 0b10101 << 8);
    syscfg::en_dma_channel_fast_response(&mut cfgr3, Channel::Channel3, true);
    assert_eq!(cfgr3, (0b10101 << 8) | (1 << 21));
    let mut cr1 = 0u32;
    pwr::rtc_unlock(&mut cr1, true);
    assert_eq!(cr1, 1 << 8);
    pwr::rtc_unlock(&mut cr1, false);
    assert_eq!(cr1, 0);
}

#[test]
fn start_up_config_and_modes() {
    assert!(SysConfig::default().sys_clk == SysClockSource::HSI);
    assert!(SysConfig::default().sys_clk(SysClockSource::PLL_HSI).sys_clk == SysClockSource::PLL_HSI);
    assert!(SysClockSource::default() == SysClockSource::HSI);
    assert!(!Blocking::is_async());
    assert!(Async::is_async());
}

#[test]
fn rtc_event_registers() {
    assert!(configurable(1 << 5));
    assert!(!configurable(0));
    assert!(is_registers_synchronized(1 << 3));
    assert_eq!(set_configurable(0, true), 1 << 4);
    assert_eq!(event_config(0, EventKind::Alarm, true), 2);
    assert!(is_event_enabled(4, EventKind::OverFlow));
    assert!(event_flag(1, EventKind::Second));
    assert_eq!(clear_event(7, EventKind::Alarm), 5);
    // second and alarm fired; only the alarm interrupt was on
    assert_eq!(on_interrupt(0b110, 0b011), 0b100);
    assert_eq!(poll_events(0b011, &[EventKind::Alarm, EventKind::OverFlow]), (true, 0b001));
    assert_eq!(poll_events(0b100, &[EventKind::Alarm]), (false, 0b100));
    assert_eq!(wait_until(10, 5), 15);
}

#[test]
fn interrupt_lines() {
    assert_eq!(Line::Line1.interrupt(), 5);
    assert_eq!(Line::Line3.interrupt(), 6);
    assert_eq!(Line::Line12.interrupt(), 7);
    assert_eq!(Channel::Channel1.interrupt(), 9);
    assert_eq!(Channel::Channel3.interrupt(), 10);
    assert_eq!(py32f030_hal::i2c::Id::I2c1.interrupt(), 23);
    assert_eq!(py32f030_hal::spi::Id::SPI2.interrupt(), 26);
}

#[test]
fn rtc_ticks_once_a_second() {
    for c in [RtcClock::LSI, RtcClock::LSE, RtcClock::HSE_DIV_32] {
        assert_eq!(c.hz() / (c.reload() + 1), 1);
    }
}
