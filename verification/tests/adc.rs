use py32f030_hal::adc::{
    AdcChannel, AdcRegs, Align, AnalogPin, CalibrationConfig, CalibrationSampleTime,
    CalibrationSelect, ChannelConfig, ClockMode, Config, ConversionMode, Event,
    ExitTrigleSource, Resolution, SampleCycles, ScanDir, TemperatureChannel, TrigleSignal,
    VRrefChannel, WatchDogConfig,
};
use py32f030_hal::clock::peripheral::PeripheralInterrupt;

fn regs() -> AdcRegs {
    AdcRegs { isr: 0, ier: 0, cr: 0, cfgr1: 0, cfgr2: 0, smpr: 0, tr: 0, chselr: 0, dr: 0, ccr: 0, ccsr: 0 }
}

#[test]
fn config_builders() {
    let c = Config::default();
    assert!(c.needs_calibration());
    let c = c.calibration(false).resolution(Resolution::Bit8).align(Align::Left)
        .sample(SampleCycles::Cycle_239_5).clock(ClockMode::HSI_DIV4);
    assert_eq!(c, Config::new(false, SampleCycles::Cycle_239_5, Resolution::Bit8, Align::Left, ClockMode::HSI_DIV4));
    let cc = CalibrationConfig::new(CalibrationSelect::Offset, CalibrationSampleTime::Cycle_2);
    assert_eq!(cc.content, CalibrationSelect::Offset);
    assert_eq!(CalibrationConfig::default().sample_time, CalibrationSampleTime::Cycle_8);
}

#[test]
fn channel_config_presets() {
    let m = ChannelConfig::new_multiple_channel_perferred();
    assert_eq!(m.mode, ConversionMode::Continuous);
    assert!(!m.over_write && !m.wait);
    let e = ChannelConfig::new_exclusive_perferred();
    assert!(e.over_write && e.wait);
    let s = ChannelConfig::new_exclusive_single();
    assert_eq!(s.mode, ConversionMode::Single);
    let t = s.singal(TrigleSignal::Rising(ExitTrigleSource::TIM3_TRGP)).scan_dir(ScanDir::Down)
        .wait(false).over_write(true).mode(ConversionMode::Discontinuous);
    assert_eq!(t.scan_dir, ScanDir::Down);
    assert_eq!(t.signal, TrigleSignal::Rising(ExitTrigleSource::TIM3_TRGP));
}

#[test]
fn channel_config_register() {
    let mut r = regs();
    let cfg = ChannelConfig::new_exclusive_single()
        .singal(TrigleSignal::Falling(ExitTrigleSource::TIM3_TRGP))
        .scan_dir(ScanDir::Down);
    r.channel_config(cfg);
    // scandir, exten = 2, extsel = 3, wait
    assert_eq!(r.cfgr1, (1 << 2) | (2 << 10) | (3 << 6) | (1 << 14));
    r.channel_config(ChannelConfig::new_multiple_channel_perferred());
    assert_eq!(r.cfgr1, 1 << 13);
}

#[test]
fn internal_channels_switch_sensors() {
    let mut r = regs();
    r.channel_enable(TemperatureChannel.channel(), true);
    assert_eq!(r.chselr, 1 << 11);
    assert_eq!(r.ccr, 1 << 23);
    r.channel_enable(VRrefChannel.channel(), true);
    assert_eq!(r.ccr, (1 << 23) | (1 << 22));
    r.channel_enable(AdcChannel::Channel11, false);
    assert_eq!(r.ccr, 1 << 22);
    r.channel_enable_exclusive(AdcChannel::Channel3);
    assert_eq!(r.chselr, 1 << 3);
}

#[test]
fn configure_phases() {
    let mut r = regs();
    r.cr = 1;
    let c = Config::default().resolution(Resolution::Bit10).clock(ClockMode::HSI);
    r.configure_before_calibration(&c);
    assert_eq!(r.cr, 0);
    assert_eq!(r.cfgr2 >> 28, 0b1000);
    assert_eq!((r.cfgr1 >> 3) & 3, 1);
    r.configure_after_calibration(&c, ChannelConfig::new_exclusive_single(), &[AdcChannel::Channel0, AdcChannel::Channel5]);
    assert_eq!(r.chselr, 1 | (1 << 5));
}

#[test]
fn calibration_sequence() {
    let mut r = regs();
    r.calibration(CalibrationConfig::default());
    assert_eq!((r.cr >> 31) & 1, 1);
    assert_eq!((r.ccsr >> 11) & 1, 1);
    assert_eq!((r.ccsr >> 12) & 3, CalibrationSampleTime::Cycle_8.bits());
    r.ccsr |= 1 << 31;
    assert!(!r.calibration_done());
    r.ccsr &= !(1 << 31);
    assert!(r.calibration_done());
    r.ccsr |= 1 << 30;
    assert!(!r.calibration_done());
}

#[test]
fn events_and_data() {
    let mut r = regs();
    r.event_config(Event::EOC, true);
    assert_eq!(r.ier, 1 << 2);
    r.isr = 1 << 7;
    assert!(r.event_flag(Event::AWD));
    r.event_clear(Event::OVR);
    assert_eq!(r.isr, (1 << 7) | (1 << 4));
    r.dr = 0xdead_0abc;
    assert_eq!(r.data_read(), 0x0abc);
}

#[test]
fn watchdog_thresholds() {
    let mut r = regs();
    r.set_watchdog(None);
    assert_eq!(r.tr, 0);
    r.set_watchdog(Some(WatchDogConfig { high: 0xfff, low: 0x123 }));
    assert_eq!(r.tr, (0xfff << 16) | 0x123);
    r.set_watch_dog_threshold(0xffff, 0x1000);
    assert_eq!(r.tr, 0xfff << 16);
}

#[test]
fn interrupt_read_sequence() {
    let mut r = regs();
    r.chselr = 0xff;
    r.arm_channel_read(AdcChannel::Channel12);
    assert_eq!(r.chselr, 1 << 12);
    assert_eq!(r.ier, 1 << 2);
    assert_eq!(r.isr, 1 << 2);
    assert_eq!(r.ccr, 1 << 22);
    assert_eq!((r.cr >> 2) & 1, 1);
    r.isr = 0;
    r.dr = 0x321;
    assert_eq!(r.poll_read(), None);
    r.isr = 1 << 2;
    assert_eq!(r.poll_read(), Some(0x321));
}

#[test]
fn interrupt_silences_fired_events() {
    let mut r = regs();
    r.ier = (1 << 2) | (1 << 4) | (1 << 7);
    r.isr = (1 << 2) | (1 << 7);
    r.on_interrupt();
    assert_eq!(r.ier, 1 << 4);
    assert_eq!(r.isr, (1 << 2) | (1 << 7));
}

#[test]
fn adc_interrupt_line() {
    assert_eq!(py32f030_hal::adc::Id::ADC1.interrupt(), 12);
}
