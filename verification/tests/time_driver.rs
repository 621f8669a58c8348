use py32f030_hal::embassy::time_driver_systick::{
    cnt_per_tick, csr_with_clock_source, csr_with_counter, csr_with_interrupt, AlarmState,
    SystickDriver, SystClkSource, ALARM_COUNT,
};

#[test]
fn alarm_state_starts_disarmed() {
    let a: AlarmState<u8> = AlarmState::new();
    assert_eq!(a.timestamp, u64::MAX);
    assert!(a.callback.is_none());
}

#[test]
fn alarms_are_handed_out_once() {
    let mut d: SystickDriver<u8> = SystickDriver::new();
    assert_eq!(d.allocate_alarm(), Some(0));
    for _ in 0..3 {
        assert_eq!(d.allocate_alarm(), None);
    }
    assert_eq!(ALARM_COUNT, 1);
}

#[test]
fn set_alarm_in_the_past_is_refused() {
    let mut d: SystickDriver<u8> = SystickDriver::new();
    assert!(!d.set_alarm(0, 0));
    assert!(d.set_alarm(0, 3));
}

#[test]
fn alarm_rings_once_at_its_tick() {
    let mut d: SystickDriver<u8> = SystickDriver::new();
    d.set_alarm_callback(0, 7);
    assert!(d.set_alarm(0, 3));
    assert_eq!(d.on_interrupt(0), None);
    assert_eq!(d.on_interrupt(0), None);
    assert_eq!(d.now(), 2);
    assert_eq!(d.on_interrupt(0), Some(7));
    assert_eq!(d.now(), 3);
    assert_eq!(d.on_interrupt(0), None);
    assert_eq!(d.on_interrupt(0), None);
}

#[test]
fn systick_registers() {
    assert_eq!(cnt_per_tick(8_000_000, 1_000_000), 8);
    assert_eq!(csr_with_clock_source(0, SystClkSource::Core), 4);
    assert_eq!(csr_with_clock_source(7, SystClkSource::External), 3);
    assert_eq!(csr_with_counter(0, true), 1);
    assert_eq!(csr_with_interrupt(3, false), 1);
}
