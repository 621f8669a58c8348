use py32f030_hal::clock::peripheral::PeripheralClockIndex;
use py32f030_hal::clock::Rcc;
use py32f030_hal::gpio::hal::Pin as HalPin;
use py32f030_hal::gpio::{
    AnyPin, Flex, GpioPort, GpioRegs, PinAF, PinIoType, PinLevel, PinMode, PinOutputType,
    PinPullUpDown, PinSpeed,
};

fn regs() -> GpioRegs {
    GpioRegs { moder: 0, otyper: 0, ospeedr: 0, pupdr: 0, idr: 0, odr: 0, bsrr: 0, afrl: 0, afrh: 0, brr: 0 }
}

#[test]
fn port_and_pin_round_trip() {
    let p = AnyPin::steal(GpioPort::GPIOB, 7);
    assert_eq!(p.port_pin(), 16 + 7);
    assert_eq!(HalPin::port(&p), GpioPort::GPIOB);
    assert_eq!(HalPin::pin(&p), 7);
    let f = Flex::new(AnyPin::steal(GpioPort::GPIOF, 15));
    assert_eq!(f.port(), GpioPort::GPIOF);
    assert_eq!(f.pin(), 15);
    assert_eq!(GpioPort::from_index(1), GpioPort::GPIOB);
    assert_eq!(GpioPort::GPIOF.index(), 2);
}

#[test]
fn write_then_output_level() {
    let f = Flex::new(AnyPin::steal(GpioPort::GPIOA, 5));
    let mut r = regs();
    r.odr = 0xffff_ffff;
    f.write(&mut r, PinLevel::Low);
    assert_eq!(r.odr, 0xffff_ffdf);
    f.write(&mut r, PinLevel::Hight);
    assert_eq!(r.odr, 0xffff_ffff);
}

#[test]
fn read_input_level() {
    let f = Flex::new(AnyPin::steal(GpioPort::GPIOA, 3));
    let mut r = regs();
    assert_eq!(f.read(&r), PinLevel::Low);
    r.idr = 1 << 3;
    assert_eq!(f.read(&r), PinLevel::Hight);
}

#[test]
fn set_mode_touches_only_the_pin() {
    let f = Flex::new(AnyPin::steal(GpioPort::GPIOA, 4));
    let mut r = regs();
    r.moder = 0xffff_ffff;
    f.set_as_input(&mut r, PinPullUpDown::PullUp, PinSpeed::High);
    assert_eq!(r.moder, 0xffff_fcff);
    assert_eq!(r.pupdr, 1 << 8);
    assert_eq!(r.ospeedr, 2 << 8);
    f.set_as_analog(&mut r);
    assert_eq!(r.moder, 0xffff_ffff);
}

#[test]
fn output_io_types() {
    let f = Flex::new(AnyPin::steal(GpioPort::GPIOB, 2));
    let mut r = regs();
    f.set_as_output(&mut r, PinIoType::OpenDrain, PinSpeed::VeryHigh);
    assert_eq!((r.moder >> 4) & 3, PinMode::Output.bits());
    assert_eq!((r.otyper >> 2) & 1, 1);
    assert_eq!((r.pupdr >> 4) & 3, 0);
    assert_eq!((r.ospeedr >> 4) & 3, 3);
    f.set_io_type(&mut r, PinIoType::PullDown);
    assert_eq!((r.otyper >> 2) & 1, 0);
    assert_eq!((r.pupdr >> 4) & 3, 2);
    f.set_open_drain(&mut r, PinOutputType::OpenDrain);
    assert_eq!((r.otyper >> 2) & 1, 1);
    f.set_push_pull(&mut r, PinPullUpDown::No);
    assert_eq!((r.pupdr >> 4) & 3, 0);
    assert_eq!(PinIoType::Floating.split(), (PinPullUpDown::No, PinOutputType::PushPull));
}

#[test]
fn alternate_function_low_and_high_register() {
    let mut r = regs();
    let low = Flex::new(AnyPin::steal(GpioPort::GPIOA, 2));
    low.set_as_af(&mut r, PinAF::AF9, PinSpeed::Low, PinIoType::PullUp);
    assert_eq!(r.afrl, 9 << 8);
    assert_eq!(r.afrh, 0);
    let high = Flex::new(AnyPin::steal(GpioPort::GPIOA, 10));
    high.set_as_af(&mut r, PinAF::AF1, PinSpeed::Low, PinIoType::Floating);
    assert_eq!(r.afrh, 1 << 8);
    assert_eq!((r.moder >> 20) & 3, 2);
    assert_eq!(PinAF::from_bits(12), PinAF::AF12);
}

#[test]
fn set_reset_through_bsrr_and_brr() {
    let p = AnyPin::steal(GpioPort::GPIOA, 6);
    let mut r = regs();
    p.set(&mut r);
    assert_eq!(r.bsrr, 1 << 6);
    p.clear(&mut r);
    assert_eq!(r.bsrr, 1 << 22);
    p.reset(&mut r);
    assert_eq!(r.brr, 1 << 6);
}

#[test]
fn level_negation() {
    assert_eq!(!PinLevel::Low, PinLevel::Hight);
    assert_eq!(!!PinLevel::Hight, PinLevel::Hight);
    let b: bool = PinLevel::Hight.into();
    assert!(b);
    assert_eq!(PinLevel::from_bits(0), PinLevel::Low);
}

#[test]
fn port_clock_enable() {
    let mut rcc = Rcc {
        cr: 0, icscr: 0, cfgr: 0, pllcfgr: 0, ecscr: 0, csr: 0, bdcr: 0, ahbenr: 0,
        apbenr1: 0, apbenr2: 0, iopenr: 0, ahbrstr: 0, apbrstr1: 0, apbrstr2: 0, ioprstr: 0,
    };
    GpioPort::GPIOB.enable(&mut rcc, true);
    assert!(PeripheralClockIndex::GPIOB.is_open(&rcc));
    assert!(!PeripheralClockIndex::GPIOA.is_open(&rcc));
    GpioPort::GPIOB.enable(&mut rcc, false);
    assert!(!PeripheralClockIndex::GPIOB.is_open(&rcc));
}
