use py32f030_hal::gpio::PinIoType;
use py32f030_hal::spi::types::{
    BaudRateDiv, BidirectionalMode, BitOrder, DataLength, Error, Mode, Phase, Polarity, Rule,
    SlaveSpeedMode,
};
use py32f030_hal::spi::{pin_io_types, sck_io_type, Config, SpiRegs, Transfer, TransferStep};

#[test]
fn baud_rate_formula() {
    assert_eq!(BaudRateDiv::Div2.baud_rate(24_000_000), 12_000_000);
    assert_eq!(BaudRateDiv::Div256.baud_rate(24_000_000), 93_750);
    assert_eq!(BaudRateDiv::from_bits(3), BaudRateDiv::Div16);
    assert_eq!(BaudRateDiv::Div64.bits(), 5);
}

#[test]
fn configure_then_read_baud_rate_back() {
    let mut r = SpiRegs { cr1: 0, cr2: 0, sr: 0 };
    let cfg = Config {
        mode: Mode { polarity: Polarity::IdleHigh, phase: Phase::CaptureOnSecondTransition },
        bit_order: BitOrder::LSB,
        baud_rate_div: BaudRateDiv::Div8,
        data_len: DataLength::Length8,
    };
    r.configure(&cfg);
    assert_eq!(r.cr1, 0b1 | 0b10 | (1 << 7) | (2 << 3));
    assert_eq!(r.get_baud_rate(8_000_000), 1_000_000);
}

#[test]
fn control_bits() {
    let mut r = SpiRegs { cr1: 0, cr2: 0, sr: 0 };
    r.set_rule(Rule::Master);
    r.spi_enable(true);
    r.set_bidirectional_mode(BidirectionalMode::Line1Bidirectional);
    r.enable_soft_slave_management(true);
    assert_eq!(r.cr1, (1 << 2) | (1 << 6) | (1 << 15) | (1 << 9));
    r.set_data_length(DataLength::Length16);
    r.set_slave_mode(SlaveSpeedMode::Fast);
    assert_eq!(r.cr2, (1 << 11) | (1 << 15));
    r.sr = (1 << 7) | (1 << 1);
    assert!(r.is_busy());
    assert!(r.tx_empty());
    assert!(!r.rx_not_empty());
    assert!(!r.is_overflow());
}

#[test]
fn clock_pin_pulled_to_idle_level() {
    let low = Mode { polarity: Polarity::IdleLow, phase: Phase::CaptureOnFirstTransition };
    let high = Mode { polarity: Polarity::IdleHigh, phase: Phase::CaptureOnFirstTransition };
    assert_eq!(sck_io_type(&low), PinIoType::PullDown);
    assert_eq!(sck_io_type(&high), PinIoType::PullUp);
}

#[test]
fn transfer_without_pin_fails() {
    assert!(matches!(Transfer::begin_write(false, 4), Err(Error::Write)));
    assert!(matches!(Transfer::begin_read(false, 4), Err(Error::Read)));
}

#[test]
fn transfer_moves_each_frame_then_stops() {
    let mut t = Transfer::begin_write(true, 3).unwrap();
    let mut moved = vec![];
    while t.is_pending() {
        match t.step(true) {
            TransferStep::Move(i) => moved.push(i),
            TransferStep::Failed(_) => unreachable!(),
        }
    }
    assert_eq!(moved, vec![0, 1, 2]);
    assert_eq!(t.count(), 3);
}

#[test]
fn transfer_timeout() {
    let mut t = Transfer::begin_read(true, 2).unwrap();
    assert_eq!(t.step(true), TransferStep::Move(0));
    assert_eq!(t.step(false), TransferStep::Failed(Error::Timeout));
    assert_eq!(t.count(), 1);
    assert!(t.is_pending());
}

#[test]
fn pin_types_and_setup() {
    let mode = Mode { polarity: Polarity::IdleLow, phase: Phase::CaptureOnFirstTransition };
    let t = pin_io_types(&mode);
    assert_eq!((t.sck, t.mosi, t.miso, t.nss), (PinIoType::PullDown, PinIoType::PullUp, PinIoType::OpenDrain, PinIoType::Floating));
    let cfg = Config { mode, bit_order: BitOrder::MSB, baud_rate_div: BaudRateDiv::Div4, data_len: DataLength::Length8 };
    let mut without = SpiRegs { cr1: 0, cr2: 0, sr: 0 };
    without.setup(&cfg, false);
    assert_eq!(without.cr1, (1 << 9) | (1 << 3));
    let mut with = SpiRegs { cr1: 0, cr2: 0, sr: 0 };
    with.setup(&cfg, true);
    assert_eq!(with.cr1, 1 << 3);
}
