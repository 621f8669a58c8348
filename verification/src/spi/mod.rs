//! Serial peripheral interface: configuration registers and master transfers.
pub mod types;

use crate::bit::{bit_mask_idx_get, bit_mask_idx_modify, bit_write, field_value, field_write, read_flag, write_flag};
use crate::clock::peripheral::{PeripheralClockIndex, PeripheralIdToClockIndex, PeripheralInterrupt};
use crate::gpio::PinIoType;
pub use types::{
    BaudRateDiv, BidirectionalMode, BitOrder, DataLength, Error, Mode, Phase, Polarity, Rule,
    SlaveSpeedMode,
};
use vstd::prelude::*;

verus! {

/// Tick budget for each flag of a master transfer.
pub const TIMEOUT: usize = 10000;

/// SPI instance.
#[derive(Debug, Clone, Copy, PartialEq, Eq, Structural)]
pub enum Id {
    SPI1,
    SPI2,
}

impl PeripheralIdToClockIndex for Id {
    fn clock(&self) -> (r: PeripheralClockIndex)
        ensures
            *self == Id::SPI1 ==> r == PeripheralClockIndex::SPI1,
            *self == Id::SPI2 ==> r == PeripheralClockIndex::SPI2,
    {
        match *self {
            Self::SPI1 => PeripheralClockIndex::SPI1,
            Self::SPI2 => PeripheralClockIndex::SPI2,
        }
    }
}

/// SPI configuration.
#[derive(Debug, Clone, Copy, PartialEq, Eq, Structural)]
pub struct Config {
    pub mode: Mode,
    pub bit_order: BitOrder,
    pub baud_rate_div: BaudRateDiv,
    pub data_len: DataLength,
}

/// Image of the SPI registers.
#[derive(Debug, Clone, Copy, PartialEq, Eq, Structural)]
pub struct SpiRegs {
    pub cr1: u32,
    pub cr2: u32,
    pub sr: u32,
}

impl SpiRegs {
    /// Bidirectional data mode (`BIDIMODE`).
    pub fn set_bidirectional_mode(&mut self, mode: BidirectionalMode)
        ensures
            *final(self) == (SpiRegs {
                cr1: bit_write(old(self).cr1, 15, mode == BidirectionalMode::Line1Bidirectional),
                ..*old(self)
            }),
    {
        self.cr1 = write_flag(self.cr1, 15, mode == BidirectionalMode::Line1Bidirectional);
    }

    /// Output enable in bidirectional mode (`BIDIOE`): transmit-only when set.
    pub fn enable_output_bidirectional_mode(&mut self, en: bool)
        ensures
            *final(self) == (SpiRegs { cr1: bit_write(old(self).cr1, 14, en), ..*old(self) }),
    {
        self.cr1 = write_flag(self.cr1, 14, en);
    }

    /// Receive-only mode (`RXONLY`).
    pub fn enable_rx_readonly(&mut self, en: bool)
        ensures
            *final(self) == (SpiRegs { cr1: bit_write(old(self).cr1, 10, en), ..*old(self) }),
    {
        self.cr1 = write_flag(self.cr1, 10, en);
    }

    /// Software slave management (`SSM`): the NSS input is replaced by `SSI`.
    pub fn enable_soft_slave_management(&mut self, en: bool)
        ensures
            *final(self) == (SpiRegs { cr1: bit_write(old(self).cr1, 9, en), ..*old(self) }),
    {
        self.cr1 = write_flag(self.cr1, 9, en);
    }

    /// Internal slave select (`SSI`), forced onto NSS under software slave management.
    pub fn slave_enable(&mut self, en: bool)
        ensures
            *final(self) == (SpiRegs { cr1: bit_write(old(self).cr1, 8, en), ..*old(self) }),
    {
        self.cr1 = write_flag(self.cr1, 8, en);
    }

    /// Frame format (`LSBFIRST`).
    pub fn set_frame_format(&mut self, format: BitOrder)
        ensures
            *final(self) == (SpiRegs {
                cr1: bit_write(old(self).cr1, 7, format == BitOrder::LSB),
                ..*old(self)
            }),
    {
        self.cr1 = write_flag(self.cr1, 7, format == BitOrder::LSB);
    }

    /// Peripheral enable (`SPE`).
    pub fn spi_enable(&mut self, en: bool)
        ensures
            *final(self) == (SpiRegs { cr1: bit_write(old(self).cr1, 6, en), ..*old(self) }),
    {
        self.cr1 = write_flag(self.cr1, 6, en);
    }

    /// Master selection (`MSTR`); must not change while a transfer is ongoing.
    pub fn set_rule(&mut self, rule: Rule)
        ensures
            *final(self) == (SpiRegs {
                cr1: bit_write(old(self).cr1, 2, rule == Rule::Master),
                ..*old(self)
            }),
    {
        self.cr1 = write_flag(self.cr1, 2, rule == Rule::Master);
    }

    /// Clock polarity (`CPOL`): set for an idle-high clock.
    pub fn set_clock_polarity(&mut self, polarity: Polarity)
        ensures
            *final(self) == (SpiRegs {
                cr1: bit_write(old(self).cr1, 1, polarity == Polarity::IdleHigh),
                ..*old(self)
            }),
    {
        self.cr1 = write_flag(self.cr1, 1, polarity == Polarity::IdleHigh);
    }

    /// Clock phase (`CPHA`): set to capture on the second transition.
    pub fn set_clock_phase(&mut self, phase: Phase)
        ensures
            *final(self) == (SpiRegs {
                cr1: bit_write(old(self).cr1, 0, phase == Phase::CaptureOnSecondTransition),
                ..*old(self)
            }),
    {
        self.cr1 = write_flag(self.cr1, 0, phase == Phase::CaptureOnSecondTransition);
    }

    /// Slave fast mode (`SLVFM`); only when the SPI clock is at least PCLK/4.
    pub fn set_slave_mode(&mut self, mode: SlaveSpeedMode)
        ensures
            *final(self) == (SpiRegs {
                cr2: bit_write(old(self).cr2, 15, mode == SlaveSpeedMode::Fast),
                ..*old(self)
            }),
    {
        self.cr2 = write_flag(self.cr2, 15, mode == SlaveSpeedMode::Fast);
    }

    /// Data frame length (`DS`).
    pub fn set_data_length(&mut self, data_length: DataLength)
        ensures
            *final(self) == (SpiRegs {
                cr2: bit_write(old(self).cr2, 11, data_length == DataLength::Length16),
                ..*old(self)
            }),
    {
        self.cr2 = write_flag(self.cr2, 11, data_length == DataLength::Length16);
    }

    /// Transmit-buffer-empty interrupt (`TXEIE`).
    pub fn enable_tx_empty_interrupt(&mut self, en: bool)
        ensures
            *final(self) == (SpiRegs { cr2: bit_write(old(self).cr2, 7, en), ..*old(self) }),
    {
        self.cr2 = write_flag(self.cr2, 7, en);
    }

    /// Receive-buffer-not-empty interrupt (`RXNEIE`).
    pub fn enable_rx_no_empty_interrupt(&mut self, en: bool)
        ensures
            *final(self) == (SpiRegs { cr2: bit_write(old(self).cr2, 6, en), ..*old(self) }),
    {
        self.cr2 = write_flag(self.cr2, 6, en);
    }

    /// Error interrupt (`ERRIE`).
    pub fn enable_error_interrupt(&mut self, en: bool)
        ensures
            *final(self) == (SpiRegs { cr2: bit_write(old(self).cr2, 5, en), ..*old(self) }),
    {
        self.cr2 = write_flag(self.cr2, 5, en);
    }

    /// SS output in master mode (`SSOE`).
    pub fn enable_ss_output(&mut self, en: bool)
        ensures
            *final(self) == (SpiRegs { cr2: bit_write(old(self).cr2, 2, en), ..*old(self) }),
    {
        self.cr2 = write_flag(self.cr2, 2, en);
    }

    /// Baud rate divider (`BR`).
    pub fn set_baud_rate_div(&mut self, div: BaudRateDiv)
        ensures
            *final(self) == (SpiRegs {
                cr1: field_write(old(self).cr1, 3, 3, div.spec_bits()),
                ..*old(self)
            }),
    {
        proof {
            crate::bit::lemma_field_max_values();
        }
        self.cr1 = bit_mask_idx_modify::<3>(3, self.cr1, div.bits());
    }

    /// Busy flag.
    pub fn is_busy(&self) -> (r: bool)
        ensures
            r == (field_value(self.sr, 7, 1) == 1),
    {
        read_flag(self.sr, 7)
    }

    /// Overrun flag.
    pub fn is_overflow(&self) -> (r: bool)
        ensures
            r == (field_value(self.sr, 6, 1) == 1),
    {
        read_flag(self.sr, 6)
    }

    /// Transmit buffer empty.
    pub fn tx_empty(&self) -> (r: bool)
        ensures
            r == (field_value(self.sr, 1, 1) == 1),
    {
        read_flag(self.sr, 1)
    }

    /// Receive buffer not empty.
    pub fn rx_not_empty(&self) -> (r: bool)
        ensures
            r == (field_value(self.sr, 0, 1) == 1),
    {
        read_flag(self.sr, 0)
    }

    /// Bus clock of the master for the APB clock `pclk`.
    pub fn get_baud_rate(&self, pclk: u32) -> (r: u32)
        ensures
            r == pclk / BaudRateDiv::from_bits_spec(field_value(self.cr1, 3, 3)).spec_div(),
    {
        proof {
            crate::bit::lemma_field_max_values();
            crate::bit::lemma_field_value_bound(self.cr1, 3, 3);
        }
        let code = bit_mask_idx_get::<3>(3, self.cr1);
        let div = BaudRateDiv::from_bits(code as u8);
        div.baud_rate(pclk)
    }

    /// Applies a configuration: clock phase and polarity, frame format and baud rate.
    pub fn configure(&mut self, config: &Config)
        ensures
            *final(self) == (SpiRegs {
                cr1: field_write(
                    bit_write(
                        bit_write(
                            bit_write(
                                old(self).cr1,
                                0,
                                config.mode.phase == Phase::CaptureOnSecondTransition,
                            ),
                            1,
                            config.mode.polarity == Polarity::IdleHigh,
                        ),
                        7,
                        config.bit_order == BitOrder::LSB,
                    ),
                    3,
                    3,
                    config.baud_rate_div.spec_bits(),
                ),
                ..*old(self)
            }),
    {
        self.set_clock_phase(config.mode.phase);
        self.set_clock_polarity(config.mode.polarity);
        self.set_frame_format(config.bit_order);
        self.set_baud_rate_div(config.baud_rate_div);
    }
}

impl BaudRateDiv {
    pub open spec fn from_bits_spec(value: u32) -> BaudRateDiv {
        if value == 0 {
            BaudRateDiv::Div2
        } else if value == 1 {
            BaudRateDiv::Div4
        } else if value == 2 {
            BaudRateDiv::Div8
        } else if value == 3 {
            BaudRateDiv::Div16
        } else if value == 4 {
            BaudRateDiv::Div32
        } else if value == 5 {
            BaudRateDiv::Div64
        } else if value == 6 {
            BaudRateDiv::Div128
        } else {
            BaudRateDiv::Div256
        }
    }
}

/// I/O type of the clock pin: pulled towards its idle level.
pub fn sck_io_type(mode: &Mode) -> (r: PinIoType)
    ensures
        mode.polarity == Polarity::IdleLow ==> r == PinIoType::PullDown,
        mode.polarity == Polarity::IdleHigh ==> r == PinIoType::PullUp,
{
    if mode.polarity == Polarity::IdleLow {
        PinIoType::PullDown
    } else {
        PinIoType::PullUp
    }
}

/// I/O types of the SPI pins in alternate function mode.
#[derive(Debug, Clone, Copy, PartialEq, Eq, Structural)]
pub struct PinIoTypes {
    pub sck: PinIoType,
    pub mosi: PinIoType,
    pub miso: PinIoType,
    pub nss: PinIoType,
}

/// I/O types of the pins: the clock pulled towards its idle level, MOSI pulled
/// up, MISO open drain, NSS floating.
pub fn pin_io_types(mode: &Mode) -> (r: PinIoTypes)
    ensures
        r == (PinIoTypes {
            sck: if mode.polarity == Polarity::IdleLow {
                PinIoType::PullDown
            } else {
                PinIoType::PullUp
            },
            mosi: PinIoType::PullUp,
            miso: PinIoType::OpenDrain,
            nss: PinIoType::Floating,
        }),
{
    PinIoTypes {
        sck: sck_io_type(mode),
        mosi: PinIoType::PullUp,
        miso: PinIoType::OpenDrain,
        nss: PinIoType::Floating,
    }
}

impl SpiRegs {
    /// Set-up of a new SPI: without an NSS pin, slave select is managed in
    /// software (`SSM`) so that no mode fault arises; then the configuration
    /// is applied.
    pub fn setup(&mut self, config: &Config, has_nss: bool)
        ensures
            ({
                let ssm = if has_nss {
                    *old(self)
                } else {
                    SpiRegs { cr1: bit_write(old(self).cr1, 9, true), ..*old(self) }
                };
                *final(self) == (SpiRegs {
                    cr1: field_write(
                        bit_write(
                            bit_write(
                                bit_write(
                                    ssm.cr1,
                                    0,
                                    config.mode.phase == Phase::CaptureOnSecondTransition,
                                ),
                                1,
                                config.mode.polarity == Polarity::IdleHigh,
                            ),
                            7,
                            config.bit_order == BitOrder::LSB,
                        ),
                        3,
                        3,
                        config.baud_rate_div.spec_bits(),
                    ),
                    ..ssm
                })
            }),
    {
        if !has_nss {
            self.enable_soft_slave_management(true);
        }
        self.configure(config);
    }
}

/// Progress of a blocking master transfer of `len` frames.
#[derive(Debug, Clone, Copy, PartialEq, Eq, Structural)]
pub struct Transfer {
    len: usize,
    done: usize,
}

/// What the master does next in a transfer.
#[derive(Debug, Clone, Copy, PartialEq, Eq, Structural)]
pub enum TransferStep {
    /// Move frame `index` through the data register.
    Move(usize),
    /// The transfer failed.
    Failed(Error),
}

impl Transfer {
    pub closed spec fn spec_len(self) -> usize {
        self.len
    }

    pub closed spec fn spec_done(self) -> usize {
        self.done
    }

    #[verifier::type_invariant]
    spec fn inv(self) -> bool {
        self.done <= self.len
    }

    /// Starts a write of `len` bytes; without a MOSI pin the master cannot send.
    pub fn begin_write(has_mosi: bool, len: usize) -> (r: Result<Transfer, Error>)
        ensures
            !has_mosi ==> r == Err::<Transfer, Error>(Error::Write),
            has_mosi ==> (r matches Ok(t) && t.spec_len() == len && t.spec_done() == 0),
    {
        if !has_mosi {
            return Err(Error::Write);
        }
        Ok(Transfer { len, done: 0 })
    }

    /// Starts a read of `len` bytes; without a MISO pin the master cannot receive.
    pub fn begin_read(has_miso: bool, len: usize) -> (r: Result<Transfer, Error>)
        ensures
            !has_miso ==> r == Err::<Transfer, Error>(Error::Read),
            has_miso ==> (r matches Ok(t) && t.spec_len() == len && t.spec_done() == 0),
    {
        if !has_miso {
            return Err(Error::Read);
        }
        Ok(Transfer { len, done: 0 })
    }

    /// Frames still to move.
    pub fn is_pending(&self) -> (r: bool)
        ensures
            r == (self.spec_done() < self.spec_len()),
    {
        self.done < self.len
    }

    /// Frames moved so far; the transfer's result once nothing is pending.
    pub fn count(&self) -> (r: usize)
        ensures
            r == self.spec_done(),
    {
        self.done
    }

    /// Next step of a pending transfer, given whether the awaited buffer flag came in time.
    pub fn step(&mut self, ready: bool) -> (r: TransferStep)
        requires
            old(self).spec_done() < old(self).spec_len(),
        ensures
            ready ==> r == TransferStep::Move(old(self).spec_done()) && final(self).spec_done()
                == old(self).spec_done() + 1,
            !ready ==> r == TransferStep::Failed(Error::Timeout) && final(self).spec_done()
                == old(self).spec_done(),
            final(self).spec_len() == old(self).spec_len(),
    {
        if ready {
            let i = self.done;
            self.done = i + 1;
            TransferStep::Move(i)
        } else {
            TransferStep::Failed(Error::Timeout)
        }
    }
}

impl PeripheralInterrupt for Id {
    open spec fn spec_interrupt(&self) -> u16 {
        if *self == Id::SPI1 {
            25
        } else {
            26
        }
    }

    /// `SPI1` or `SPI2`.
    fn interrupt(&self) -> (r: u16) {
        if *self == Id::SPI1 {
            25
        } else {
            26
        }
    }
}

/// The baud-rate code `k` divides the APB clock by `2^(k+1)`, and each divider
/// is written as the code that decodes back to it.
pub proof fn law_baud_rate_codes(b: BaudRateDiv, code: u32)
    ensures
        BaudRateDiv::from_bits_spec(b.spec_bits()) == b,
        code <= 7 ==> BaudRateDiv::from_bits_spec(code).spec_div() == vstd::arithmetic::power2::pow2(
            (code + 1) as nat,
        ),
{
    vstd::arithmetic::power2::lemma2_to64();
}

} // verus!
