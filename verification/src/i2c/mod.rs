//! I2C: configuration, register operations and master transfer sequencing.
pub mod hal;
pub mod master;

use crate::clock::peripheral::{PeripheralClockIndex, PeripheralIdToClockIndex, PeripheralInterrupt};
use vstd::prelude::*;

verus! {

/// Fastest standard-mode bus clock: 100 kHz.
pub const SPEED_HZ_STAND: usize = 100_000;

/// Fastest fast-mode bus clock: 400 kHz.
pub const SPEED_HZ_FAST: usize = 400_000;

/// I2C instance.
#[derive(Debug, Clone, Copy, PartialEq, Eq, Structural)]
pub enum Id {
    I2c1,
}

impl PeripheralIdToClockIndex for Id {
    fn clock(&self) -> (r: PeripheralClockIndex)
        ensures
            r == PeripheralClockIndex::I2C,
    {
        match *self {
            Self::I2c1 => PeripheralClockIndex::I2C,
        }
    }
}

/// Master or slave role.
#[derive(Debug, Clone, Copy, PartialEq, Eq, Structural)]
pub enum Rule {
    Master,
    Slave,
}

/// I2C configuration and transfer errors.
#[derive(Debug, Clone, Copy, PartialEq, Eq, Structural)]
pub enum Error {
    Busy,
    PClock,
    SpeedMode,
    Start,
    Address,
    Stop,
    Tx,
    RX,
}

/// I2C configuration: the bus clock in Hz.
#[derive(Debug, Clone, Copy, PartialEq, Eq, Structural)]
pub struct Config {
    pub speed: usize,
}

impl Default for Config {
    fn default() -> (r: Self)
        ensures
            r.speed == 100_000,
    {
        Self { speed: 100_000 }
    }
}

impl Config {
    /// With another bus clock.
    pub fn speed(self, speed: usize) -> (r: Self)
        ensures
            r.speed == speed,
    {
        Self { speed }
    }
}

/// I2C events: status flags in `SR1`.
#[derive(Debug, Clone, Copy, PartialEq, Eq, Structural)]
pub enum Event {
    /// Start condition sent (master).
    SB,
    /// Address sent (master) or matched (slave).
    ADD,
    /// Stop received (slave).
    STOPF,
    /// Byte transfer finished.
    BTF,
    /// Receive buffer not empty.
    RXNE,
    /// Transmit buffer empty.
    TXE,
    /// Bus error.
    BERR,
    /// Arbitration lost (master).
    ARLO,
    /// Acknowledge failure.
    AF,
    /// Overrun or underrun.
    OVR,
    /// PEC error.
    PECERR,
}

impl Event {
    /// Bit position of the event's flag in `SR1`.
    pub open spec fn spec_bit(self) -> u32 {
        match self {
            Event::SB => 0,
            Event::ADD => 1,
            Event::BTF => 2,
            Event::STOPF => 4,
            Event::RXNE => 6,
            Event::TXE => 7,
            Event::BERR => 8,
            Event::ARLO => 9,
            Event::AF => 10,
            Event::OVR => 11,
            Event::PECERR => 12,
        }
    }

    /// Bit position in `CR2` of the interrupt enable covering the event.
    pub open spec fn spec_enable_bit(self) -> u32 {
        match self {
            Event::SB | Event::ADD | Event::STOPF | Event::BTF => 9,
            Event::RXNE | Event::TXE => 10,
            _ => 8,
        }
    }

    /// The error flags, which software clears by writing zero.
    pub open spec fn spec_is_error(self) -> bool {
        match self {
            Event::BERR | Event::ARLO | Event::AF | Event::OVR | Event::PECERR => true,
            _ => false,
        }
    }

    /// Bit position of the event's flag in `SR1`.
    pub fn bit(&self) -> (r: usize)
        ensures
            r == self.spec_bit(),
    {
        match *self {
            Event::SB => 0,
            Event::ADD => 1,
            Event::BTF => 2,
            Event::STOPF => 4,
            Event::RXNE => 6,
            Event::TXE => 7,
            Event::BERR => 8,
            Event::ARLO => 9,
            Event::AF => 10,
            Event::OVR => 11,
            Event::PECERR => 12,
        }
    }

    /// Bit position in `CR2` of the interrupt enable covering the event.
    pub fn enable_bit(&self) -> (r: usize)
        ensures
            r == self.spec_enable_bit(),
    {
        match *self {
            Event::SB | Event::ADD | Event::STOPF | Event::BTF => 9,
            Event::RXNE | Event::TXE => 10,
            _ => 8,
        }
    }

    /// Number of events.
    pub fn count() -> (r: usize)
        ensures
            r == 11,
    {
        11
    }
}

impl PeripheralInterrupt for Id {
    open spec fn spec_interrupt(&self) -> u16 {
        23
    }

    /// `I2C1`.
    fn interrupt(&self) -> (r: u16) {
        23
    }
}

} // verus!
