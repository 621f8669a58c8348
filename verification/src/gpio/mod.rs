//! General purpose input/output.
//!
//! The registers of a port are described by [`GpioRegs`]; pin operations compute
//! their new values.
pub mod hal;
pub mod types;

use crate::clock::peripheral::{PeripheralClockIndex, PeripheralIdToClockIndex};
use crate::clock::Rcc;
use crate::bit::{field_value, field_write};
use hal::valid_port_pin;
pub use types::{
    PinAF, PinIoType, PinLevel, PinLock, PinMode, PinOutputType, PinPullUpDown, PinSpeed,
};
use vstd::prelude::*;

verus! {

/// GPIO port.
#[derive(Debug, Clone, Copy, PartialEq, Eq, Structural)]
pub enum GpioPort {
    GPIOA,
    GPIOB,
    GPIOF,
}

impl GpioPort {
    pub open spec fn spec_index(self) -> u8 {
        match self {
            GpioPort::GPIOA => 0,
            GpioPort::GPIOB => 1,
            GpioPort::GPIOF => 2,
        }
    }

    pub open spec fn spec_clock(self) -> PeripheralClockIndex {
        match self {
            GpioPort::GPIOA => PeripheralClockIndex::GPIOA,
            GpioPort::GPIOB => PeripheralClockIndex::GPIOB,
            GpioPort::GPIOF => PeripheralClockIndex::GPIOF,
        }
    }

    /// Port number.
    pub fn index(&self) -> (r: u8)
        ensures
            r == self.spec_index(),
    {
        match *self {
            GpioPort::GPIOA => 0,
            GpioPort::GPIOB => 1,
            GpioPort::GPIOF => 2,
        }
    }

    /// The port with number `value` (below 3).
    pub fn from_index(value: usize) -> (r: Self)
        requires
            value < 3,
        ensures
            r.spec_index() == value,
    {
        match value {
            0 => GpioPort::GPIOA,
            1 => GpioPort::GPIOB,
            _ => GpioPort::GPIOF,
        }
    }

    /// Switches the port's clock on or off.
    pub fn enable(&self, rcc: &mut Rcc, en: bool)
        ensures
            *final(rcc) == self.spec_clock().spec_clock(*old(rcc), en),
    {
        self.clock().clock(rcc, en)
    }

    /// Requests a reset of the port.
    pub fn reset(&self, rcc: &mut Rcc)
        ensures
            *final(rcc) == self.spec_clock().spec_reset(*old(rcc)),
    {
        self.clock().reset(rcc)
    }
}

impl PeripheralIdToClockIndex for GpioPort {
    fn clock(&self) -> (r: PeripheralClockIndex)
        ensures
            r == self.spec_clock(),
    {
        match *self {
            GpioPort::GPIOA => PeripheralClockIndex::GPIOA,
            GpioPort::GPIOB => PeripheralClockIndex::GPIOB,
            GpioPort::GPIOF => PeripheralClockIndex::GPIOF,
        }
    }
}

/// Image of the registers of one GPIO port.
#[derive(Debug, Clone, Copy, PartialEq, Eq, Structural)]
pub struct GpioRegs {
    pub moder: u32,
    pub otyper: u32,
    pub ospeedr: u32,
    pub pupdr: u32,
    pub idr: u32,
    pub odr: u32,
    pub bsrr: u32,
    pub afrl: u32,
    pub afrh: u32,
    pub brr: u32,
}

impl GpioRegs {
    pub open spec fn spec_set_mode(self, pin: u32, mode: PinMode) -> GpioRegs {
        GpioRegs { moder: field_write(self.moder, (pin * 2) as u32, 2, mode.spec_bits()), ..self }
    }

    pub open spec fn spec_set_output_type(self, pin: u32, output_type: PinOutputType) -> GpioRegs {
        GpioRegs { otyper: field_write(self.otyper, pin, 1, output_type.spec_bits()), ..self }
    }

    pub open spec fn spec_set_push_pull(self, pin: u32, push_pull: PinPullUpDown) -> GpioRegs {
        GpioRegs { pupdr: field_write(self.pupdr, (pin * 2) as u32, 2, push_pull.spec_bits()), ..self }
    }

    pub open spec fn spec_set_io_type(self, pin: u32, io_type: PinIoType) -> GpioRegs {
        self.spec_set_push_pull(pin, io_type.spec_split().0).spec_set_output_type(
            pin,
            io_type.spec_split().1,
        )
    }

    pub open spec fn spec_write(self, pin: u32, level: PinLevel) -> GpioRegs {
        GpioRegs { odr: field_write(self.odr, pin, 1, level.spec_bits()), ..self }
    }

    pub open spec fn spec_set_af(self, pin: u32, af: PinAF) -> GpioRegs {
        if pin < 8 {
            GpioRegs { afrl: field_write(self.afrl, (pin * 4) as u32, 4, af.spec_bits()), ..self }
        } else {
            GpioRegs { afrh: field_write(self.afrh, ((pin - 8) * 4) as u32, 4, af.spec_bits()), ..self }
        }
    }

    pub open spec fn spec_set_speed(self, pin: u32, speed: PinSpeed) -> GpioRegs {
        GpioRegs { ospeedr: field_write(self.ospeedr, (pin * 2) as u32, 2, speed.spec_bits()), ..self }
    }
}

/// Any GPIO pin, identified by its port-and-pin code.
pub struct AnyPin {
    port_pin: u8,
}

impl AnyPin {
    #[verifier::type_invariant]
    spec fn inv(self) -> bool {
        valid_port_pin(self.port_pin)
    }

    pub closed spec fn spec_code(self) -> u8 {
        self.port_pin
    }

    /// The pin `pin` (below 16) of port `port`.
    pub fn steal(port: GpioPort, pin: u8) -> (r: Self)
        requires
            pin < 16,
        ensures
            r.spec_code() == port.spec_index() * 16 + pin,
    {
        let p = port.index();
        let port_pin = (p << 4) | pin;
        assert(port_pin == p * 16 + pin) by (bit_vector)
            requires
                p < 3,
                pin < 16,
                port_pin == (p << 4) | pin,
        ;
        Self { port_pin }
    }
}

impl hal::Pin for AnyPin {
    open spec fn spec_port_pin(&self) -> u8 {
        self.spec_code()
    }

    fn port_pin(&self) -> (r: u8) {
        proof {
            use_type_invariant(self);
        }
        self.port_pin
    }
}

/// A pin that can be turned into an [`AnyPin`].
pub trait Pin: hal::Pin + Sized {
    /// Forgets the pin's static identity.
    fn degrade(self) -> (r: AnyPin)
        ensures
            r.spec_code() == self.spec_port_pin(),
    ;
}

impl Pin for AnyPin {
    fn degrade(self) -> (r: AnyPin) {
        self
    }
}

/// A pin that can be configured in any mode.
pub struct Flex {
    pin: AnyPin,
}

impl Flex {
    pub closed spec fn spec_pin(self) -> u32 {
        (self.pin.spec_code() % 16) as u32
    }

    pub closed spec fn spec_port(self) -> u8 {
        self.pin.spec_code() / 16
    }

    /// Takes a pin.
    pub fn new<P: Pin>(pin: P) -> (r: Self)
        ensures
            r.spec_pin() == pin.spec_port_pin() % 16,
            r.spec_port() == pin.spec_port_pin() / 16,
    {
        Self { pin: pin.degrade() }
    }

    /// The pin's port.
    pub fn port(&self) -> (r: GpioPort)
        ensures
            r.spec_index() == self.spec_port(),
    {
        hal::Pin::port(&self.pin)
    }

    /// The pin number.
    pub fn pin(&self) -> (r: usize)
        ensures
            r == self.spec_pin(),
    {
        hal::Pin::pin(&self.pin)
    }

    /// Puts the pin into input mode.
    pub fn set_as_input(&self, regs: &mut GpioRegs, pull: PinPullUpDown, speed: PinSpeed)
        ensures
            *final(regs) == old(regs).spec_set_mode(self.spec_pin(), PinMode::Input).spec_set_push_pull(
                self.spec_pin(),
                pull,
            ).spec_set_speed(self.spec_pin(), speed),
    {
        hal::Pin::set_mode(&self.pin, regs, PinMode::Input);
        hal::Pin::set_push_pull(&self.pin, regs, pull);
        hal::Pin::set_speed(&self.pin, regs, speed);
    }

    /// Puts the pin into output mode.
    pub fn set_as_output(&self, regs: &mut GpioRegs, io_type: PinIoType, speed: PinSpeed)
        ensures
            *final(regs) == old(regs).spec_set_mode(self.spec_pin(), PinMode::Output).spec_set_io_type(
                self.spec_pin(),
                io_type,
            ).spec_set_speed(self.spec_pin(), speed),
    {
        hal::Pin::set_mode(&self.pin, regs, PinMode::Output);
        hal::Pin::set_io_type(&self.pin, regs, io_type);
        hal::Pin::set_speed(&self.pin, regs, speed);
    }

    /// Puts the pin into analog mode.
    pub fn set_as_analog(&self, regs: &mut GpioRegs)
        ensures
            *final(regs) == old(regs).spec_set_mode(self.spec_pin(), PinMode::Analog),
    {
        hal::Pin::set_mode(&self.pin, regs, PinMode::Analog);
    }

    /// Puts the pin into alternate function mode.
    pub fn set_as_af(&self, regs: &mut GpioRegs, af: PinAF, speed: PinSpeed, io_type: PinIoType)
        ensures
            *final(regs) == old(regs).spec_set_mode(self.spec_pin(), PinMode::Af).spec_set_af(
                self.spec_pin(),
                af,
            ).spec_set_speed(self.spec_pin(), speed).spec_set_io_type(self.spec_pin(), io_type),
    {
        hal::Pin::set_mode(&self.pin, regs, PinMode::Af);
        hal::Pin::set_af(&self.pin, regs, af);
        hal::Pin::set_speed(&self.pin, regs, speed);
        hal::Pin::set_io_type(&self.pin, regs, io_type);
    }

    /// Sets the internal pull-up or pull-down.
    pub fn set_push_pull(&self, regs: &mut GpioRegs, push_pull: PinPullUpDown)
        ensures
            *final(regs) == old(regs).spec_set_push_pull(self.spec_pin(), push_pull),
    {
        hal::Pin::set_push_pull(&self.pin, regs, push_pull);
    }

    /// Sets open-drain or push-pull output.
    pub fn set_open_drain(&self, regs: &mut GpioRegs, open_drain: PinOutputType)
        ensures
            *final(regs) == old(regs).spec_set_output_type(self.spec_pin(), open_drain),
    {
        hal::Pin::set_output_type(&self.pin, regs, open_drain);
    }

    /// Sets the I/O type.
    pub fn set_io_type(&self, regs: &mut GpioRegs, io_type: PinIoType)
        ensures
            *final(regs) == old(regs).spec_set_io_type(self.spec_pin(), io_type),
    {
        hal::Pin::set_io_type(&self.pin, regs, io_type)
    }

    /// Reads the input level.
    pub fn read(&self, regs: &GpioRegs) -> (r: PinLevel)
        ensures
            r.spec_bits() == field_value(regs.idr, self.spec_pin(), 1),
    {
        hal::Pin::read(&self.pin, regs)
    }

    /// Writes the output level.
    pub fn write(&self, regs: &mut GpioRegs, level: PinLevel)
        ensures
            *final(regs) == old(regs).spec_write(self.spec_pin(), level),
    {
        hal::Pin::write(&self.pin, regs, level)
    }
}

/// A pin built from a port and a pin number reports that port and pin number back.
pub proof fn law_port_pin_round_trip(port: GpioPort, pin: u8)
    requires
        pin < 16,
    ensures
        valid_port_pin((port.spec_index() * 16 + pin) as u8),
        ((port.spec_index() * 16 + pin) as u8) / 16 == port.spec_index(),
        ((port.spec_index() * 16 + pin) as u8) % 16 == pin,
{
}

/// The output data register holds the level last written to a pin.
pub proof fn law_write_then_output_level(regs: GpioRegs, pin: u32, level: PinLevel)
    requires
        pin < 16,
    ensures
        field_value(regs.spec_write(pin, level).odr, pin, 1) == level.spec_bits(),
{
    crate::bit::lemma_field_max_values();
    crate::bit::law_get_after_modify(regs.odr, pin, 1, level.spec_bits());
}

/// Changing the mode of one pin leaves the modes of the other pins of the port unchanged,
/// and the pin reads back the new mode.
pub proof fn law_set_mode_is_local(regs: GpioRegs, pin: u32, other: u32, mode: PinMode)
    requires
        pin < 16,
        other < 16,
        pin != other,
    ensures
        field_value(regs.spec_set_mode(pin, mode).moder, (pin * 2) as u32, 2) == mode.spec_bits(),
        field_value(regs.spec_set_mode(pin, mode).moder, (other * 2) as u32, 2) == field_value(
            regs.moder,
            (other * 2) as u32,
            2,
        ),
{
    crate::bit::lemma_field_max_values();
    crate::bit::law_get_after_modify(regs.moder, (pin * 2) as u32, 2, mode.spec_bits());
    crate::bit::law_modify_keeps_disjoint_field(
        regs.moder,
        (pin * 2) as u32,
        2,
        mode.spec_bits(),
        (other * 2) as u32,
        2,
    );
}

/// The alternate function register of a pin holds the function last selected for it.
pub proof fn law_set_af_read_back(regs: GpioRegs, pin: u32, af: PinAF)
    requires
        pin < 16,
    ensures
        pin < 8 ==> field_value(regs.spec_set_af(pin, af).afrl, (pin * 4) as u32, 4) == af.spec_bits(),
        pin >= 8 ==> field_value(regs.spec_set_af(pin, af).afrh, ((pin - 8) * 4) as u32, 4)
            == af.spec_bits(),
{
    crate::bit::lemma_field_max_values();
    if pin < 8 {
        crate::bit::law_get_after_modify(regs.afrl, (pin * 4) as u32, 4, af.spec_bits());
    } else {
        crate::bit::law_get_after_modify(regs.afrh, ((pin - 8) * 4) as u32, 4, af.spec_bits());
    }
}

/// Inverting a level twice gives it back.
pub proof fn law_level_not_involutive(level: PinLevel)
    ensures
        level.spec_not().spec_not() == level,
        level.spec_not() != level,
{
}

} // verus!
