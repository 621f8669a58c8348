//! Register operations on a single GPIO pin.
use super::{GpioPort, GpioRegs, PinAF, PinIoType, PinLevel, PinMode, PinOutputType, PinPullUpDown, PinSpeed};
use crate::bit::{bit_mask_idx, bit_mask_idx_get, bit_mask_idx_modify, field_max, field_value, field_write};
use vstd::prelude::*;

verus! {

/// A port-and-pin code: port number in the high nibble (below 3), pin in the low nibble.
pub open spec fn valid_port_pin(port_pin: u8) -> bool {
    port_pin < 48
}

/// A GPIO pin addressed by its port-and-pin code.
pub trait Pin {
    spec fn spec_port_pin(&self) -> u8;

    /// Port number in the high nibble, pin number in the low nibble.
    fn port_pin(&self) -> (r: u8)
        ensures
            r == self.spec_port_pin(),
            valid_port_pin(r),
    ;

    /// The port of the pin.
    fn port(&self) -> (r: GpioPort)
        ensures
            r.spec_index() == self.spec_port_pin() / 16,
    {
        let port_pin = self.port_pin();
        proof {
            crate::bit::lemma_nibbles(port_pin);
        }
        let port = (port_pin >> 4) as usize;
        GpioPort::from_index(port)
    }

    /// The pin number within its port (0 to 15).
    fn pin(&self) -> (r: usize)
        ensures
            r == self.spec_port_pin() % 16,
    {
        let port_pin = self.port_pin();
        proof {
            crate::bit::lemma_nibbles(port_pin);
        }
        (port_pin & 0x0f) as usize
    }

    /// Sets the pin mode.
    fn set_mode(&self, regs: &mut GpioRegs, mode: PinMode)
        ensures
            *final(regs) == old(regs).spec_set_mode((self.spec_port_pin() % 16) as u32, mode),
    {
        proof {
            crate::bit::lemma_field_max_values();
        }
        let pin = self.pin();
        regs.moder = bit_mask_idx_modify::<2>(pin * 2, regs.moder, mode.bits());
    }

    /// Sets the output driver type.
    fn set_output_type(&self, regs: &mut GpioRegs, output_type: PinOutputType)
        ensures
            *final(regs) == old(regs).spec_set_output_type(
                (self.spec_port_pin() % 16) as u32,
                output_type,
            ),
    {
        proof {
            crate::bit::lemma_field_max_values();
        }
        let pin = self.pin();
        regs.otyper = bit_mask_idx_modify::<1>(pin, regs.otyper, output_type.bits());
    }

    /// Sets the pull configuration and driver type of an I/O type.
    fn set_io_type(&self, regs: &mut GpioRegs, io_type: PinIoType)
        ensures
            *final(regs) == old(regs).spec_set_io_type((self.spec_port_pin() % 16) as u32, io_type),
    {
        let (pushpull, output_type) = io_type.split();
        self.set_push_pull(regs, pushpull);
        self.set_output_type(regs, output_type)
    }

    /// Sets the internal pull-up or pull-down.
    fn set_push_pull(&self, regs: &mut GpioRegs, push_pull: PinPullUpDown)
        ensures
            *final(regs) == old(regs).spec_set_push_pull(
                (self.spec_port_pin() % 16) as u32,
                push_pull,
            ),
    {
        proof {
            crate::bit::lemma_field_max_values();
        }
        let pin = self.pin();
        regs.pupdr = bit_mask_idx_modify::<2>(pin * 2, regs.pupdr, push_pull.bits());
    }

    /// The input level of the pin.
    fn read(&self, regs: &GpioRegs) -> (r: PinLevel)
        ensures
            r.spec_bits() == field_value(regs.idr, (self.spec_port_pin() % 16) as u32, 1),
    {
        proof {
            crate::bit::lemma_field_max_values();
            crate::bit::lemma_field_value_bound(regs.idr, (self.spec_port_pin() % 16) as u32, 1);
        }
        let r = bit_mask_idx_get::<1>(self.pin(), regs.idr);
        PinLevel::from_bits(r)
    }

    /// Sets the output level of the pin.
    fn write(&self, regs: &mut GpioRegs, level: PinLevel)
        ensures
            *final(regs) == old(regs).spec_write((self.spec_port_pin() % 16) as u32, level),
    {
        proof {
            crate::bit::lemma_field_max_values();
        }
        regs.odr = bit_mask_idx_modify::<1>(self.pin(), regs.odr, level.bits());
    }

    /// Selects the alternate function of the pin.
    fn set_af(&self, regs: &mut GpioRegs, af: PinAF)
        ensures
            *final(regs) == old(regs).spec_set_af((self.spec_port_pin() % 16) as u32, af),
    {
        proof {
            crate::bit::lemma_field_max_values();
        }
        let pin = self.pin();
        if pin < 8 {
            regs.afrl = bit_mask_idx_modify::<4>(pin * 4, regs.afrl, af.bits());
        } else {
            regs.afrh = bit_mask_idx_modify::<4>((pin - 8) * 4, regs.afrh, af.bits());
        }
    }

    /// Drives the pin low through the bit set/reset register.
    fn clear(&self, regs: &mut GpioRegs)
        ensures
            *final(regs) == (GpioRegs {
                bsrr: field_max(1) << ((self.spec_port_pin() % 16) as u32 + 16),
                ..*old(regs)
            }),
    {
        regs.bsrr = bit_mask_idx::<1>(self.pin() + 16);
    }

    /// Drives the pin high through the bit set/reset register.
    fn set(&self, regs: &mut GpioRegs)
        ensures
            *final(regs) == (GpioRegs {
                bsrr: field_max(1) << ((self.spec_port_pin() % 16) as u32),
                ..*old(regs)
            }),
    {
        regs.bsrr = bit_mask_idx::<1>(self.pin());
    }

    /// Drives the pin low through the bit reset register.
    fn reset(&self, regs: &mut GpioRegs)
        ensures
            *final(regs) == (GpioRegs {
                brr: field_max(1) << ((self.spec_port_pin() % 16) as u32),
                ..*old(regs)
            }),
    {
        regs.brr = bit_mask_idx::<1>(self.pin());
    }

    /// Sets the output speed.
    fn set_speed(&self, regs: &mut GpioRegs, speed: PinSpeed)
        ensures
            *final(regs) == old(regs).spec_set_speed((self.spec_port_pin() % 16) as u32, speed),
    {
        proof {
            crate::bit::lemma_field_max_values();
        }
        let pin = self.pin();
        regs.ospeedr = bit_mask_idx_modify::<2>(pin * 2, regs.ospeedr, speed.bits());
    }
}

} // verus!
