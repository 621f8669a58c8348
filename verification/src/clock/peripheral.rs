//! Peripheral clock gating and reset.
use super::Rcc;
use crate::bit::{bit_mask_idx_get, bit_mask_idx_modify, bit_mask_idx_set, field_max, field_value, field_write};
use vstd::prelude::*;

verus! {

/// A peripheral's position in the RCC enable and reset registers.
#[derive(Debug, Clone, Copy, PartialEq, Eq, Structural)]
pub enum PeripheralClockIndex {
    DMA,
    FLASH,
    SRAM,
    CRC,
    TIM3,
    RTCAPB,
    WWDG,
    SPI2,
    UART2,
    I2C,
    DBG,
    PWR,
    LPTIM,
    SYSCFG,
    TIM1,
    SPI1,
    USART1,
    TIM14,
    TIM16,
    TIM17,
    ADC,
    COMP1,
    COMP2,
    LED,
    GPIOA,
    GPIOB,
    GPIOF,
}

/// Enable register of a bank: 0 AHB, 1 APB1, 2 APB2, 3 I/O ports.
pub open spec fn enable_register(rcc: Rcc, bank: u32) -> u32 {
    if bank == 0 {
        rcc.ahbenr
    } else if bank == 1 {
        rcc.apbenr1
    } else if bank == 2 {
        rcc.apbenr2
    } else {
        rcc.iopenr
    }
}

/// `rcc` with the enable register of `bank` replaced by `v`.
pub open spec fn with_enable_register(rcc: Rcc, bank: u32, v: u32) -> Rcc {
    if bank == 0 {
        Rcc { ahbenr: v, ..rcc }
    } else if bank == 1 {
        Rcc { apbenr1: v, ..rcc }
    } else if bank == 2 {
        Rcc { apbenr2: v, ..rcc }
    } else {
        Rcc { iopenr: v, ..rcc }
    }
}

/// Reset register of a bank: 0 AHB, 1 APB1, 2 APB2, 3 I/O ports.
pub open spec fn reset_register(rcc: Rcc, bank: u32) -> u32 {
    if bank == 0 {
        rcc.ahbrstr
    } else if bank == 1 {
        rcc.apbrstr1
    } else if bank == 2 {
        rcc.apbrstr2
    } else {
        rcc.ioprstr
    }
}

/// `rcc` with the reset register of `bank` replaced by `v`.
pub open spec fn with_reset_register(rcc: Rcc, bank: u32, v: u32) -> Rcc {
    if bank == 0 {
        Rcc { ahbrstr: v, ..rcc }
    } else if bank == 1 {
        Rcc { apbrstr1: v, ..rcc }
    } else if bank == 2 {
        Rcc { apbrstr2: v, ..rcc }
    } else {
        Rcc { ioprstr: v, ..rcc }
    }
}

impl PeripheralClockIndex {
    /// Position: 32 times the bank plus the bit within the bank's register.
    pub open spec fn spec_index(self) -> u32 {
        match self {
            PeripheralClockIndex::DMA => 0,
            PeripheralClockIndex::FLASH => 8,
            PeripheralClockIndex::SRAM => 9,
            PeripheralClockIndex::CRC => 12,
            PeripheralClockIndex::TIM3 => 33,
            PeripheralClockIndex::RTCAPB => 42,
            PeripheralClockIndex::WWDG => 43,
            PeripheralClockIndex::SPI2 => 46,
            PeripheralClockIndex::UART2 => 49,
            PeripheralClockIndex::I2C => 53,
            PeripheralClockIndex::DBG => 59,
            PeripheralClockIndex::PWR => 60,
            PeripheralClockIndex::LPTIM => 63,
            PeripheralClockIndex::SYSCFG => 64,
            PeripheralClockIndex::TIM1 => 75,
            PeripheralClockIndex::SPI1 => 76,
            PeripheralClockIndex::USART1 => 78,
            PeripheralClockIndex::TIM14 => 79,
            PeripheralClockIndex::TIM16 => 81,
            PeripheralClockIndex::TIM17 => 82,
            PeripheralClockIndex::ADC => 84,
            PeripheralClockIndex::COMP1 => 85,
            PeripheralClockIndex::COMP2 => 86,
            PeripheralClockIndex::LED => 87,
            PeripheralClockIndex::GPIOA => 96,
            PeripheralClockIndex::GPIOB => 97,
            PeripheralClockIndex::GPIOF => 101,
        }
    }

    pub open spec fn spec_bank(self) -> u32 {
        self.spec_index() / 32
    }

    pub open spec fn spec_bit(self) -> u32 {
        self.spec_index() % 32
    }

    /// The peripheral's clock is enabled in these register values.
    pub open spec fn spec_is_open(self, rcc: Rcc) -> bool {
        field_value(enable_register(rcc, self.spec_bank()), self.spec_bit(), 1) == 1
    }

    /// Register values after switching the peripheral's clock on or off.
    pub open spec fn spec_clock(self, rcc: Rcc, en: bool) -> Rcc {
        with_enable_register(
            rcc,
            self.spec_bank(),
            field_write(
                enable_register(rcc, self.spec_bank()),
                self.spec_bit(),
                1,
                if en {
                    1
                } else {
                    0
                },
            ),
        )
    }

    /// Register values after requesting the peripheral's reset.
    pub open spec fn spec_reset(self, rcc: Rcc) -> Rcc {
        with_reset_register(
            rcc,
            self.spec_bank(),
            field_write(reset_register(rcc, self.spec_bank()), self.spec_bit(), 1, field_max(1)),
        )
    }

    /// Position of the peripheral: 32 times the bank plus the bit.
    pub fn index(&self) -> (r: usize)
        ensures
            r == self.spec_index(),
    {
        match *self {
            PeripheralClockIndex::DMA => 0,
            PeripheralClockIndex::FLASH => 8,
            PeripheralClockIndex::SRAM => 9,
            PeripheralClockIndex::CRC => 12,
            PeripheralClockIndex::TIM3 => 32 + 1,
            PeripheralClockIndex::RTCAPB => 32 + 10,
            PeripheralClockIndex::WWDG => 32 + 11,
            PeripheralClockIndex::SPI2 => 32 + 14,
            PeripheralClockIndex::UART2 => 32 + 17,
            PeripheralClockIndex::I2C => 21 + 32,
            PeripheralClockIndex::DBG => 27 + 32,
            PeripheralClockIndex::PWR => 28 + 32,
            PeripheralClockIndex::LPTIM => 31 + 32,
            PeripheralClockIndex::SYSCFG => 64,
            PeripheralClockIndex::TIM1 => 11 + 64,
            PeripheralClockIndex::SPI1 => 12 + 64,
            PeripheralClockIndex::USART1 => 14 + 64,
            PeripheralClockIndex::TIM14 => 15 + 64,
            PeripheralClockIndex::TIM16 => 17 + 64,
            PeripheralClockIndex::TIM17 => 18 + 64,
            PeripheralClockIndex::ADC => 20 + 64,
            PeripheralClockIndex::COMP1 => 21 + 64,
            PeripheralClockIndex::COMP2 => 22 + 64,
            PeripheralClockIndex::LED => 23 + 64,
            PeripheralClockIndex::GPIOA => 96,
            PeripheralClockIndex::GPIOB => 1 + 96,
            PeripheralClockIndex::GPIOF => 5 + 96,
        }
    }

    /// Whether the peripheral's clock is enabled.
    pub fn is_open(&self, rcc: &Rcc) -> (r: bool)
        ensures
            r == self.spec_is_open(*rcc),
    {
        let idx = self.index();
        proof {
            crate::bit::lemma_field_max_values();
            crate::bit::lemma_field_value_bound(enable_register(*rcc, self.spec_bank()), self.spec_bit(), 1);
        }
        if idx < 32 {
            bit_mask_idx_get::<1>(idx, rcc.ahbenr) != 0
        } else if idx < 64 {
            bit_mask_idx_get::<1>(idx - 32, rcc.apbenr1) != 0
        } else if idx < 96 {
            bit_mask_idx_get::<1>(idx - 64, rcc.apbenr2) != 0
        } else {
            bit_mask_idx_get::<1>(idx - 96, rcc.iopenr) != 0
        }
    }

    /// Switches the peripheral's clock on or off.
    pub fn clock(&self, rcc: &mut Rcc, en: bool)
        ensures
            *final(rcc) == self.spec_clock(*old(rcc), en),
    {
        proof {
            crate::bit::lemma_field_max_values();
        }
        let idx = self.index();
        let v: u32 = if en {
            1
        } else {
            0
        };
        if idx < 32 {
            rcc.ahbenr = bit_mask_idx_modify::<1>(idx, rcc.ahbenr, v);
        } else if idx < 64 {
            rcc.apbenr1 = bit_mask_idx_modify::<1>(idx - 32, rcc.apbenr1, v);
        } else if idx < 96 {
            rcc.apbenr2 = bit_mask_idx_modify::<1>(idx - 64, rcc.apbenr2, v);
        } else {
            rcc.iopenr = bit_mask_idx_modify::<1>(idx - 96, rcc.iopenr, v);
        }
    }

    /// Switches the peripheral's clock off.
    pub fn close(&self, rcc: &mut Rcc)
        ensures
            *final(rcc) == self.spec_clock(*old(rcc), false),
    {
        self.clock(rcc, false);
    }

    /// Switches the peripheral's clock on.
    pub fn open(&self, rcc: &mut Rcc)
        ensures
            *final(rcc) == self.spec_clock(*old(rcc), true),
    {
        self.clock(rcc, true);
    }

    /// Requests a reset of the peripheral. The flash and SRAM cannot be reset.
    pub fn reset(&self, rcc: &mut Rcc)
        requires
            *self != PeripheralClockIndex::FLASH,
            *self != PeripheralClockIndex::SRAM,
        ensures
            *final(rcc) == self.spec_reset(*old(rcc)),
    {
        let idx = self.index();
        if idx < 32 {
            rcc.ahbrstr = bit_mask_idx_set::<1>(idx, rcc.ahbrstr);
        } else if idx < 64 {
            rcc.apbrstr1 = bit_mask_idx_set::<1>(idx - 32, rcc.apbrstr1);
        } else if idx < 96 {
            rcc.apbrstr2 = bit_mask_idx_set::<1>(idx - 64, rcc.apbrstr2);
        } else {
            rcc.ioprstr = bit_mask_idx_set::<1>(idx - 96, rcc.ioprstr);
        }
    }
}

/// A peripheral identifier that knows its clock gate.
pub trait PeripheralIdToClockIndex {
    fn clock(&self) -> PeripheralClockIndex;
}

/// A peripheral (or part of one) with an interrupt line.
pub trait PeripheralInterrupt {
    /// Number of the interrupt line.
    spec fn spec_interrupt(&self) -> u16;

    /// Number of the interrupt line in the interrupt controller.
    fn interrupt(&self) -> (r: u16)
        ensures
            r == self.spec_interrupt(),
    ;
}

/// After switching a peripheral's clock on or off, it reads back as switched.
pub proof fn law_clock_then_is_open(p: PeripheralClockIndex, rcc: Rcc, en: bool)
    ensures
        p.spec_is_open(p.spec_clock(rcc, en)) == en,
{
    crate::bit::lemma_field_max_values();
    let v: u32 = if en {
        1
    } else {
        0
    };
    crate::bit::law_get_after_modify(enable_register(rcc, p.spec_bank()), p.spec_bit(), 1, v);
}

/// Switching one peripheral's clock leaves every other peripheral's clock as it was.
pub proof fn law_clock_keeps_other_peripherals(
    p: PeripheralClockIndex,
    q: PeripheralClockIndex,
    rcc: Rcc,
    en: bool,
)
    requires
        p != q,
    ensures
        q.spec_is_open(p.spec_clock(rcc, en)) == q.spec_is_open(rcc),
{
    crate::bit::lemma_field_max_values();
    let v: u32 = if en {
        1
    } else {
        0
    };
    assert(p.spec_index() != q.spec_index());
    if p.spec_bank() == q.spec_bank() {
        crate::bit::law_modify_keeps_disjoint_field(
            enable_register(rcc, p.spec_bank()),
            p.spec_bit(),
            1,
            v,
            q.spec_bit(),
            1,
        );
    }
}

/// Resetting a peripheral leaves every clock enable as it was.
pub proof fn law_reset_keeps_clocks(p: PeripheralClockIndex, q: PeripheralClockIndex, rcc: Rcc)
    ensures
        q.spec_is_open(p.spec_reset(rcc)) == q.spec_is_open(rcc),
{
}

} // verus!
