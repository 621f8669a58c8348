//! DMA channels: configuration, start and stop, and event flags.
#![allow(non_snake_case)]

mod types;

use crate::bit::{law_get_after_modify, law_modify_keeps_disjoint_field, bit_write, field_max, field_value, field_write, lemma_field_max_values, bit_mask_idx_modify, read_flag, write_flag};
use crate::clock::peripheral::{PeripheralClockIndex, PeripheralIdToClockIndex, PeripheralInterrupt};
use vstd::prelude::*;

pub use types::{Burst, Direction, Error, Event, Priorities, RepeatMode};

verus! {

/// The DMA controller.
#[derive(Debug, Clone, Copy, PartialEq, Eq, Structural)]
pub enum Id {
    DMA,
}

impl PeripheralIdToClockIndex for Id {
    fn clock(&self) -> (r: PeripheralClockIndex)
        ensures
            r == PeripheralClockIndex::DMA,
    {
        match *self {
            Self::DMA => PeripheralClockIndex::DMA,
        }
    }
}

/// DMA channel.
#[derive(Debug, Clone, Copy, PartialEq, Eq, Structural)]
pub enum Channel {
    Channel1,
    Channel2,
    Channel3,
}

impl Channel {
    pub open spec fn spec_index(self) -> u32 {
        match self {
            Channel::Channel1 => 0,
            Channel::Channel2 => 1,
            Channel::Channel3 => 2,
        }
    }

    /// Channel number, counted from 0.
    pub fn index(&self) -> (r: usize)
        ensures
            r == self.spec_index(),
    {
        match *self {
            Channel::Channel1 => 0,
            Channel::Channel2 => 1,
            Channel::Channel3 => 2,
        }
    }
}

/// Settings of a transfer.
#[derive(Debug, Clone, Copy, PartialEq, Eq, Structural)]
pub struct Config {
    pub diretion: Direction,
    pub prioritie: Priorities,
    pub mode: RepeatMode,
    pub memInc: bool,
    pub periphInc: bool,
    pub periphDataSize: Burst,
    pub memDataSize: Burst,
    pub periphAddr: u32,
    pub memAddr: u32,
}

impl Config {
    /// A configuration from all of its settings.
    pub fn new(
        diretion: Direction,
        prioritie: Priorities,
        mode: RepeatMode,
        memInc: bool,
        periphInc: bool,
        periphDataSize: Burst,
        memDataSize: Burst,
        memAddr: u32,
        periphAddr: u32,
    ) -> (r: Self)
        ensures
            r == (Config {
                diretion,
                prioritie,
                mode,
                memInc,
                periphInc,
                periphDataSize,
                memDataSize,
                periphAddr,
                memAddr,
            }),
    {
        Config {
            diretion,
            prioritie,
            mode,
            memInc,
            periphInc,
            periphDataSize,
            memDataSize,
            memAddr,
            periphAddr,
        }
    }

    /// Memory to memory: the source takes the memory side, the destination
    /// the peripheral side, one width for both.
    pub fn new_mem2mem(
        src_addr: u32,
        src_inc: bool,
        dst_addr: u32,
        dst_inc: bool,
        priorite: Priorities,
        mode: RepeatMode,
        burst: Burst,
    ) -> (r: Self)
        ensures
            r == (Config {
                diretion: Direction::MemoryToMemory,
                prioritie: priorite,
                mode,
                memInc: src_inc,
                periphInc: dst_inc,
                periphDataSize: burst,
                memDataSize: burst,
                periphAddr: dst_addr,
                memAddr: src_addr,
            }),
    {
        Self::new(
            Direction::MemoryToMemory,
            priorite,
            mode,
            src_inc,
            dst_inc,
            burst,
            burst,
            src_addr,
            dst_addr,
        )
    }

    /// Memory to peripheral: the source is memory, the destination the peripheral.
    pub fn new_mem2periph(
        src_addr: u32,
        src_inc: bool,
        src_burst: Burst,
        dst_addr: u32,
        dst_inc: bool,
        dst_burst: Burst,
        priorite: Priorities,
        mode: RepeatMode,
    ) -> (r: Config)
        ensures
            r == (Config {
                diretion: Direction::MemoryToPeriph,
                prioritie: priorite,
                mode,
                memInc: src_inc,
                periphInc: dst_inc,
                periphDataSize: dst_burst,
                memDataSize: src_burst,
                periphAddr: dst_addr,
                memAddr: src_addr,
            }),
    {
        Self::new(
            Direction::MemoryToPeriph,
            priorite,
            mode,
            src_inc,
            dst_inc,
            dst_burst,
            src_burst,
            src_addr,
            dst_addr,
        )
    }

    /// Peripheral to memory: the source is the peripheral, the destination memory.
    pub fn new_periph2mem(
        src_addr: u32,
        src_inc: bool,
        src_burst: Burst,
        dst_addr: u32,
        dst_inc: bool,
        burst: Burst,
        priorite: Priorities,
        mode: RepeatMode,
    ) -> (r: Config)
        ensures
            r == (Config {
                diretion: Direction::PeriphToMemory,
                prioritie: priorite,
                mode,
                memInc: dst_inc,
                periphInc: src_inc,
                periphDataSize: src_burst,
                memDataSize: burst,
                periphAddr: src_addr,
                memAddr: dst_addr,
            }),
    {
        Config {
            diretion: Direction::PeriphToMemory,
            prioritie: priorite,
            mode,
            memDataSize: burst,
            periphDataSize: src_burst,
            memAddr: dst_addr,
            periphAddr: src_addr,
            memInc: dst_inc,
            periphInc: src_inc,
        }
    }
}

/// `CCR.EN`.
pub const CCR_EN: usize = 0;

/// `CCR.TCIE`.
pub const CCR_TCIE: usize = 1;

/// `CCR.HTIE`.
pub const CCR_HTIE: usize = 2;

/// `CCR.TEIE`.
pub const CCR_TEIE: usize = 3;

/// `CCR.DIR`: read from memory.
pub const CCR_DIR: usize = 4;

/// `CCR.CIRC`: circular mode.
pub const CCR_CIRC: usize = 5;

/// `CCR.PINC`.
pub const CCR_PINC: usize = 6;

/// `CCR.MINC`.
pub const CCR_MINC: usize = 7;

/// `CCR.PSIZE`, two bits.
pub const CCR_PSIZE: usize = 8;

/// `CCR.MSIZE`, two bits.
pub const CCR_MSIZE: usize = 10;

/// `CCR.PL`, two bits.
pub const CCR_PL: usize = 12;

/// `CCR.MEM2MEM`.
pub const CCR_MEM2MEM: usize = 14;

/// Registers of one channel.
#[derive(Debug, Clone, Copy, PartialEq, Eq, Structural)]
pub struct ChannelRegs {
    pub ccr: u32,
    pub cndtr: u32,
    pub cpar: u32,
    pub cmar: u32,
}

/// `CCR` after the settings of `c` are written over `ccr` (enable bit cleared first).
pub open spec fn spec_config_ccr(ccr: u32, c: Config) -> u32 {
    let disabled = bit_write(ccr, CCR_EN as u32, false);
    let a = bit_write(disabled, CCR_MEM2MEM as u32, c.diretion == Direction::MemoryToMemory);
    let b = field_write(a, CCR_PL as u32, 2, c.prioritie.spec_bits());
    let d = field_write(b, CCR_MSIZE as u32, 2, c.memDataSize.spec_bits());
    let e = field_write(d, CCR_PSIZE as u32, 2, c.periphDataSize.spec_bits());
    let f = bit_write(e, CCR_MINC as u32, c.memInc);
    let g = bit_write(f, CCR_PINC as u32, c.periphInc);
    let h = bit_write(g, CCR_DIR as u32, c.diretion != Direction::PeriphToMemory);
    bit_write(
        h,
        CCR_CIRC as u32,
        match c.mode {
            RepeatMode::Repeat(_) => true,
            RepeatMode::OneTime(_) => false,
        },
    )
}

/// Transfer count of a repeat mode.
pub open spec fn spec_count(m: RepeatMode) -> u32 {
    match m {
        RepeatMode::OneTime(n) => n as u32,
        RepeatMode::Repeat(n) => n as u32,
    }
}

/// Channel registers after `c` is written: `CCR` as above, the peripheral
/// address in `CPAR`, the memory address in `CMAR`, and the count in `CNDTR`.
pub open spec fn spec_config(r: ChannelRegs, c: Config) -> ChannelRegs {
    ChannelRegs {
        ccr: spec_config_ccr(r.ccr, c),
        cndtr: field_write(r.cndtr, 0, 16, spec_count(c.mode)),
        cpar: c.periphAddr,
        cmar: c.memAddr,
    }
}

/// `CCR` with the channel started (`en`) or stopped.
pub fn enable(ccr: u32, en: bool) -> (r: u32)
    ensures
        r == bit_write(ccr, CCR_EN as u32, en),
{
    write_flag(ccr, CCR_EN, en)
}

/// Writes the settings `c` to the registers of `channel`. Only the first
/// channel can be configured.
pub fn config(channel: Channel, regs: &mut ChannelRegs, c: Config)
    requires
        channel == Channel::Channel1,
    ensures
        *final(regs) == spec_config(*old(regs), c),
{
    proof {
        lemma_field_max_values();
    }
    let disabled = enable(regs.ccr, false);
    let a = write_flag(disabled, CCR_MEM2MEM, c.diretion == Direction::MemoryToMemory);
    let b = bit_mask_idx_modify::<2>(CCR_PL, a, c.prioritie.bits());
    let d = bit_mask_idx_modify::<2>(CCR_MSIZE, b, c.memDataSize.bits());
    let e = bit_mask_idx_modify::<2>(CCR_PSIZE, d, c.periphDataSize.bits());
    let f = write_flag(e, CCR_MINC, c.memInc);
    let g = write_flag(f, CCR_PINC, c.periphInc);
    let h = write_flag(g, CCR_DIR, c.diretion != Direction::PeriphToMemory);
    regs.cpar = c.periphAddr;
    regs.cmar = c.memAddr;
    match c.mode {
        RepeatMode::OneTime(cnt) => {
            regs.ccr = write_flag(h, CCR_CIRC, false);
            regs.cndtr = bit_mask_idx_modify::<16>(0, regs.cndtr, cnt as u32);
        },
        RepeatMode::Repeat(cnt) => {
            regs.ccr = write_flag(h, CCR_CIRC, true);
            regs.cndtr = bit_mask_idx_modify::<16>(0, regs.cndtr, cnt as u32);
        },
    }
}

/// Transfers left, from a `CNDTR` value (its low 16 bits).
pub fn remain_count(cndtr: u32) -> (r: u16)
    ensures
        r == cndtr % 0x10000,
{
    (cndtr % 0x10000) as u16
}

/// Position of the flag of `event` of `channel` in `ISR` and `IFCR`.
pub open spec fn flag_pos(channel: Channel, event: Event) -> u32 {
    (event.spec_index() + 4 * channel.spec_index()) as u32
}

/// `IFCR` value that clears the flag of `event` on `channel`.
pub fn event_clear(channel: Channel, event: Event) -> (r: u32)
    ensures
        r == 1u32 << flag_pos(channel, event),
{
    let e = event.index();
    let c = channel.index() as u32;
    let pos = e + 4 * c;
    assert(pos < 12);
    proof {
        assert((1u32 << e) << (4 * c) == 1u32 << (e + 4 * c)) by (bit_vector)
            requires
                e < 4,
                c < 3,
        ;
    }
    (1u32 << e) << (4 * c)
}

/// Bit `bit` of `v`: `v & (1 << bit) != 0`.
pub open spec fn has_bit(v: u32, bit: u32) -> bool {
    v & (1u32 << bit) != 0
}

/// Whether `ISR` shows `event` on `channel`. The bit tested is the event's
/// number shifted left by four times the channel number, so only the first
/// channel, and `GIF` on any channel, test their own flag.
pub fn event_flag(isr: u32, channel: Channel, event: Event) -> (r: bool)
    requires
        event.spec_index() << ((4 * channel.spec_index()) as u32) < 32,
    ensures
        r == has_bit(isr, event.spec_index() << ((4 * channel.spec_index()) as u32)),
{
    let e = event.index();
    let c = channel.index() as u32;
    let bit = e << (4 * c);
    isr & (1u32 << bit) != 0
}

/// `CCR` enable bit of `event`'s own interrupt: transfer complete for `TCIF`,
/// half transfer for `HTIF`, transfer error for `TEIF`, none for `GIF`.
pub open spec fn event_enable_bit(event: Event) -> Option<usize> {
    match event {
        Event::GIF => None,
        Event::HTIF => Some(CCR_HTIE),
        Event::TCIF => Some(CCR_TCIE),
        Event::TEIF => Some(CCR_TEIE),
    }
}

/// `CCR` with the interrupt of `event` enabled (`en`) or disabled.
pub fn event_config(ccr: u32, event: Event, en: bool) -> (r: u32)
    ensures
        r == (match event_enable_bit(event) {
            Some(b) => bit_write(ccr, b as u32, en),
            None => ccr,
        }),
{
    match event {
        Event::GIF => ccr,
        Event::HTIF => write_flag(ccr, CCR_HTIE, en),
        Event::TCIF => write_flag(ccr, CCR_TCIE, en),
        Event::TEIF => write_flag(ccr, CCR_TEIE, en),
    }
}

/// Whether `CCR` enables the interrupt of `event` (never for `GIF`).
pub fn is_event_enable(ccr: u32, event: Event) -> (r: bool)
    ensures
        r == (match event {
            Event::GIF => false,
            Event::HTIF => field_value(ccr, CCR_HTIE as u32, 1) == 1,
            Event::TCIF => field_value(ccr, CCR_TCIE as u32, 1) == 1,
            Event::TEIF => field_value(ccr, CCR_TEIE as u32, 1) == 1,
        }),
{
    match event {
        Event::GIF => false,
        Event::HTIF => read_flag(ccr, CCR_HTIE),
        Event::TCIF => read_flag(ccr, CCR_TCIE),
        Event::TEIF => read_flag(ccr, CCR_TEIE),
    }
}

/// What one poll of a blocking wait decides.
#[derive(Debug, Clone, Copy, PartialEq, Eq, Structural)]
pub enum WaitStep {
    /// The awaited event happened: clear its flag and succeed.
    Done,
    /// A transfer error happened: clear its flag and fail.
    Failed,
    /// Neither: poll again.
    Pending,
}

/// One poll of a wait for `event` on `channel`, given the `ISR` value read:
/// the awaited flag wins, then the error flag.
pub open spec fn spec_wait_step(isr: u32, channel: Channel, event: Event) -> WaitStep {
    if has_bit(isr, event.spec_index() << ((4 * channel.spec_index()) as u32)) {
        WaitStep::Done
    } else if has_bit(isr, Event::TEIF.spec_index() << ((4 * channel.spec_index()) as u32)) {
        WaitStep::Failed
    } else {
        WaitStep::Pending
    }
}

/// One poll of a blocking wait for `event` (transfer complete or half
/// transfer) on `channel`. The flags tested are those `event_flag` tests, so
/// the bit positions must lie in the register: the awaited event's always, the
/// error flag's whenever the awaited one is not set.
pub fn wait_step(isr: u32, channel: Channel, event: Event) -> (r: WaitStep)
    requires
        event.spec_index() << ((4 * channel.spec_index()) as u32) < 32,
        !has_bit(isr, event.spec_index() << ((4 * channel.spec_index()) as u32))
            ==> Event::TEIF.spec_index() << ((4 * channel.spec_index()) as u32) < 32,
    ensures
        r == spec_wait_step(isr, channel, event),
{
    if event_flag(isr, channel, event) {
        WaitStep::Done
    } else if event_flag(isr, channel, Event::TEIF) {
        WaitStep::Failed
    } else {
        WaitStep::Pending
    }
}

/// Switching an event's interrupt reads back: after `event_config(ccr, e, en)`,
/// `is_event_enable` answers `en` for `e` (any event but `GIF`), and the enables
/// of the other two events keep their values.
pub proof fn law_event_config_read_back(ccr: u32, e: Event, other: Event, en: bool)
    requires
        e != Event::GIF,
        other != Event::GIF,
        other != e,
    ensures
        ({
            let b = event_enable_bit(e)->0 as u32;
            let ob = event_enable_bit(other)->0 as u32;
            let after = bit_write(ccr, b, en);
            &&& (field_value(after, b, 1) == 1) == en
            &&& field_value(after, ob, 1) == field_value(ccr, ob, 1)
        }),
{
    lemma_field_max_values();
    let b = event_enable_bit(e)->0 as u32;
    let ob = event_enable_bit(other)->0 as u32;
    let v: u32 = if en { 1 } else { 0 };
    law_get_after_modify(ccr, b, 1, v);
    law_modify_keeps_disjoint_field(ccr, b, 1, v, ob, 1);
}

impl PeripheralInterrupt for Channel {
    open spec fn spec_interrupt(&self) -> u16 {
        if *self == Channel::Channel1 {
            9
        } else {
            10
        }
    }

    /// `DMA_CHANNEL1`, or `DMA_CHANNEL2_3` shared by the other two.
    fn interrupt(&self) -> (r: u16) {
        if *self == Channel::Channel1 {
            9
        } else {
            10
        }
    }
}

} // verus!
