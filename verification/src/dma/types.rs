//! Settings and events of a DMA channel.
use vstd::prelude::*;

verus! {

/// Direction of a transfer.
#[derive(Debug, Clone, Copy, PartialEq, Eq, Structural)]
pub enum Direction {
    PeriphToMemory,
    MemoryToPeriph,
    MemoryToMemory,
}

/// Channel priority.
#[derive(Debug, Clone, Copy, PartialEq, Eq, Structural)]
pub enum Priorities {
    Low,
    Medium,
    High,
    VeryHigh,
}

impl Priorities {
    /// `CCR.PL` code.
    pub open spec fn spec_bits(self) -> u32 {
        match self {
            Priorities::Low => 0,
            Priorities::Medium => 1,
            Priorities::High => 2,
            Priorities::VeryHigh => 3,
        }
    }

    /// `CCR.PL` code.
    pub fn bits(&self) -> (r: u32)
        ensures
            r == self.spec_bits(),
    {
        match *self {
            Priorities::Low => 0,
            Priorities::Medium => 1,
            Priorities::High => 2,
            Priorities::VeryHigh => 3,
        }
    }
}

/// Whether the transfer count reloads when it reaches zero, with the count.
#[derive(Debug, Clone, Copy, PartialEq, Eq, Structural)]
pub enum RepeatMode {
    OneTime(u16),
    Repeat(u16),
}

/// Width of one data item.
#[derive(Debug, Clone, Copy, PartialEq, Eq, Structural)]
pub enum Burst {
    Byte,
    HalfWord,
    Word,
}

impl Burst {
    /// `CCR.PSIZE` / `CCR.MSIZE` code.
    pub open spec fn spec_bits(self) -> u32 {
        match self {
            Burst::Byte => 0,
            Burst::HalfWord => 1,
            Burst::Word => 2,
        }
    }

    /// `CCR.PSIZE` / `CCR.MSIZE` code.
    pub fn bits(&self) -> (r: u32)
        ensures
            r == self.spec_bits(),
    {
        match *self {
            Burst::Byte => 0,
            Burst::HalfWord => 1,
            Burst::Word => 2,
        }
    }
}

/// Channel event, in the order of its flags in `ISR`.
#[derive(Debug, Clone, Copy, PartialEq, Eq, Structural)]
pub enum Event {
    /// Any of the others.
    GIF,
    /// Transfer complete.
    TCIF,
    /// Half transfer.
    HTIF,
    /// Transfer error.
    TEIF,
}

impl Event {
    /// Position of the event's flag within a channel's group of four.
    pub open spec fn spec_index(self) -> u32 {
        match self {
            Event::GIF => 0,
            Event::TCIF => 1,
            Event::HTIF => 2,
            Event::TEIF => 3,
        }
    }

    /// Position of the event's flag within a channel's group of four.
    pub fn index(&self) -> (r: u32)
        ensures
            r == self.spec_index(),
    {
        match *self {
            Event::GIF => 0,
            Event::TCIF => 1,
            Event::HTIF => 2,
            Event::TEIF => 3,
        }
    }
}

/// A transfer failed.
#[derive(Debug, Clone, Copy, PartialEq, Eq, Structural)]
pub enum Error {
    Others,
}

} // verus!
