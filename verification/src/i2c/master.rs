//! Master transfer sequencing.
//!
//! A master transfer alternates register accesses with waits on status flags,
//! polled with a timeout (blocking transfers) or signalled by the event
//! interrupt (interrupt-driven transfers). The decisions are made here: each step
//! takes the outcome of the last wait and yields the register commands to issue
//! and what to do next.
use super::{Error, Event};
use vstd::prelude::*;

verus! {

/// A register access of the I2C master.
#[derive(Debug, Clone, Copy, PartialEq, Eq, Structural)]
pub enum Command {
    /// Clear `POS`.
    ClearPos,
    /// Generate a start condition.
    Start,
    /// Generate a stop condition.
    Stop,
    /// Write a byte to the data register.
    Transmit(u8),
    /// Acknowledge received bytes, or not.
    Ack(bool),
    /// Clear an event flag.
    ClearEvent(Event),
    /// Read the data register into the given position of the buffer.
    ReadInto(usize),
}

/// What follows a step.
#[derive(Debug, Clone, Copy)]
pub enum Next {
    /// Wait, with the flag timeout, until the event's flag is set; report whether it was.
    Wait(Event),
    /// Read the event's flag once and report it.
    Check(Event),
    /// The transfer is over.
    Finished(Result<usize, Error>),
}

/// Commands to issue and what follows.
pub struct Action {
    pub commands: Vec<Command>,
    pub next: Next,
}

/// Phase of a master write.
#[derive(Debug, Clone, Copy, PartialEq, Eq, Structural)]
pub enum WritePhase {
    /// Waiting for the start condition.
    Start,
    /// Waiting for the address to be acknowledged.
    Address,
    /// Waiting to send the first byte.
    FirstData,
    /// Waiting to send byte `i`.
    Data(usize),
    /// Waiting for the transmit buffer to drain (twice), then for the last byte to finish.
    TailTxe1,
    TailTxe2,
    Btf,
    /// Over.
    Done,
}

/// The address byte of a write: the 7-bit address shifted left, direction bit 0.
pub open spec fn write_address(address: u8) -> u8 {
    (address << 1u8) as u8
}

/// The address byte of a read: the 7-bit address shifted left, direction bit 1.
pub open spec fn read_address(address: u8) -> u8 {
    ((address << 1u8) | 1u8) as u8
}

/// The phase that sends byte `i` of `len`, or drains the buffer when all are sent.
pub open spec fn data_or_tail(i: usize, len: usize) -> WritePhase {
    if i < len {
        WritePhase::Data(i)
    } else {
        WritePhase::TailTxe1
    }
}

/// One step of a master write of `buf` to `address`, after a wait that succeeded (`ready`) or
/// timed out: the next phase, the commands, and what follows.
pub open spec fn spec_write_step(phase: WritePhase, address: u8, buf: Seq<u8>, ready: bool) -> (
    WritePhase,
    Seq<Command>,
    Next,
) {
    let len = buf.len() as usize;
    match phase {
        WritePhase::Start => if ready {
            (WritePhase::Address, seq![Command::Transmit(write_address(address))], Next::Wait(Event::ADD))
        } else {
            (
                WritePhase::Done,
                seq![Command::ClearEvent(Event::ARLO)],
                Next::Finished(Err(Error::Start)),
            )
        },
        WritePhase::Address => if ready {
            (
                if len > 0 {
                    WritePhase::FirstData
                } else {
                    WritePhase::TailTxe1
                },
                seq![Command::ClearEvent(Event::ADD)],
                Next::Wait(Event::TXE),
            )
        } else {
            (
                WritePhase::Done,
                seq![Command::ClearEvent(Event::AF), Command::Stop],
                Next::Finished(Err(Error::Address)),
            )
        },
        WritePhase::FirstData => if ready {
            (data_or_tail(1, len), seq![Command::Transmit(buf[0])], Next::Wait(Event::TXE))
        } else {
            (WritePhase::Done, seq![], Next::Finished(Err(Error::Tx)))
        },
        WritePhase::Data(i) => if ready {
            (
                data_or_tail((i + 1) as usize, len),
                seq![Command::Transmit(buf[i as int])],
                Next::Wait(Event::TXE),
            )
        } else {
            (WritePhase::Done, seq![Command::Stop], Next::Finished(Err(Error::Tx)))
        },
        WritePhase::TailTxe1 => if ready {
            (WritePhase::TailTxe2, seq![], Next::Wait(Event::TXE))
        } else {
            (WritePhase::Done, seq![Command::Stop], Next::Finished(Err(Error::Tx)))
        },
        WritePhase::TailTxe2 => if ready {
            (WritePhase::Btf, seq![], Next::Wait(Event::BTF))
        } else {
            (WritePhase::Done, seq![Command::Stop], Next::Finished(Err(Error::Tx)))
        },
        WritePhase::Btf => if ready {
            (WritePhase::Done, seq![Command::Stop], Next::Finished(Ok(len)))
        } else {
            (WritePhase::Done, seq![Command::Stop], Next::Finished(Err(Error::Tx)))
        },
        WritePhase::Done => (WritePhase::Done, seq![], Next::Finished(Err(Error::Tx))),
    }
}

/// A phase that makes sense for a buffer of `len` bytes.
pub open spec fn write_phase_valid(phase: WritePhase, len: usize) -> bool {
    match phase {
        WritePhase::FirstData => len > 0,
        WritePhase::Data(i) => 1 <= i < len,
        _ => true,
    }
}

/// A blocking master write in progress.
pub struct MasterWrite {
    address: u8,
    phase: WritePhase,
}

impl MasterWrite {
    pub closed spec fn spec_address(self) -> u8 {
        self.address
    }

    pub closed spec fn spec_phase(self) -> WritePhase {
        self.phase
    }

    /// Starts writing to `address`: clear `POS`, generate a start condition, then wait for it.
    pub fn begin(address: u8) -> (r: (MasterWrite, Action))
        ensures
            r.0.spec_address() == address,
            r.0.spec_phase() == WritePhase::Start,
            r.1.commands@ == seq![Command::ClearPos, Command::Start],
            r.1.next == Next::Wait(Event::SB),
    {
        let mut commands = Vec::new();
        commands.push(Command::ClearPos);
        commands.push(Command::Start);
        (MasterWrite { address, phase: WritePhase::Start }, Action { commands, next: Next::Wait(Event::SB) })
    }

    /// The write is over.
    pub fn is_done(&self) -> (r: bool)
        ensures
            r == (self.spec_phase() == WritePhase::Done),
    {
        self.phase == WritePhase::Done
    }

    /// The next step, after the wait asked for by the previous one succeeded (`ready`)
    /// or timed out; see [`spec_write_step`].
    pub fn step(&mut self, buf: &[u8], ready: bool) -> (r: Action)
        requires
            write_phase_valid(old(self).spec_phase(), buf@.len() as usize),
        ensures
            final(self).spec_address() == old(self).spec_address(),
            (final(self).spec_phase(), r.commands@, r.next) == spec_write_step(
                old(self).spec_phase(),
                old(self).spec_address(),
                buf@,
                ready,
            ),
            write_phase_valid(final(self).spec_phase(), buf@.len() as usize),
    {
        let len = buf.len();
        let mut commands = Vec::new();
        let (phase, next) = match self.phase {
            WritePhase::Start => if ready {
                commands.push(Command::Transmit(self.address << 1));
                (WritePhase::Address, Next::Wait(Event::ADD))
            } else {
                commands.push(Command::ClearEvent(Event::ARLO));
                (WritePhase::Done, Next::Finished(Err(Error::Start)))
            },
            WritePhase::Address => if ready {
                commands.push(Command::ClearEvent(Event::ADD));
                (
                    if len > 0 {
                        WritePhase::FirstData
                    } else {
                        WritePhase::TailTxe1
                    },
                    Next::Wait(Event::TXE),
                )
            } else {
                commands.push(Command::ClearEvent(Event::AF));
                commands.push(Command::Stop);
                (WritePhase::Done, Next::Finished(Err(Error::Address)))
            },
            WritePhase::FirstData => if ready {
                commands.push(Command::Transmit(buf[0]));
                (
                    if 1 < len {
                        WritePhase::Data(1)
                    } else {
                        WritePhase::TailTxe1
                    },
                    Next::Wait(Event::TXE),
                )
            } else {
                (WritePhase::Done, Next::Finished(Err(Error::Tx)))
            },
            WritePhase::Data(i) => if ready {
                commands.push(Command::Transmit(buf[i]));
                (
                    if i + 1 < len {
                        WritePhase::Data(i + 1)
                    } else {
                        WritePhase::TailTxe1
                    },
                    Next::Wait(Event::TXE),
                )
            } else {
                commands.push(Command::Stop);
                (WritePhase::Done, Next::Finished(Err(Error::Tx)))
            },
            WritePhase::TailTxe1 => if ready {
                (WritePhase::TailTxe2, Next::Wait(Event::TXE))
            } else {
                commands.push(Command::Stop);
                (WritePhase::Done, Next::Finished(Err(Error::Tx)))
            },
            WritePhase::TailTxe2 => if ready {
                (WritePhase::Btf, Next::Wait(Event::BTF))
            } else {
                commands.push(Command::Stop);
                (WritePhase::Done, Next::Finished(Err(Error::Tx)))
            },
            WritePhase::Btf => {
                commands.push(Command::Stop);
                if ready {
                    (WritePhase::Done, Next::Finished(Ok(len)))
                } else {
                    (WritePhase::Done, Next::Finished(Err(Error::Tx)))
                }
            },
            WritePhase::Done => (WritePhase::Done, Next::Finished(Err(Error::Tx))),
        };
        self.phase = phase;
        Action { commands, next }
    }
}

/// What follows a step of an interrupt-driven write.
#[derive(Debug, Clone, Copy)]
pub enum WaitNext {
    /// Wait for the event; report the wait's result.
    Wait(Event),
    /// Wait for either event; report the wait's result.
    WaitEither(Event, Event),
    /// The transfer is over.
    Finished(Result<usize, Error>),
}

/// Commands to issue and what follows, in an interrupt-driven write.
pub struct WaitAction {
    pub commands: Vec<Command>,
    pub next: WaitNext,
}

/// The wait before byte `i` of `len` is sent, or before the buffer drains
/// once all are sent: transmit-empty or byte-finished while more bytes follow
/// the first, transmit-empty for the drain.
pub open spec fn async_data_wait(i: usize, len: usize) -> WaitNext {
    if i < len {
        WaitNext::WaitEither(Event::TXE, Event::BTF)
    } else {
        WaitNext::Wait(Event::TXE)
    }
}

/// One step of an interrupt-driven master write of `buf` to `address`, after a
/// wait that ended with `outcome`: the next phase, the commands and what
/// follows. A failed wait ends the write with the wait's error; after the
/// address or any byte but the first it also sends a stop condition.
pub open spec fn spec_async_write_step(
    phase: WritePhase,
    address: u8,
    buf: Seq<u8>,
    outcome: Result<(), Error>,
) -> (WritePhase, Seq<Command>, WaitNext) {
    let len = buf.len() as usize;
    match outcome {
        Err(e) => match phase {
            WritePhase::Address => (
                WritePhase::Done,
                seq![Command::ClearEvent(Event::AF), Command::Stop],
                WaitNext::Finished(Err(e)),
            ),
            WritePhase::Start | WritePhase::FirstData => (
                WritePhase::Done,
                seq![],
                WaitNext::Finished(Err(e)),
            ),
            WritePhase::Done => (WritePhase::Done, seq![], WaitNext::Finished(Err(e))),
            _ => (WritePhase::Done, seq![Command::Stop], WaitNext::Finished(Err(e))),
        },
        Ok(_) => match phase {
            WritePhase::Start => (
                WritePhase::Address,
                seq![Command::Transmit(write_address(address))],
                WaitNext::Wait(Event::ADD),
            ),
            WritePhase::Address => (
                if len > 0 {
                    WritePhase::FirstData
                } else {
                    WritePhase::TailTxe1
                },
                seq![Command::ClearEvent(Event::ADD)],
                WaitNext::Wait(Event::TXE),
            ),
            WritePhase::FirstData => (
                data_or_tail(1, len),
                seq![Command::Transmit(buf[0])],
                async_data_wait(1, len),
            ),
            WritePhase::Data(i) => (
                data_or_tail((i + 1) as usize, len),
                seq![Command::Transmit(buf[i as int])],
                async_data_wait((i + 1) as usize, len),
            ),
            WritePhase::TailTxe1 => (WritePhase::TailTxe2, seq![], WaitNext::Wait(Event::TXE)),
            WritePhase::TailTxe2 => (WritePhase::Btf, seq![], WaitNext::Wait(Event::BTF)),
            WritePhase::Btf => (WritePhase::Done, seq![Command::Stop], WaitNext::Finished(Ok(len))),
            WritePhase::Done => (WritePhase::Done, seq![], WaitNext::Finished(Err(Error::Tx))),
        },
    }
}

/// An interrupt-driven master write in progress.
pub struct AsyncMasterWrite {
    address: u8,
    phase: WritePhase,
}

impl AsyncMasterWrite {
    pub closed spec fn spec_address(self) -> u8 {
        self.address
    }

    pub closed spec fn spec_phase(self) -> WritePhase {
        self.phase
    }

    /// Starts writing to `address`: clear `POS`, generate a start condition,
    /// then wait for it.
    pub fn begin(address: u8) -> (r: (AsyncMasterWrite, WaitAction))
        ensures
            r.0.spec_address() == address,
            r.0.spec_phase() == WritePhase::Start,
            r.1.commands@ == seq![Command::ClearPos, Command::Start],
            r.1.next == WaitNext::Wait(Event::SB),
    {
        let mut commands = Vec::new();
        commands.push(Command::ClearPos);
        commands.push(Command::Start);
        (
            AsyncMasterWrite { address, phase: WritePhase::Start },
            WaitAction { commands, next: WaitNext::Wait(Event::SB) },
        )
    }

    /// The write is over.
    pub fn is_done(&self) -> (r: bool)
        ensures
            r == (self.spec_phase() == WritePhase::Done),
    {
        self.phase == WritePhase::Done
    }

    /// The next step, after the wait asked for by the previous one ended with
    /// `outcome`; see [`spec_async_write_step`].
    pub fn step(&mut self, buf: &[u8], outcome: Result<(), Error>) -> (r: WaitAction)
        requires
            write_phase_valid(old(self).spec_phase(), buf@.len() as usize),
        ensures
            final(self).spec_address() == old(self).spec_address(),
            (final(self).spec_phase(), r.commands@, r.next) == spec_async_write_step(
                old(self).spec_phase(),
                old(self).spec_address(),
                buf@,
                outcome,
            ),
            write_phase_valid(final(self).spec_phase(), buf@.len() as usize),
    {
        let len = buf.len();
        let mut commands = Vec::new();
        let (phase, next) = match outcome {
            Err(e) => match self.phase {
                WritePhase::Address => {
                    commands.push(Command::ClearEvent(Event::AF));
                    commands.push(Command::Stop);
                    (WritePhase::Done, WaitNext::Finished(Err(e)))
                },
                WritePhase::Start | WritePhase::FirstData | WritePhase::Done => {
                    (WritePhase::Done, WaitNext::Finished(Err(e)))
                },
                _ => {
                    commands.push(Command::Stop);
                    (WritePhase::Done, WaitNext::Finished(Err(e)))
                },
            },
            Ok(_) => match self.phase {
                WritePhase::Start => {
                    commands.push(Command::Transmit(self.address << 1));
                    (WritePhase::Address, WaitNext::Wait(Event::ADD))
                },
                WritePhase::Address => {
                    commands.push(Command::ClearEvent(Event::ADD));
                    (
                        if len > 0 {
                            WritePhase::FirstData
                        } else {
                            WritePhase::TailTxe1
                        },
                        WaitNext::Wait(Event::TXE),
                    )
                },
                WritePhase::FirstData => {
                    commands.push(Command::Transmit(buf[0]));
                    if 1 < len {
                        (WritePhase::Data(1), WaitNext::WaitEither(Event::TXE, Event::BTF))
                    } else {
                        (WritePhase::TailTxe1, WaitNext::Wait(Event::TXE))
                    }
                },
                WritePhase::Data(i) => {
                    commands.push(Command::Transmit(buf[i]));
                    if i + 1 < len {
                        (WritePhase::Data(i + 1), WaitNext::WaitEither(Event::TXE, Event::BTF))
                    } else {
                        (WritePhase::TailTxe1, WaitNext::Wait(Event::TXE))
                    }
                },
                WritePhase::TailTxe1 => (WritePhase::TailTxe2, WaitNext::Wait(Event::TXE)),
                WritePhase::TailTxe2 => (WritePhase::Btf, WaitNext::Wait(Event::BTF)),
                WritePhase::Btf => {
                    commands.push(Command::Stop);
                    (WritePhase::Done, WaitNext::Finished(Ok(len)))
                },
                WritePhase::Done => (WritePhase::Done, WaitNext::Finished(Err(Error::Tx))),
            },
        };
        self.phase = phase;
        WaitAction { commands, next }
    }
}

/// Phase of a master read.
#[derive(Debug, Clone, Copy, PartialEq, Eq, Structural)]
pub enum ReadPhase {
    /// Waiting for the start condition.
    Start,
    /// Waiting for the address to be acknowledged.
    Address,
    /// Waiting for byte `i` to arrive.
    Receive(usize),
    /// Byte `i` was read; checking whether byte `i + 1` is already complete.
    CheckBtf(usize),
    /// Over.
    Done,
}

/// Prepare for byte `i` of `len`: acknowledge it unless it is one of the last two, then
/// wait for it; or, when all bytes are in, generate the stop condition and finish.
pub open spec fn spec_begin_byte(i: usize, len: usize) -> (ReadPhase, Seq<Command>, Next) {
    if i >= len {
        (ReadPhase::Done, seq![Command::Stop], Next::Finished(Ok(len)))
    } else {
        (ReadPhase::Receive(i), seq![Command::Ack(len - i > 2)], Next::Wait(Event::RXNE))
    }
}

/// One step of a master read of `len` bytes from `address`, after a wait or a check whose
/// outcome is `ready`: the next phase, the commands, and what follows.
pub open spec fn spec_read_step(phase: ReadPhase, address: u8, len: usize, ready: bool) -> (
    ReadPhase,
    Seq<Command>,
    Next,
) {
    match phase {
        ReadPhase::Start => if ready {
            (ReadPhase::Address, seq![Command::Transmit(read_address(address))], Next::Wait(Event::ADD))
        } else {
            (ReadPhase::Done, seq![], Next::Finished(Err(Error::Start)))
        },
        ReadPhase::Address => if ready {
            let b = spec_begin_byte(0, len);
            (b.0, seq![Command::ClearEvent(Event::ADD)] + b.1, b.2)
        } else {
            (ReadPhase::Done, seq![], Next::Finished(Err(Error::Address)))
        },
        ReadPhase::Receive(i) => if ready {
            if len - i >= 2 {
                (ReadPhase::CheckBtf(i), seq![Command::ReadInto(i)], Next::Check(Event::BTF))
            } else {
                let b = spec_begin_byte((i + 1) as usize, len);
                (b.0, seq![Command::ReadInto(i)] + b.1, b.2)
            }
        } else {
            (ReadPhase::Done, seq![], Next::Finished(Err(Error::RX)))
        },
        ReadPhase::CheckBtf(i) => if ready {
            let b = spec_begin_byte((i + 2) as usize, len);
            (b.0, seq![Command::Ack(len - i > 2), Command::ReadInto((i + 1) as usize)] + b.1, b.2)
        } else {
            spec_begin_byte((i + 1) as usize, len)
        },
        ReadPhase::Done => (ReadPhase::Done, seq![], Next::Finished(Err(Error::RX))),
    }
}

/// A phase that makes sense for a read of `len` bytes.
pub open spec fn read_phase_valid(phase: ReadPhase, len: usize) -> bool {
    match phase {
        ReadPhase::Receive(i) => i < len,
        ReadPhase::CheckBtf(i) => i + 2 <= len,
        _ => true,
    }
}

/// A blocking master read in progress.
pub struct MasterRead {
    address: u8,
    len: usize,
    phase: ReadPhase,
}

impl MasterRead {
    pub closed spec fn spec_address(self) -> u8 {
        self.address
    }

    pub closed spec fn spec_len(self) -> usize {
        self.len
    }

    pub closed spec fn spec_phase(self) -> ReadPhase {
        self.phase
    }

    /// Starts reading `len` bytes from `address`: clear `POS`, generate a start condition,
    /// then wait for it.
    pub fn begin(address: u8, len: usize) -> (r: (MasterRead, Action))
        ensures
            r.0.spec_address() == address,
            r.0.spec_len() == len,
            r.0.spec_phase() == ReadPhase::Start,
            r.1.commands@ == seq![Command::ClearPos, Command::Start],
            r.1.next == Next::Wait(Event::SB),
    {
        let mut commands = Vec::new();
        commands.push(Command::ClearPos);
        commands.push(Command::Start);
        (
            MasterRead { address, len, phase: ReadPhase::Start },
            Action { commands, next: Next::Wait(Event::SB) },
        )
    }

    /// The read is over.
    pub fn is_done(&self) -> (r: bool)
        ensures
            r == (self.spec_phase() == ReadPhase::Done),
    {
        self.phase == ReadPhase::Done
    }

    fn begin_byte(&mut self, i: usize, commands: &mut Vec<Command>) -> (r: Next)
        requires
            i <= old(self).len,
        ensures
            final(self).address == old(self).address,
            final(self).len == old(self).len,
            (final(self).phase, final(commands)@, r) == ({
                let b = spec_begin_byte(i, old(self).len);
                (b.0, old(commands)@ + b.1, b.2)
            }),
    {
        if i >= self.len {
            commands.push(Command::Stop);
            self.phase = ReadPhase::Done;
            Next::Finished(Ok(self.len))
        } else {
            commands.push(Command::Ack(self.len - i > 2));
            self.phase = ReadPhase::Receive(i);
            Next::Wait(Event::RXNE)
        }
    }

    /// The next step, after the wait or check asked for by the previous one; `ready`
    /// is whether the flag came in time (or, for a check, was set). See [`spec_read_step`].
    pub fn step(&mut self, ready: bool) -> (r: Action)
        requires
            read_phase_valid(old(self).spec_phase(), old(self).spec_len()),
        ensures
            final(self).spec_address() == old(self).spec_address(),
            final(self).spec_len() == old(self).spec_len(),
            (final(self).spec_phase(), r.commands@, r.next) == spec_read_step(
                old(self).spec_phase(),
                old(self).spec_address(),
                old(self).spec_len(),
                ready,
            ),
            read_phase_valid(final(self).spec_phase(), final(self).spec_len()),
    {
        let mut commands: Vec<Command> = Vec::new();
        let next = match self.phase {
            ReadPhase::Start => if ready {
                commands.push(Command::Transmit((self.address << 1) | 1));
                self.phase = ReadPhase::Address;
                Next::Wait(Event::ADD)
            } else {
                self.phase = ReadPhase::Done;
                Next::Finished(Err(Error::Start))
            },
            ReadPhase::Address => if ready {
                commands.push(Command::ClearEvent(Event::ADD));
                self.begin_byte(0, &mut commands)
            } else {
                self.phase = ReadPhase::Done;
                Next::Finished(Err(Error::Address))
            },
            ReadPhase::Receive(i) => if ready {
                commands.push(Command::ReadInto(i));
                if self.len - i >= 2 {
                    self.phase = ReadPhase::CheckBtf(i);
                    Next::Check(Event::BTF)
                } else {
                    self.begin_byte(i + 1, &mut commands)
                }
            } else {
                self.phase = ReadPhase::Done;
                Next::Finished(Err(Error::RX))
            },
            ReadPhase::CheckBtf(i) => if ready {
                commands.push(Command::Ack(self.len - i > 2));
                commands.push(Command::ReadInto(i + 1));
                self.begin_byte(i + 2, &mut commands)
            } else {
                self.begin_byte(i + 1, &mut commands)
            },
            ReadPhase::Done => Next::Finished(Err(Error::RX)),
        };
        Action { commands, next }
    }
}

/// The data bytes of `s` as transmit commands.
pub open spec fn transmits(s: Seq<u8>) -> Seq<Command> {
    s.map_values(|b: u8| Command::Transmit(b))
}

/// Commands and final outcome of `n` write steps from `phase` when every wait succeeds.
pub open spec fn write_run(phase: WritePhase, address: u8, buf: Seq<u8>, n: nat) -> (
    WritePhase,
    Seq<Command>,
    Next,
)
    decreases n,
{
    if n == 0 {
        (phase, seq![], Next::Wait(Event::SB))
    } else {
        let s = spec_write_step(phase, address, buf, true);
        let r = write_run(s.0, address, buf, (n - 1) as nat);
        (
            r.0,
            s.1 + r.1,
            if n == 1 {
                s.2
            } else {
                r.2
            },
        )
    }
}

proof fn lemma_write_tail(address: u8, buf: Seq<u8>, i: usize)
    requires
        i <= buf.len(),
        buf.len() <= usize::MAX,
    ensures
        write_run(data_or_tail(i, buf.len() as usize), address, buf, (buf.len() - i + 3) as nat) == (
            WritePhase::Done,
            transmits(buf.subrange(i as int, buf.len() as int)) + seq![Command::Stop],
            Next::Finished(Ok(buf.len() as usize)),
        ),
    decreases buf.len() - i,
{
    let len = buf.len() as usize;
    if i == len {
        assert(transmits(buf.subrange(i as int, buf.len() as int)) =~= seq![]);
        let r3 = write_run(WritePhase::Done, address, buf, 0);
        let r2 = write_run(WritePhase::Btf, address, buf, 1);
        let r1 = write_run(WritePhase::TailTxe2, address, buf, 2);
        let r0 = write_run(WritePhase::TailTxe1, address, buf, 3);
        assert(r2.1 =~= seq![Command::Stop]);
        assert(r1.1 =~= seq![Command::Stop]);
        assert(r0.1 =~= seq![Command::Stop]);
        assert(transmits(buf.subrange(i as int, buf.len() as int)) + seq![Command::Stop] =~= seq![
            Command::Stop,
        ]);
    } else {
        lemma_write_tail(address, buf, (i + 1) as usize);
        let rest = write_run(
            data_or_tail((i + 1) as usize, len),
            address,
            buf,
            (buf.len() - (i + 1) + 3) as nat,
        );
        assert(transmits(buf.subrange(i as int, buf.len() as int)) =~= seq![
            Command::Transmit(buf[i as int]),
        ] + transmits(buf.subrange(i + 1, buf.len() as int)));
        assert(seq![Command::Transmit(buf[i as int])] + rest.1 =~= transmits(
            buf.subrange(i as int, buf.len() as int),
        ) + seq![Command::Stop]);
    }
}

/// When every flag comes in time, a master write of `buf` takes `buf.len() + 5` steps after
/// [`MasterWrite::begin`], sends the address byte and then each byte of `buf` once, in order,
/// ends with a stop condition, and reports `buf.len()` bytes written.
pub proof fn law_write_sends_buffer_in_order(address: u8, buf: Seq<u8>)
    requires
        buf.len() <= usize::MAX,
    ensures
        write_run(WritePhase::Start, address, buf, (buf.len() + 5) as nat) == (
            WritePhase::Done,
            seq![Command::Transmit(write_address(address)), Command::ClearEvent(Event::ADD)]
                + transmits(buf) + seq![Command::Stop],
            Next::Finished(Ok(buf.len() as usize)),
        ),
{
    let len = buf.len() as usize;
    let n = (buf.len() + 5) as nat;
    if len == 0 {
        lemma_write_tail(address, buf, 0);
        assert(transmits(buf) =~= seq![]);
        let t = write_run(WritePhase::TailTxe1, address, buf, 3);
        let a = write_run(WritePhase::Address, address, buf, 4);
        assert(a.1 =~= seq![Command::ClearEvent(Event::ADD)] + t.1);
        let s0 = write_run(WritePhase::Start, address, buf, 5);
        assert(s0.1 =~= seq![Command::Transmit(write_address(address))] + a.1);
        assert(s0.1 =~= seq![Command::Transmit(write_address(address)), Command::ClearEvent(Event::ADD)]
            + transmits(buf) + seq![Command::Stop]);
    } else {
        lemma_write_tail(address, buf, 1);
        let r = write_run(data_or_tail(1, len), address, buf, (buf.len() - 1 + 3) as nat);
        assert(transmits(buf) =~= seq![Command::Transmit(buf[0])] + transmits(
            buf.subrange(1, buf.len() as int),
        ));
        let f = write_run(WritePhase::FirstData, address, buf, (buf.len() + 3) as nat);
        assert(f.1 =~= seq![Command::Transmit(buf[0])] + r.1);
        let a = write_run(WritePhase::Address, address, buf, (buf.len() + 4) as nat);
        assert(a.1 =~= seq![Command::ClearEvent(Event::ADD)] + f.1);
        let s0 = write_run(WritePhase::Start, address, buf, n);
        assert(s0.1 =~= seq![Command::Transmit(write_address(address))] + a.1);
        assert(s0.1 =~= seq![Command::Transmit(write_address(address)), Command::ClearEvent(Event::ADD)]
            + transmits(buf) + seq![Command::Stop]);
    }
}

/// Buffer positions filled by the `ReadInto` commands of `s`, in order.
pub open spec fn read_indices(s: Seq<Command>) -> Seq<usize>
    decreases s.len(),
{
    if s.len() == 0 {
        seq![]
    } else {
        let rest = read_indices(s.drop_first());
        match s[0] {
            Command::ReadInto(i) => seq![i] + rest,
            _ => rest,
        }
    }
}

/// The flag outcome a read step gets: every wait succeeds, and the check after byte `i`
/// reports `btf(i)`.
pub open spec fn read_ready(phase: ReadPhase, btf: spec_fn(usize) -> bool) -> bool {
    match phase {
        ReadPhase::CheckBtf(i) => btf(i),
        _ => true,
    }
}

/// Commands and outcome of at most `n` read steps from `phase` (stopping when the read is
/// over) when every wait succeeds and the checks report `btf`.
pub open spec fn read_run(
    phase: ReadPhase,
    address: u8,
    len: usize,
    btf: spec_fn(usize) -> bool,
    n: nat,
) -> (ReadPhase, Seq<Command>, Next)
    decreases n,
{
    if n == 0 {
        (phase, seq![], Next::Finished(Err(Error::RX)))
    } else {
        let s = spec_read_step(phase, address, len, read_ready(phase, btf));
        if s.0 == ReadPhase::Done {
            s
        } else {
            let r = read_run(s.0, address, len, btf, (n - 1) as nat);
            (r.0, s.1 + r.1, r.2)
        }
    }
}

proof fn lemma_read_indices_concat(a: Seq<Command>, b: Seq<Command>)
    ensures
        read_indices(a + b) == read_indices(a) + read_indices(b),
    decreases a.len(),
{
    if a.len() == 0 {
        assert(a + b =~= b);
        assert(read_indices(a) + read_indices(b) =~= read_indices(b));
    } else {
        lemma_read_indices_concat(a.drop_first(), b);
        assert((a + b).drop_first() =~= a.drop_first() + b);
        match a[0] {
            Command::ReadInto(i) => {
                assert(seq![i] + (read_indices(a.drop_first()) + read_indices(b)) =~= (seq![i]
                    + read_indices(a.drop_first())) + read_indices(b));
            },
            _ => {},
        }
    }
}

proof fn lemma_read_indices_single(c: Command)
    ensures
        read_indices(seq![c]) == (match c {
            Command::ReadInto(i) => seq![i],
            _ => Seq::<usize>::empty(),
        }),
{
    assert(seq![c].drop_first() =~= Seq::<Command>::empty());
    reveal_with_fuel(read_indices, 2);
    match c {
        Command::ReadInto(i) => {
            assert(seq![i] + Seq::<usize>::empty() =~= seq![i]);
        },
        _ => {},
    }
}

/// The positions `from`, `from + 1`, ..., `len - 1`.
pub open spec fn positions(from: usize, len: usize) -> Seq<usize> {
    Seq::new((len - from) as nat, |k: int| (from + k) as usize)
}

#[verifier::rlimit(40)]
proof fn lemma_read_from(address: u8, len: usize, btf: spec_fn(usize) -> bool, i: usize, n: nat)
    requires
        i < len,
        n >= 2 * (len - i),
    ensures
        read_run(ReadPhase::Receive(i), address, len, btf, n).0 == ReadPhase::Done,
        read_indices(read_run(ReadPhase::Receive(i), address, len, btf, n).1) == positions(i, len),
        read_run(ReadPhase::Receive(i), address, len, btf, n).1.last() == Command::Stop,
        read_run(ReadPhase::Receive(i), address, len, btf, n).2 == Next::Finished(Ok(len)),
    decreases len - i,
{
    let r = read_run(ReadPhase::Receive(i), address, len, btf, n);
    let ri = seq![Command::ReadInto(i)];
    lemma_read_indices_single(Command::ReadInto(i));
    if len - i == 1 {
        assert(r.1 == ri + seq![Command::Stop]);
        lemma_read_indices_single(Command::Stop);
        lemma_read_indices_concat(ri, seq![Command::Stop]);
        assert(read_indices(r.1) =~= positions(i, len));
    } else {
        let c = read_run(ReadPhase::CheckBtf(i), address, len, btf, (n - 1) as nat);
        assert(r.1 == ri + c.1);
        lemma_read_indices_concat(ri, c.1);
        if btf(i) {
            let ack = seq![Command::Ack(len - i > 2)];
            let rd = seq![Command::ReadInto((i + 1) as usize)];
            lemma_read_indices_single(Command::Ack(len - i > 2));
            lemma_read_indices_single(Command::ReadInto((i + 1) as usize));
            lemma_read_indices_concat(ack, rd);
            if i + 2 >= len {
                let st = seq![Command::Stop];
                assert(c.1 == (ack + rd) + st);
                lemma_read_indices_single(Command::Stop);
                lemma_read_indices_concat(ack + rd, st);
                assert(read_indices(r.1) =~= positions(i, len));
            } else {
                lemma_read_from(address, len, btf, (i + 2) as usize, (n - 2) as nat);
                let t = read_run(ReadPhase::Receive((i + 2) as usize), address, len, btf, (n - 2) as nat);
                let ack2 = seq![Command::Ack(len - (i + 2) > 2)];
                assert(c.1 == ((ack + rd) + ack2) + t.1);
                lemma_read_indices_single(Command::Ack(len - (i + 2) > 2));
                lemma_read_indices_concat(ack + rd, ack2);
                lemma_read_indices_concat((ack + rd) + ack2, t.1);
                assert(read_indices(r.1) =~= positions(i, len));
                assert(r.1.last() == t.1.last());
            }
        } else {
            lemma_read_from(address, len, btf, (i + 1) as usize, (n - 2) as nat);
            let t = read_run(ReadPhase::Receive((i + 1) as usize), address, len, btf, (n - 2) as nat);
            let pre = seq![Command::Ack(len - (i + 1) > 2)];
            assert(c.1 == pre + t.1);
            lemma_read_indices_single(Command::Ack(len - (i + 1) > 2));
            lemma_read_indices_concat(pre, t.1);
            assert(read_indices(r.1) =~= positions(i, len));
            assert(r.1.last() == t.1.last());
        }
    }
}

/// When every flag comes in time, a master read of `len` bytes ends within `2 * len + 2`
/// steps after [`MasterRead::begin`], whatever the byte-transfer-finished checks report:
/// it sends the read address byte first, fills every buffer position exactly once and in
/// order, ends with a stop condition, and reports `len` bytes read.
pub proof fn law_read_fills_buffer_in_order(address: u8, len: usize, btf: spec_fn(usize) -> bool)
    ensures
        read_run(ReadPhase::Start, address, len, btf, (2 * len + 2) as nat).0 == ReadPhase::Done,
        read_run(ReadPhase::Start, address, len, btf, (2 * len + 2) as nat).1[0]
            == Command::Transmit(read_address(address)),
        read_indices(read_run(ReadPhase::Start, address, len, btf, (2 * len + 2) as nat).1)
            == positions(0, len),
        read_run(ReadPhase::Start, address, len, btf, (2 * len + 2) as nat).1.last()
            == Command::Stop,
        read_run(ReadPhase::Start, address, len, btf, (2 * len + 2) as nat).2 == Next::Finished(
            Ok(len),
        ),
{
    let n = (2 * len + 2) as nat;
    let r = read_run(ReadPhase::Start, address, len, btf, n);
    let a = read_run(ReadPhase::Address, address, len, btf, (n - 1) as nat);
    assert(r.1 == seq![Command::Transmit(read_address(address))] + a.1);
    if len == 0 {
        let x = seq![Command::Transmit(read_address(address))];
        let y = seq![Command::ClearEvent(Event::ADD)];
        let z = seq![Command::Stop];
        assert(a.1 == y + z);
        lemma_read_indices_single(Command::Transmit(read_address(address)));
        lemma_read_indices_single(Command::ClearEvent(Event::ADD));
        lemma_read_indices_single(Command::Stop);
        lemma_read_indices_concat(y, z);
        lemma_read_indices_concat(x, y + z);
        assert(read_indices(r.1) =~= positions(0, len));
    } else {
        lemma_read_from(address, len, btf, 0, (n - 2) as nat);
        let t = read_run(ReadPhase::Receive(0), address, len, btf, (n - 2) as nat);
        let pre = seq![Command::ClearEvent(Event::ADD), Command::Ack(len - 0 > 2)];
        assert(a.1 == pre + t.1);
        let x = seq![Command::Transmit(read_address(address))];
        let y = seq![Command::ClearEvent(Event::ADD)];
        let z = seq![Command::Ack(len - 0 > 2)];
        assert(pre == y + z);
        let head = x + pre;
        assert(r.1 =~= head + t.1);
        lemma_read_indices_single(Command::Transmit(read_address(address)));
        lemma_read_indices_single(Command::ClearEvent(Event::ADD));
        lemma_read_indices_single(Command::Ack(len - 0 > 2));
        lemma_read_indices_concat(y, z);
        lemma_read_indices_concat(x, pre);
        lemma_read_indices_concat(head, t.1);
        assert(read_indices(head) =~= seq![]);
        assert(read_indices(r.1) =~= positions(0, len));
        assert(r.1.last() == t.1.last());
    }
}

/// Prepare for byte `i` of `len` in an interrupt-driven read: acknowledge it
/// unless it is one of the last two, then wait for it; or, when all bytes are
/// in, generate the stop condition and finish.
pub open spec fn spec_async_begin_byte(i: usize, len: usize) -> (ReadPhase, Seq<Command>, WaitNext) {
    if i >= len {
        (ReadPhase::Done, seq![Command::Stop], WaitNext::Finished(Ok(len)))
    } else {
        (ReadPhase::Receive(i), seq![Command::Ack(len - i > 2)], WaitNext::Wait(Event::RXNE))
    }
}

/// One step of an interrupt-driven master read of `len` bytes from `address`,
/// after a wait that ended with `outcome`; `btf` is whether the byte-transfer
/// finished flag was set right after the byte was read. A failed wait ends the
/// read with the wait's error. When a byte arrives with at least one more to
/// come and `btf` set, the next byte is already complete and is read at once.
pub open spec fn spec_async_read_step(
    phase: ReadPhase,
    address: u8,
    len: usize,
    outcome: Result<(), Error>,
    btf: bool,
) -> (ReadPhase, Seq<Command>, WaitNext) {
    match outcome {
        Err(e) => (ReadPhase::Done, seq![], WaitNext::Finished(Err(e))),
        Ok(_) => match phase {
            ReadPhase::Start => (
                ReadPhase::Address,
                seq![Command::Transmit(read_address(address))],
                WaitNext::Wait(Event::ADD),
            ),
            ReadPhase::Address => spec_async_begin_byte(0, len),
            ReadPhase::Receive(i) => if len - i >= 2 && btf {
                let b = spec_async_begin_byte((i + 2) as usize, len);
                (
                    b.0,
                    seq![
                        Command::ReadInto(i),
                        Command::Ack(len - i > 2),
                        Command::ReadInto((i + 1) as usize),
                    ] + b.1,
                    b.2,
                )
            } else {
                let b = spec_async_begin_byte((i + 1) as usize, len);
                (b.0, seq![Command::ReadInto(i)] + b.1, b.2)
            },
            _ => (ReadPhase::Done, seq![], WaitNext::Finished(Err(Error::RX))),
        },
    }
}

/// An interrupt-driven master read in progress.
pub struct AsyncMasterRead {
    address: u8,
    len: usize,
    phase: ReadPhase,
}

impl AsyncMasterRead {
    pub closed spec fn spec_address(self) -> u8 {
        self.address
    }

    pub closed spec fn spec_len(self) -> usize {
        self.len
    }

    pub closed spec fn spec_phase(self) -> ReadPhase {
        self.phase
    }

    /// Starts reading `len` bytes from `address`: generate a start condition,
    /// then wait for it.
    pub fn begin(address: u8, len: usize) -> (r: (AsyncMasterRead, WaitAction))
        ensures
            r.0.spec_address() == address,
            r.0.spec_len() == len,
            r.0.spec_phase() == ReadPhase::Start,
            r.1.commands@ == seq![Command::Start],
            r.1.next == WaitNext::Wait(Event::SB),
    {
        let mut commands = Vec::new();
        commands.push(Command::Start);
        (
            AsyncMasterRead { address, len, phase: ReadPhase::Start },
            WaitAction { commands, next: WaitNext::Wait(Event::SB) },
        )
    }

    /// The read is over.
    pub fn is_done(&self) -> (r: bool)
        ensures
            r == (self.spec_phase() == ReadPhase::Done),
    {
        self.phase == ReadPhase::Done
    }

    /// The phase of the read, which says what the pending wait is for.
    pub fn phase(&self) -> (r: ReadPhase)
        ensures
            r == self.spec_phase(),
    {
        self.phase
    }

    fn begin_byte(&mut self, i: usize, commands: &mut Vec<Command>) -> (r: WaitNext)
        requires
            i <= old(self).len,
        ensures
            final(self).address == old(self).address,
            final(self).len == old(self).len,
            (final(self).phase, final(commands)@, r) == ({
                let b = spec_async_begin_byte(i, old(self).len);
                (b.0, old(commands)@ + b.1, b.2)
            }),
    {
        if i >= self.len {
            commands.push(Command::Stop);
            self.phase = ReadPhase::Done;
            WaitNext::Finished(Ok(self.len))
        } else {
            commands.push(Command::Ack(self.len - i > 2));
            self.phase = ReadPhase::Receive(i);
            WaitNext::Wait(Event::RXNE)
        }
    }

    /// The next step, after the wait asked for by the previous one ended with
    /// `outcome`; `btf` is the byte-transfer-finished flag read right after the
    /// received byte. See [`spec_async_read_step`].
    pub fn step(&mut self, outcome: Result<(), Error>, btf: bool) -> (r: WaitAction)
        requires
            read_phase_valid(old(self).spec_phase(), old(self).spec_len()),
        ensures
            final(self).spec_address() == old(self).spec_address(),
            final(self).spec_len() == old(self).spec_len(),
            (final(self).spec_phase(), r.commands@, r.next) == spec_async_read_step(
                old(self).spec_phase(),
                old(self).spec_address(),
                old(self).spec_len(),
                outcome,
                btf,
            ),
            read_phase_valid(final(self).spec_phase(), final(self).spec_len()),
    {
        let mut commands: Vec<Command> = Vec::new();
        let next = match outcome {
            Err(e) => {
                self.phase = ReadPhase::Done;
                WaitNext::Finished(Err(e))
            },
            Ok(_) => match self.phase {
                ReadPhase::Start => {
                    commands.push(Command::Transmit((self.address << 1) | 1));
                    self.phase = ReadPhase::Address;
                    WaitNext::Wait(Event::ADD)
                },
                ReadPhase::Address => self.begin_byte(0, &mut commands),
                ReadPhase::Receive(i) => {
                    if self.len - i >= 2 && btf {
                        commands.push(Command::ReadInto(i));
                        commands.push(Command::Ack(self.len - i > 2));
                        commands.push(Command::ReadInto(i + 1));
                        self.begin_byte(i + 2, &mut commands)
                    } else {
                        commands.push(Command::ReadInto(i));
                        self.begin_byte(i + 1, &mut commands)
                    }
                },
                _ => {
                    self.phase = ReadPhase::Done;
                    WaitNext::Finished(Err(Error::RX))
                },
            },
        };
        WaitAction { commands, next }
    }
}

/// Commands and final outcome of `n` interrupt-driven write steps from `phase` when every
/// wait succeeds.
pub open spec fn async_write_run(phase: WritePhase, address: u8, buf: Seq<u8>, n: nat) -> (
    WritePhase,
    Seq<Command>,
    WaitNext,
)
    decreases n,
{
    if n == 0 {
        (phase, seq![], WaitNext::Wait(Event::SB))
    } else {
        let s = spec_async_write_step(phase, address, buf, Ok(()));
        let r = async_write_run(s.0, address, buf, (n - 1) as nat);
        (
            r.0,
            s.1 + r.1,
            if n == 1 {
                s.2
            } else {
                r.2
            },
        )
    }
}

proof fn lemma_async_write_tail(address: u8, buf: Seq<u8>, i: usize)
    requires
        i <= buf.len(),
        buf.len() <= usize::MAX,
    ensures
        async_write_run(data_or_tail(i, buf.len() as usize), address, buf, (buf.len() - i + 3) as nat) == (
            WritePhase::Done,
            transmits(buf.subrange(i as int, buf.len() as int)) + seq![Command::Stop],
            WaitNext::Finished(Ok(buf.len() as usize)),
        ),
    decreases buf.len() - i,
{
    let len = buf.len() as usize;
    if i == len {
        assert(transmits(buf.subrange(i as int, buf.len() as int)) =~= seq![]);
        let r3 = async_write_run(WritePhase::Done, address, buf, 0);
        let r2 = async_write_run(WritePhase::Btf, address, buf, 1);
        let r1 = async_write_run(WritePhase::TailTxe2, address, buf, 2);
        let r0 = async_write_run(WritePhase::TailTxe1, address, buf, 3);
        assert(r2.1 =~= seq![Command::Stop]);
        assert(r1.1 =~= seq![Command::Stop]);
        assert(r0.1 =~= seq![Command::Stop]);
        assert(transmits(buf.subrange(i as int, buf.len() as int)) + seq![Command::Stop] =~= seq![
            Command::Stop,
        ]);
    } else {
        lemma_async_write_tail(address, buf, (i + 1) as usize);
        let rest = async_write_run(
            data_or_tail((i + 1) as usize, len),
            address,
            buf,
            (buf.len() - (i + 1) + 3) as nat,
        );
        assert(transmits(buf.subrange(i as int, buf.len() as int)) =~= seq![
            Command::Transmit(buf[i as int]),
        ] + transmits(buf.subrange(i + 1, buf.len() as int)));
        assert(seq![Command::Transmit(buf[i as int])] + rest.1 =~= transmits(
            buf.subrange(i as int, buf.len() as int),
        ) + seq![Command::Stop]);
    }
}

/// When every wait succeeds, an interrupt-driven master write of `buf` takes `buf.len() + 5`
/// steps after [`AsyncMasterWrite::begin`], sends the address byte and then each byte of
/// `buf` once, in order, ends with a stop condition, and reports `buf.len()` bytes written.
pub proof fn law_async_write_sends_buffer_in_order(address: u8, buf: Seq<u8>)
    requires
        buf.len() <= usize::MAX,
    ensures
        async_write_run(WritePhase::Start, address, buf, (buf.len() + 5) as nat) == (
            WritePhase::Done,
            seq![Command::Transmit(write_address(address)), Command::ClearEvent(Event::ADD)]
                + transmits(buf) + seq![Command::Stop],
            WaitNext::Finished(Ok(buf.len() as usize)),
        ),
{
    let len = buf.len() as usize;
    let n = (buf.len() + 5) as nat;
    if len == 0 {
        lemma_async_write_tail(address, buf, 0);
        assert(transmits(buf) =~= seq![]);
        let t = async_write_run(WritePhase::TailTxe1, address, buf, 3);
        let a = async_write_run(WritePhase::Address, address, buf, 4);
        assert(a.1 =~= seq![Command::ClearEvent(Event::ADD)] + t.1);
        let s0 = async_write_run(WritePhase::Start, address, buf, 5);
        assert(s0.1 =~= seq![Command::Transmit(write_address(address))] + a.1);
        assert(s0.1 =~= seq![Command::Transmit(write_address(address)), Command::ClearEvent(Event::ADD)]
            + transmits(buf) + seq![Command::Stop]);
    } else {
        lemma_async_write_tail(address, buf, 1);
        let r = async_write_run(data_or_tail(1, len), address, buf, (buf.len() - 1 + 3) as nat);
        assert(transmits(buf) =~= seq![Command::Transmit(buf[0])] + transmits(
            buf.subrange(1, buf.len() as int),
        ));
        let f = async_write_run(WritePhase::FirstData, address, buf, (buf.len() + 3) as nat);
        assert(f.1 =~= seq![Command::Transmit(buf[0])] + r.1);
        let a = async_write_run(WritePhase::Address, address, buf, (buf.len() + 4) as nat);
        assert(a.1 =~= seq![Command::ClearEvent(Event::ADD)] + f.1);
        let s0 = async_write_run(WritePhase::Start, address, buf, n);
        assert(s0.1 =~= seq![Command::Transmit(write_address(address))] + a.1);
        assert(s0.1 =~= seq![Command::Transmit(write_address(address)), Command::ClearEvent(Event::ADD)]
            + transmits(buf) + seq![Command::Stop]);
    }
}

/// Commands and outcome of at most `n` interrupt-driven read steps from `phase` (stopping
/// when the read is over) when every wait succeeds and the flag read after byte `i`
/// reports `btf(i)`.
pub open spec fn async_read_run(
    phase: ReadPhase,
    address: u8,
    len: usize,
    btf: spec_fn(usize) -> bool,
    n: nat,
) -> (ReadPhase, Seq<Command>, WaitNext)
    decreases n,
{
    if n == 0 {
        (phase, seq![], WaitNext::Finished(Err(Error::RX)))
    } else {
        let b = match phase {
            ReadPhase::Receive(i) => btf(i),
            _ => false,
        };
        let s = spec_async_read_step(phase, address, len, Ok(()), b);
        if s.0 == ReadPhase::Done {
            s
        } else {
            let r = async_read_run(s.0, address, len, btf, (n - 1) as nat);
            (r.0, s.1 + r.1, r.2)
        }
    }
}

#[verifier::rlimit(40)]
proof fn lemma_async_read_from(address: u8, len: usize, btf: spec_fn(usize) -> bool, i: usize, n: nat)
    requires
        i < len,
        n >= len - i,
    ensures
        async_read_run(ReadPhase::Receive(i), address, len, btf, n).0 == ReadPhase::Done,
        read_indices(async_read_run(ReadPhase::Receive(i), address, len, btf, n).1) == positions(i, len),
        async_read_run(ReadPhase::Receive(i), address, len, btf, n).1.last() == Command::Stop,
        async_read_run(ReadPhase::Receive(i), address, len, btf, n).2 == WaitNext::Finished(Ok(len)),
    decreases len - i,
{
    let r = async_read_run(ReadPhase::Receive(i), address, len, btf, n);
    let ri = seq![Command::ReadInto(i)];
    lemma_read_indices_single(Command::ReadInto(i));
    lemma_read_indices_single(Command::Stop);
    if len - i >= 2 && btf(i) {
        let ack = seq![Command::Ack(len - i > 2)];
        let rd = seq![Command::ReadInto((i + 1) as usize)];
        lemma_read_indices_single(Command::Ack(len - i > 2));
        lemma_read_indices_single(Command::ReadInto((i + 1) as usize));
        lemma_read_indices_concat(ri, ack);
        lemma_read_indices_concat(ri + ack, rd);
        let head = ri + ack + rd;
        assert(seq![Command::ReadInto(i), Command::Ack(len - i > 2), Command::ReadInto((i + 1) as usize)]
            =~= head);
        if i + 2 >= len {
            let st = seq![Command::Stop];
            assert(r.1 =~= head + st);
            lemma_read_indices_concat(head, st);
            assert(read_indices(r.1) =~= positions(i, len));
        } else {
            lemma_async_read_from(address, len, btf, (i + 2) as usize, (n - 1) as nat);
            let t = async_read_run(ReadPhase::Receive((i + 2) as usize), address, len, btf, (n - 1) as nat);
            let ack2 = seq![Command::Ack(len - (i + 2) > 2)];
            assert(r.1 =~= (head + ack2) + t.1);
            lemma_read_indices_single(Command::Ack(len - (i + 2) > 2));
            lemma_read_indices_concat(head, ack2);
            lemma_read_indices_concat(head + ack2, t.1);
            assert(read_indices(r.1) =~= positions(i, len));
            assert(r.1.last() == t.1.last());
        }
    } else {
        if i + 1 >= len {
            let st = seq![Command::Stop];
            assert(r.1 =~= ri + st);
            lemma_read_indices_concat(ri, st);
            assert(read_indices(r.1) =~= positions(i, len));
        } else {
            lemma_async_read_from(address, len, btf, (i + 1) as usize, (n - 1) as nat);
            let t = async_read_run(ReadPhase::Receive((i + 1) as usize), address, len, btf, (n - 1) as nat);
            let ack = seq![Command::Ack(len - (i + 1) > 2)];
            assert(r.1 =~= (ri + ack) + t.1);
            lemma_read_indices_single(Command::Ack(len - (i + 1) > 2));
            lemma_read_indices_concat(ri, ack);
            lemma_read_indices_concat(ri + ack, t.1);
            assert(read_indices(r.1) =~= positions(i, len));
            assert(r.1.last() == t.1.last());
        }
    }
}

/// When every wait succeeds, an interrupt-driven master read of `len` bytes ends within
/// `len + 2` steps after [`AsyncMasterRead::begin`], whatever the byte-transfer-finished
/// flag reports: it sends the read address byte first, fills every buffer position exactly
/// once and in order, ends with a stop condition, and reports `len` bytes read.
pub proof fn law_async_read_fills_buffer_in_order(address: u8, len: usize, btf: spec_fn(usize) -> bool)
    ensures
        async_read_run(ReadPhase::Start, address, len, btf, (len + 2) as nat).0 == ReadPhase::Done,
        async_read_run(ReadPhase::Start, address, len, btf, (len + 2) as nat).1[0]
            == Command::Transmit(read_address(address)),
        read_indices(async_read_run(ReadPhase::Start, address, len, btf, (len + 2) as nat).1)
            == positions(0, len),
        async_read_run(ReadPhase::Start, address, len, btf, (len + 2) as nat).1.last()
            == Command::Stop,
        async_read_run(ReadPhase::Start, address, len, btf, (len + 2) as nat).2
            == WaitNext::Finished(Ok(len)),
{
    let n = (len + 2) as nat;
    let r = async_read_run(ReadPhase::Start, address, len, btf, n);
    let a = async_read_run(ReadPhase::Address, address, len, btf, (n - 1) as nat);
    let x = seq![Command::Transmit(read_address(address))];
    assert(r.1 == x + a.1);
    lemma_read_indices_single(Command::Transmit(read_address(address)));
    if len == 0 {
        let z = seq![Command::Stop];
        assert(a.1 == z);
        lemma_read_indices_single(Command::Stop);
        lemma_read_indices_concat(x, z);
        assert(read_indices(r.1) =~= positions(0, len));
    } else {
        lemma_async_read_from(address, len, btf, 0, (n - 2) as nat);
        let t = async_read_run(ReadPhase::Receive(0), address, len, btf, (n - 2) as nat);
        let z = seq![Command::Ack(len - 0 > 2)];
        assert(a.1 == z + t.1);
        let head = x + z;
        assert(r.1 =~= head + t.1);
        lemma_read_indices_single(Command::Ack(len - 0 > 2));
        lemma_read_indices_concat(x, z);
        lemma_read_indices_concat(head, t.1);
        assert(read_indices(head) =~= seq![]);
        assert(read_indices(r.1) =~= positions(0, len));
        assert(r.1.last() == t.1.last());
    }
}

/// The address byte carries the 7-bit address in its upper seven bits and the
/// direction in bit 0: 0 for a write, 1 for a read. The two bytes for one
/// address differ only in that bit.
pub proof fn law_address_byte(address: u8)
    requires
        address < 128,
    ensures
        write_address(address) == 2 * address,
        read_address(address) == 2 * address + 1,
        write_address(address) >> 1u8 == address,
        read_address(address) >> 1u8 == address,
{
    assert(((address << 1u8) as u8) == 2 * address && (((address << 1u8) | 1u8) as u8) == 2 * address + 1
        && ((address << 1u8) as u8) >> 1u8 == address && (((address << 1u8) | 1u8) as u8) >> 1u8 == address)
        by (bit_vector)
        requires
            address < 128,
    ;
}

} // verus!
