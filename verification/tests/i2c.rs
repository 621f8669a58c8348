use py32f030_hal::i2c::hal::{timing, I2cRegs, Timing};
use py32f030_hal::i2c::master::{
    AsyncMasterRead, AsyncMasterWrite, Command, MasterRead, MasterWrite, Next, WaitNext,
};
use py32f030_hal::i2c::{Config, Error, Event};

fn regs() -> I2cRegs {
    I2cRegs { cr1: 0, cr2: 0, oar1: 0, dr: 0, sr1: 0, sr2: 0, ccr: 0, trise: 0 }
}

#[test]
fn standard_mode_timing() {
    assert_eq!(timing(8_000_000, 100_000), Ok(Timing { ccr: 40, fast: false, duty: false }));
    assert_eq!(timing(800_000, 100_000), Err(Error::PClock));
}

#[test]
fn fast_mode_timing() {
    assert_eq!(timing(24_000_000, 400_000), Ok(Timing { ccr: 20, fast: true, duty: false }));
    assert_eq!(timing(1_000_000, 400_000), Err(Error::PClock));
}

#[test]
fn too_fast_is_refused() {
    assert_eq!(timing(24_000_000, 400_001), Err(Error::SpeedMode));
    let mut r = regs();
    assert_eq!(r.config(24_000_000, Config::default().speed(1_000_000)), Err(Error::SpeedMode));
}

#[test]
fn config_programs_registers() {
    let mut r = regs();
    assert_eq!(Config::default().speed, 100_000);
    assert_eq!(r.config(8_000_000, Config::default()), Ok(()));
    assert_eq!(r.cr2 & 0x3f, 8);
    assert_eq!(r.ccr & 0xfff, 40);
    assert_eq!((r.ccr >> 15) & 1, 0);
    assert_eq!(r.trise & 0x3f, 9);
    assert_eq!(r.cr1 & 1, 1);
    let mut f = regs();
    assert_eq!(f.config(24_000_000, Config::default().speed(400_000)), Ok(()));
    assert_eq!((f.ccr >> 15) & 1, 1);
    assert_eq!(f.ccr & 0xfff, 20);
    assert_eq!(f.trise & 0x3f, 24 * 300 / 1000 + 1);
}

#[test]
fn register_operations() {
    let mut r = regs();
    r.start();
    assert_eq!((r.cr1 >> 8) & 1, 1);
    r.stop();
    assert_eq!((r.cr1 >> 9) & 1, 1);
    r.transmit(0xa5);
    assert_eq!(r.dr & 0xff, 0xa5);
    r.ack(true);
    assert_eq!((r.cr1 >> 10) & 1, 1);
    r.address(0x3c);
    assert_eq!((r.oar1 >> 1) & 0x7f, 0x3c);
    assert!(!r.busy());
    r.sr2 = 1 << 1;
    assert!(r.busy());
    assert!(!r.is_bus_release());
    r.sr1 = 1 << Event::TXE.bit();
    assert!(r.event_flag(Event::TXE));
    assert!(!r.event_flag(Event::RXNE));
    r.event_config(Event::RXNE, true);
    assert_eq!((r.cr2 >> 10) & 1, 1);
    assert!(!r.is_event_match(Event::RXNE));
    assert_eq!(Event::count(), 11);
}

fn run_write(address: u8, buf: &[u8], fail_at: Option<usize>) -> (Vec<Command>, Result<usize, Error>) {
    let (mut w, first) = MasterWrite::begin(address);
    let mut sent = first.commands.clone();
    let mut next = first.next;
    let mut waits = 0;
    loop {
        match next {
            Next::Finished(r) => return (sent, r),
            _ => {
                let ready = fail_at != Some(waits);
                waits += 1;
                let a = w.step(buf, ready);
                sent.extend(a.commands.iter().copied());
                next = a.next;
            }
        }
    }
}

#[test]
fn write_sends_buffer_in_order() {
    let (cmds, r) = run_write(0x50, &[1, 2, 3], None);
    assert_eq!(r, Ok(3));
    let tx: Vec<u8> = cmds
        .iter()
        .filter_map(|c| if let Command::Transmit(b) = c { Some(*b) } else { None })
        .collect();
    assert_eq!(tx, vec![0xa0, 1, 2, 3]);
    assert_eq!(cmds[0], Command::ClearPos);
    assert_eq!(cmds[1], Command::Start);
    assert_eq!(*cmds.last().unwrap(), Command::Stop);
}

#[test]
fn write_errors() {
    let (_, r) = run_write(0x50, &[1], Some(0));
    assert_eq!(r, Err(Error::Start));
    let (cmds, r) = run_write(0x50, &[1], Some(1));
    assert_eq!(r, Err(Error::Address));
    assert!(cmds.contains(&Command::ClearEvent(Event::AF)));
    let (_, r) = run_write(0x50, &[1, 2], Some(3));
    assert_eq!(r, Err(Error::Tx));
}

fn run_read(address: u8, len: usize, btf: bool) -> (Vec<Command>, Result<usize, Error>) {
    let (mut rd, first) = MasterRead::begin(address, len);
    let mut cmds = first.commands.clone();
    let mut next = first.next;
    loop {
        match next {
            Next::Finished(r) => {
                assert!(rd.is_done());
                return (cmds, r);
            }
            Next::Wait(_) => {
                let a = rd.step(true);
                cmds.extend(a.commands.iter().copied());
                next = a.next;
            }
            Next::Check(_) => {
                let a = rd.step(btf);
                cmds.extend(a.commands.iter().copied());
                next = a.next;
            }
        }
    }
}

#[test]
fn read_fills_buffer_in_order() {
    for btf in [false, true] {
        let (cmds, r) = run_read(0x21, 5, btf);
        assert_eq!(r, Ok(5));
        let idx: Vec<usize> = cmds
            .iter()
            .filter_map(|c| if let Command::ReadInto(i) = c { Some(*i) } else { None })
            .collect();
        assert_eq!(idx, vec![0, 1, 2, 3, 4]);
        assert!(cmds.contains(&Command::Transmit(0x43)));
        assert_eq!(*cmds.last().unwrap(), Command::Stop);
    }
}

#[test]
fn read_nothing_stops_at_once() {
    let (cmds, r) = run_read(0x21, 0, false);
    assert_eq!(r, Ok(0));
    assert!(!cmds.iter().any(|c| matches!(c, Command::ReadInto(_))));
}

#[test]
fn read_errors() {
    let (mut rd, _) = MasterRead::begin(0x10, 2);
    let a = rd.step(false);
    assert!(matches!(a.next, Next::Finished(Err(Error::Start))));
    let (mut rd, _) = MasterRead::begin(0x10, 2);
    rd.step(true);
    let a = rd.step(false);
    assert!(matches!(a.next, Next::Finished(Err(Error::Address))));
    let (mut rd, _) = MasterRead::begin(0x10, 2);
    rd.step(true);
    rd.step(true);
    let a = rd.step(false);
    assert!(matches!(a.next, Next::Finished(Err(Error::RX))));
}

fn run_async_write(buf: &[u8], fail_at: Option<usize>) -> (Vec<Command>, Vec<WaitNext>, Result<usize, Error>) {
    let (mut w, first) = AsyncMasterWrite::begin(0x50);
    let mut cmds = first.commands.clone();
    let mut waits = vec![first.next];
    let mut next = first.next;
    let mut n = 0;
    loop {
        match next {
            WaitNext::Finished(r) => {
                assert!(w.is_done());
                return (cmds, waits, r);
            }
            _ => {
                let outcome = if fail_at == Some(n) { Err(Error::Busy) } else { Ok(()) };
                n += 1;
                let a = w.step(buf, outcome);
                cmds.extend(a.commands.iter().copied());
                waits.push(a.next);
                next = a.next;
            }
        }
    }
}

#[test]
fn async_write_waits_and_sends_in_order() {
    let (cmds, waits, r) = run_async_write(&[7, 8, 9], None);
    assert_eq!(r, Ok(3));
    let tx: Vec<u8> = cmds
        .iter()
        .filter_map(|c| if let Command::Transmit(b) = c { Some(*b) } else { None })
        .collect();
    assert_eq!(tx, vec![0xa0, 7, 8, 9]);
    let either = waits.iter().filter(|w| matches!(w, WaitNext::WaitEither(Event::TXE, Event::BTF))).count();
    assert_eq!(either, 2);
    assert!(matches!(waits[2], WaitNext::Wait(Event::TXE)));
    assert!(matches!(waits[5], WaitNext::Wait(Event::TXE)));
    assert!(matches!(waits[7], WaitNext::Wait(Event::BTF)));
    assert_eq!(*cmds.last().unwrap(), Command::Stop);
}

#[test]
fn async_write_errors_carry_the_wait_error() {
    let (cmds, _, r) = run_async_write(&[1, 2], Some(0));
    assert_eq!(r, Err(Error::Busy));
    assert!(!cmds.contains(&Command::Stop));
    let (cmds, _, r) = run_async_write(&[1, 2], Some(1));
    assert_eq!(r, Err(Error::Busy));
    assert!(cmds.contains(&Command::ClearEvent(Event::AF)) && cmds.contains(&Command::Stop));
    // the wait before the first byte fails: no stop
    let (cmds, _, r) = run_async_write(&[1, 2], Some(2));
    assert_eq!(r, Err(Error::Busy));
    assert!(!cmds.contains(&Command::Stop));
    // a later wait fails: stop
    let (cmds, _, r) = run_async_write(&[1, 2], Some(3));
    assert_eq!(r, Err(Error::Busy));
    assert_eq!(*cmds.last().unwrap(), Command::Stop);
}

fn run_async_read(address: u8, len: usize, btf: bool, fail_at: Option<usize>) -> (Vec<Command>, Vec<WaitNext>, Result<usize, Error>) {
    let (mut rd, first) = AsyncMasterRead::begin(address, len);
    let mut cmds = first.commands.clone();
    let mut waits = vec![first.next];
    let mut next = first.next;
    let mut n = 0;
    loop {
        match next {
            WaitNext::Finished(r) => {
                assert!(rd.is_done());
                return (cmds, waits, r);
            }
            _ => {
                let outcome = if fail_at == Some(n) { Err(Error::Tx) } else { Ok(()) };
                n += 1;
                let a = rd.step(outcome, btf);
                cmds.extend(a.commands.iter().copied());
                waits.push(a.next);
                next = a.next;
            }
        }
    }
}

fn read_positions(cmds: &[Command]) -> Vec<usize> {
    cmds.iter().filter_map(|c| if let Command::ReadInto(i) = c { Some(*i) } else { None }).collect()
}

#[test]
fn async_read_fills_buffer_in_order() {
    for btf in [false, true] {
        for len in 0..6 {
            let (cmds, waits, r) = run_async_read(0x21, len, btf, None);
            assert_eq!(r, Ok(len));
            assert_eq!(cmds[0], Command::Start);
            assert_eq!(cmds[1], Command::Transmit(0x43));
            assert_eq!(read_positions(&cmds), (0..len).collect::<Vec<_>>());
            assert_eq!(*cmds.last().unwrap(), Command::Stop);
            assert!(matches!(waits[0], WaitNext::Wait(Event::SB)));
            assert!(matches!(waits[1], WaitNext::Wait(Event::ADD)));
        }
    }
}

#[test]
fn async_read_acknowledges_all_but_the_last_two() {
    let (cmds, _, _) = run_async_read(0x21, 4, false, None);
    let acks: Vec<bool> = cmds.iter().filter_map(|c| if let Command::Ack(a) = c { Some(*a) } else { None }).collect();
    assert_eq!(acks, vec![true, true, false, false]);
    // with the byte-finished flag up, two bytes are taken per wait
    let (cmds, waits, r) = run_async_read(0x21, 4, true, None);
    assert_eq!(r, Ok(4));
    let rxne = waits.iter().filter(|w| matches!(w, WaitNext::Wait(Event::RXNE))).count();
    assert_eq!(rxne, 2);
    assert_eq!(
        &cmds[2..],
        &[
            Command::Ack(true),
            Command::ReadInto(0),
            Command::Ack(true),
            Command::ReadInto(1),
            Command::Ack(false),
            Command::ReadInto(2),
            Command::Ack(false),
            Command::ReadInto(3),
            Command::Stop,
        ]
    );
}

#[test]
fn async_read_errors_carry_the_wait_error() {
    for fail_at in 0..4 {
        let (cmds, _, r) = run_async_read(0x21, 3, false, Some(fail_at));
        assert_eq!(r, Err(Error::Tx));
        assert!(!cmds.contains(&Command::Stop));
        assert_eq!(read_positions(&cmds).len(), fail_at.saturating_sub(2));
    }
}

#[test]
fn event_interrupt_disables_the_groups_that_fired() {
    let mut r = regs();
    r.cr2 = (1 << 8) | (1 << 9) | (1 << 10) | 0x3f;
    r.sr1 = 1 << 7;
    r.on_event_interrupt();
    assert_eq!(r.cr2, (1 << 8) | (1 << 9) | 0x3f);
    r.sr1 = (1 << 1) | (1 << 10);
    r.on_event_interrupt();
    assert_eq!(r.cr2, 0x3f);
    assert_eq!(r.sr1, (1 << 1) | (1 << 10));
    // a flag whose group is already off changes nothing
    let mut q = regs();
    q.cr2 = 1 << 10;
    q.sr1 = 1;
    q.on_event_interrupt();
    assert_eq!(q.cr2, 1 << 10);
}

#[test]
fn async_read_reports_its_phase() {
    let (mut rd, _) = AsyncMasterRead::begin(0x21, 2);
    assert_eq!(rd.phase(), py32f030_hal::i2c::master::ReadPhase::Start);
    rd.step(Ok(()), false);
    assert_eq!(rd.phase(), py32f030_hal::i2c::master::ReadPhase::Address);
    rd.step(Ok(()), false);
    assert_eq!(rd.phase(), py32f030_hal::i2c::master::ReadPhase::Receive(0));
}
