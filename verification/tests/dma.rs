use py32f030_hal::dma::{
    config, enable, event_clear, event_config, event_flag, is_event_enable, remain_count,
    wait_step, Burst, Channel, ChannelRegs, Config, Direction, Event, Priorities, RepeatMode,
    WaitStep,
};

#[test]
fn config_constructors() {
    let m = Config::new_mem2mem(0x2000_0000, true, 0x2000_0100, false, Priorities::High, RepeatMode::OneTime(8), Burst::Word);
    assert_eq!(m.diretion, Direction::MemoryToMemory);
    assert_eq!((m.memAddr, m.periphAddr), (0x2000_0000, 0x2000_0100));
    assert!(m.memInc && !m.periphInc);
    let p = Config::new_periph2mem(0x4001_300c, false, Burst::Byte, 0x2000_0000, true, Burst::HalfWord, Priorities::Low, RepeatMode::Repeat(4));
    assert_eq!((p.periphAddr, p.memAddr), (0x4001_300c, 0x2000_0000));
    assert_eq!((p.periphDataSize, p.memDataSize), (Burst::Byte, Burst::HalfWord));
    let q = Config::new_mem2periph(1, true, Burst::Word, 2, false, Burst::Byte, Priorities::Medium, RepeatMode::OneTime(1));
    assert_eq!((q.memAddr, q.periphAddr), (1, 2));
    // memory is the source: its width is the source width
    assert_eq!((q.memDataSize, q.periphDataSize), (Burst::Word, Burst::Byte));
}

#[test]
fn channel_config_registers() {
    let mut r = ChannelRegs { ccr: 1, cndtr: 0xffff_0000, cpar: 0, cmar: 0 };
    let c = Config::new_mem2mem(0x2000_0000, true, 0x2000_0100, false, Priorities::High, RepeatMode::Repeat(16), Burst::Word);
    config(Channel::Channel1, &mut r, c);
    assert_eq!(r.ccr, (1 << 14) | (2 << 12) | (2 << 10) | (2 << 8) | (1 << 7) | (1 << 4) | (1 << 5));
    assert_eq!(r.cndtr, 0xffff_0010);
    assert_eq!((r.cpar, r.cmar), (0x2000_0100, 0x2000_0000));
    let mut s = ChannelRegs { ccr: 0, cndtr: 0, cpar: 0, cmar: 0 };
    let p = Config::new_periph2mem(0x4001_300c, false, Burst::Byte, 0x2000_0000, true, Burst::Byte, Priorities::Low, RepeatMode::OneTime(3));
    config(Channel::Channel1, &mut s, p);
    // the peripheral address goes to CPAR, the memory address to CMAR
    assert_eq!((s.cpar, s.cmar), (0x4001_300c, 0x2000_0000));
    assert_eq!((s.ccr >> 4) & 1, 0);
    assert_eq!(enable(s.ccr, true) & 1, 1);
}

#[test]
fn flags_and_waits() {
    assert_eq!(event_clear(Channel::Channel1, Event::TCIF), 1 << 1);
    assert_eq!(event_clear(Channel::Channel3, Event::TEIF), 1 << 11);
    assert!(event_flag(1 << 1, Channel::Channel1, Event::TCIF));
    assert!(!event_flag(1 << 2, Channel::Channel1, Event::TCIF));
    assert_eq!(wait_step(1 << 1, Channel::Channel1, Event::TCIF), WaitStep::Done);
    assert_eq!(wait_step(1 << 3, Channel::Channel1, Event::TCIF), WaitStep::Failed);
    assert_eq!(wait_step(1 << 3 | 1 << 2, Channel::Channel1, Event::HTIF), WaitStep::Done);
    assert_eq!(wait_step(0, Channel::Channel1, Event::HTIF), WaitStep::Pending);
    assert_eq!(remain_count(0x0001_0005), 5);
    // a later channel: its flags lie four bits further up per channel
    assert_eq!(wait_step(1 << 16, Channel::Channel2, Event::TCIF), WaitStep::Done);
}

#[test]
fn event_interrupt_enables() {
    let ccr = event_config(0, Event::HTIF, true);
    assert_eq!(ccr, 1 << 2);
    assert!(is_event_enable(ccr, Event::HTIF));
    // the error event switches its own enable, and reads back
    assert_eq!(event_config(0, Event::TEIF, true), 1 << 3);
    assert!(is_event_enable(event_config(1 << 1, Event::TEIF, true), Event::TEIF));
    assert_eq!(event_config(0xf, Event::TEIF, false), 0x7);
    assert_eq!(event_config(5, Event::GIF, true), 5);
    assert!(!is_event_enable(0xffff, Event::GIF));
    assert!(is_event_enable(1 << 3, Event::TEIF));
}
