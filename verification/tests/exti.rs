use py32f030_hal::exti::{
    on_line_irq, pending_lines, BitIter, Edge, ExitPinSource, ExtiInputFuture, ExtiRegs, Line,
};
use py32f030_hal::gpio::GpioPort;
use py32f030_hal::exti::source_allowed_for;

fn regs() -> ExtiRegs {
    ExtiRegs { rtsr: 0, ftsr: 0, imr: 0, pr: 0, exticr1: 0, exticr2: 0, exticr3: 0 }
}

#[test]
fn bit_iter_walks_set_bits_low_to_high() {
    let mut it = BitIter(0b1010_0001);
    assert_eq!(it.next(), Some(0));
    assert_eq!(it.next(), Some(5));
    assert_eq!(it.next(), Some(7));
    assert_eq!(it.next(), None);
    assert_eq!(it.0, 0);
    let mut top = BitIter(1 << 31);
    assert_eq!(top.next(), Some(31));
    assert_eq!(top.next(), None);
}

#[test]
fn line_index_round_trip() {
    for i in 0..16usize {
        assert_eq!(Line::from_index(i).index(), i);
    }
}

#[test]
fn edges() {
    assert!(Edge::Rising.is_rising() && !Edge::Rising.is_falling());
    assert!(!Edge::Falling.is_rising() && Edge::Falling.is_falling());
    assert!(Edge::RisingFalling.is_rising() && Edge::RisingFalling.is_falling());
}

#[test]
fn select_port_for_lines() {
    let mut r = regs();
    r.exit_channle_select(Line::Line2, ExitPinSource::PF);
    assert_eq!(r.exticr1, 2 << 16);
    r.exit_channle_select(Line::Line4, ExitPinSource::PB);
    assert_eq!(r.exticr2, 1);
    r.exit_channle_select(Line::Line6, ExitPinSource::PB);
    assert_eq!(r.exticr2, 1 | (1 << 16));
    r.exit_channle_select(Line::Line12, ExitPinSource::PA);
    assert_eq!(r.exticr1, 2 << 16);
    assert_eq!(ExitPinSource::from_port(GpioPort::GPIOF).bits(), 2);
}

#[test]
fn future_arms_then_irq_completes_it() {
    let mut r = regs();
    r.pr = 0;
    let fut = ExtiInputFuture::new(&mut r, GpioPort::GPIOA, 3, Edge::Falling);
    assert_eq!(r.ftsr, 1 << 3);
    assert_eq!(r.rtsr, 0);
    assert_eq!(r.imr, 1 << 3);
    assert_eq!(r.pr, 1 << 3);
    assert!(!fut.is_ready(&r));
    // the edge comes: the line is pending
    r.pr = 1 << 3;
    let served = on_line_irq(&mut r, 0xffff);
    assert_eq!(served, 1 << 3);
    assert_eq!(r.imr, 0);
    assert!(fut.is_ready(&r));
    fut.release(&mut r);
    assert_eq!(r.ftsr, 0);
}

#[test]
fn irq_serves_only_masked_lines() {
    let mut r = regs();
    r.imr = 0xffff;
    r.pr = 0b1011;
    let served = on_line_irq(&mut r, 0b0011);
    assert_eq!(served, 0b0011);
    assert_eq!(r.imr, 0xfffc);
    assert_eq!(r.pr, 0b1011);
    assert_eq!(pending_lines(0b1011, 0b1100).0, 0b1000);
}

#[test]
fn pend_enable_round_trip() {
    let mut r = regs();
    r.line_pend_enable(Line::Line9, true);
    assert!(r.is_line_pend_enable(Line::Line9));
    r.line_pend_enable(Line::Line9, false);
    assert!(!r.is_line_pend_enable(Line::Line9));
    r.line_ring_edge(Line::Line1, true);
    assert_eq!(r.rtsr, 2);
    r.clear_pending(Line::Line15);
    assert_eq!(r.pr, 1 << 15);
}

#[test]
fn line_sources() {
    assert!(source_allowed_for(GpioPort::GPIOF, 2));
    assert!(!source_allowed_for(GpioPort::GPIOF, 6));
    assert!(source_allowed_for(GpioPort::GPIOB, 6));
    assert!(!source_allowed_for(GpioPort::GPIOA, 8));
    assert!(source_allowed_for(GpioPort::GPIOA, 9));
    assert!(!source_allowed_for(GpioPort::GPIOB, 9));
}

#[test]
fn bit_iter_yields_one_position_per_set_bit() {
    for x in [0u32, 1, 0b1011, 0x8000_0001, 0xffff_ffff, 0x1234_5678] {
        let mut it = BitIter(x);
        let mut n = 0;
        while let Some(b) = it.next() {
            assert_eq!((x >> b) & 1, 1);
            n += 1;
        }
        assert_eq!(n, x.count_ones());
    }
}
