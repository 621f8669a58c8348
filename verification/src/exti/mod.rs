//! External interrupt lines: line and edge selection, pending flags.
//!
//! The EXTI registers are described by [`ExtiRegs`]; operations compute their new values.
use crate::bit::{bit_mask_idx_clear, bit_mask_idx_get, bit_mask_idx_modify, bit_mask_idx_set, bit_of, field_max, field_value, field_write};
use crate::clock::peripheral::PeripheralInterrupt;
use crate::gpio::GpioPort;
use vstd::prelude::*;
use vstd::std_specs::bits::u32_trailing_zeros;

verus! {

/// An external interrupt line, one per GPIO pin number.
#[derive(Debug, Clone, Copy, PartialEq, Eq, Structural)]
pub enum Line {
    Line0,
    Line1,
    Line2,
    Line3,
    Line4,
    Line5,
    Line6,
    Line7,
    Line8,
    Line9,
    Line10,
    Line11,
    Line12,
    Line13,
    Line14,
    Line15,
}

impl Line {
    pub open spec fn spec_index(self) -> u32 {
        match self {
            Line::Line0 => 0,
            Line::Line1 => 1,
            Line::Line2 => 2,
            Line::Line3 => 3,
            Line::Line4 => 4,
            Line::Line5 => 5,
            Line::Line6 => 6,
            Line::Line7 => 7,
            Line::Line8 => 8,
            Line::Line9 => 9,
            Line::Line10 => 10,
            Line::Line11 => 11,
            Line::Line12 => 12,
            Line::Line13 => 13,
            Line::Line14 => 14,
            Line::Line15 => 15,
        }
    }

    /// Line number.
    pub fn index(&self) -> (r: usize)
        ensures
            r == self.spec_index(),
    {
        match *self {
            Line::Line0 => 0,
            Line::Line1 => 1,
            Line::Line2 => 2,
            Line::Line3 => 3,
            Line::Line4 => 4,
            Line::Line5 => 5,
            Line::Line6 => 6,
            Line::Line7 => 7,
            Line::Line8 => 8,
            Line::Line9 => 9,
            Line::Line10 => 10,
            Line::Line11 => 11,
            Line::Line12 => 12,
            Line::Line13 => 13,
            Line::Line14 => 14,
            Line::Line15 => 15,
        }
    }

    /// The line of GPIO pin number `value` (below 16).
    pub fn from_index(value: usize) -> (r: Self)
        requires
            value < 16,
        ensures
            r.spec_index() == value,
    {
        match value {
            0 => Self::Line0,
            1 => Self::Line1,
            2 => Self::Line2,
            3 => Self::Line3,
            4 => Self::Line4,
            5 => Self::Line5,
            6 => Self::Line6,
            7 => Self::Line7,
            8 => Self::Line8,
            9 => Self::Line9,
            10 => Self::Line10,
            11 => Self::Line11,
            12 => Self::Line12,
            13 => Self::Line13,
            14 => Self::Line14,
            _ => Self::Line15,
        }
    }
}

/// Signal edge that triggers a line.
#[derive(Debug, Clone, Copy, PartialEq, Eq, Structural)]
pub enum Edge {
    /// Rising edge.
    Rising,
    /// Falling edge.
    Falling,
    /// Both edges.
    RisingFalling,
}

impl Edge {
    /// The rising edge triggers.
    pub fn is_rising(&self) -> (r: bool)
        ensures
            r <==> (*self == Edge::Rising || *self == Edge::RisingFalling),
    {
        *self == Self::Rising || *self == Self::RisingFalling
    }

    /// The falling edge triggers.
    pub fn is_falling(&self) -> (r: bool)
        ensures
            r <==> (*self == Edge::Falling || *self == Edge::RisingFalling),
    {
        *self == Self::Falling || *self == Self::RisingFalling
    }
}

/// The set bits of a word, lowest first.
pub struct BitIter(pub u32);

impl BitIter {
    /// Removes and returns the lowest set bit's position, or `None` when no bit is set.
    pub fn next(&mut self) -> (r: Option<u32>)
        ensures
            old(self).0 == 0 ==> r.is_none() && final(self).0 == 0,
            old(self).0 != 0 ==> ({
                let idx = u32_trailing_zeros(old(self).0);
                &&& r == Some(idx)
                &&& idx < 32
                &&& bit_of(old(self).0, idx)
                &&& forall|j: u32| j < idx ==> !#[trigger] bit_of(old(self).0, j)
                &&& final(self).0 == field_write(old(self).0, idx, 1, 0)
                &&& final(self).0 < old(self).0
            }),
            old(self).0 != 0 ==> bit_iter_seq(old(self).0) == seq![r->0] + bit_iter_seq(final(self).0),
    {
        let tz = self.0.trailing_zeros();
        proof {
            vstd::std_specs::bits::axiom_u32_trailing_zeros(self.0);
        }
        if tz == 32 {
            None
        } else {
            let old_v = self.0;
            let v = bit_mask_idx_clear::<1>(tz as usize, self.0);
            assert(v < old_v) by (bit_vector)
                requires
                    tz < 32,
                    (old_v >> tz) & 1u32 == 1u32,
                    v == old_v & !((((1u32 << 1u32) - 1u32) as u32) << tz) | (0u32 << tz),
            ;
            self.0 = v;
            Some(tz)
        }
    }
}

/// GPIO port selector of an EXTI line.
#[derive(Debug, Clone, Copy, PartialEq, Eq, Structural)]
pub enum ExitPinSource {
    PA,
    PB,
    PF,
}

impl ExitPinSource {
    pub open spec fn spec_bits(self) -> u32 {
        match self {
            ExitPinSource::PA => 0,
            ExitPinSource::PB => 1,
            ExitPinSource::PF => 2,
        }
    }

    /// `EXTICR` selector code.
    pub fn bits(&self) -> (r: u32)
        ensures
            r == self.spec_bits(),
    {
        match *self {
            ExitPinSource::PA => 0,
            ExitPinSource::PB => 1,
            ExitPinSource::PF => 2,
        }
    }

    pub open spec fn from_port_spec(value: GpioPort) -> ExitPinSource {
        match value {
            GpioPort::GPIOA => ExitPinSource::PA,
            GpioPort::GPIOB => ExitPinSource::PB,
            GpioPort::GPIOF => ExitPinSource::PF,
        }
    }

    /// The selector of a GPIO port.
    pub fn from_port(value: GpioPort) -> (r: Self)
        ensures
            r == Self::from_port_spec(value),
            r.spec_bits() == value.spec_index(),
    {
        match value {
            GpioPort::GPIOA => Self::PA,
            GpioPort::GPIOB => Self::PB,
            GpioPort::GPIOF => Self::PF,
        }
    }
}

/// Image of the EXTI registers.
#[derive(Debug, Clone, Copy, PartialEq, Eq, Structural)]
pub struct ExtiRegs {
    pub rtsr: u32,
    pub ftsr: u32,
    pub imr: u32,
    pub pr: u32,
    pub exticr1: u32,
    pub exticr2: u32,
    pub exticr3: u32,
}

/// `0` or `1` for a flag.
pub open spec fn flag(en: bool) -> u32 {
    if en {
        1
    } else {
        0
    }
}

/// The pin source a line may take: lines 5 to 7 have no PF selector, line 8 cannot be
/// selected at all, lines 9 to 15 only serve port A.
pub open spec fn source_allowed(line: Line, pin: ExitPinSource) -> bool {
    let i = line.spec_index();
    if i <= 4 {
        true
    } else if i <= 7 {
        pin != ExitPinSource::PF
    } else if i == 8 {
        false
    } else {
        pin == ExitPinSource::PA
    }
}

impl ExtiRegs {
    /// Register values after routing `pin`'s port to `line`.
    pub open spec fn spec_select(self, line: Line, pin: ExitPinSource) -> ExtiRegs {
        let i = line.spec_index();
        if i <= 3 {
            ExtiRegs { exticr1: field_write(self.exticr1, (i * 8) as u32, 2, pin.spec_bits()), ..self }
        } else if i == 4 {
            ExtiRegs { exticr2: field_write(self.exticr2, 0, 2, pin.spec_bits()), ..self }
        } else if i <= 7 {
            ExtiRegs {
                exticr2: field_write(self.exticr2, ((i - 4) * 8) as u32, 1, pin.spec_bits()),
                ..self
            }
        } else {
            self
        }
    }

    /// Enables or disables the rising-edge trigger of a line.
    pub fn line_ring_edge(&mut self, line: Line, en: bool)
        ensures
            *final(self) == (ExtiRegs {
                rtsr: field_write(old(self).rtsr, line.spec_index(), 1, flag(en)),
                ..*old(self)
            }),
    {
        proof {
            crate::bit::lemma_field_max_values();
        }
        self.rtsr = bit_mask_idx_modify::<1>(
            line.index() * 1,
            self.rtsr,
            if en {
                1
            } else {
                0
            },
        );
    }

    /// Enables or disables the falling-edge trigger of a line.
    pub fn line_falling_edge(&mut self, line: Line, en: bool)
        ensures
            *final(self) == (ExtiRegs {
                ftsr: field_write(old(self).ftsr, line.spec_index(), 1, flag(en)),
                ..*old(self)
            }),
    {
        proof {
            crate::bit::lemma_field_max_values();
        }
        self.ftsr = bit_mask_idx_modify::<1>(
            line.index(),
            self.ftsr,
            if en {
                1
            } else {
                0
            },
        );
    }

    /// Acknowledges the pending flag of a line (write one to clear).
    pub fn clear_pending(&mut self, line: Line)
        ensures
            *final(self) == (ExtiRegs {
                pr: field_write(old(self).pr, line.spec_index(), 1, field_max(1)),
                ..*old(self)
            }),
    {
        self.pr = bit_mask_idx_set::<1>(line.index(), self.pr);
    }

    /// Routes the port of `pin` to `line`.
    pub fn exit_channle_select(&mut self, line: Line, pin: ExitPinSource)
        requires
            source_allowed(line, pin),
        ensures
            *final(self) == old(self).spec_select(line, pin),
    {
        proof {
            crate::bit::lemma_field_max_values();
        }
        let i = line.index();
        if i <= 3 {
            self.exticr1 = bit_mask_idx_modify::<2>(i * 8, self.exticr1, pin.bits());
        } else if i == 4 {
            self.exticr2 = bit_mask_idx_modify::<2>(0, self.exticr2, pin.bits());
        } else if i <= 7 {
            self.exticr2 = bit_mask_idx_modify::<1>((i - 4) * 8, self.exticr2, pin.bits());
        }
    }

    /// Unmasks or masks the interrupt of a line.
    pub fn line_pend_enable(&mut self, line: Line, en: bool)
        ensures
            *final(self) == (ExtiRegs {
                imr: field_write(old(self).imr, line.spec_index(), 1, flag(en)),
                ..*old(self)
            }),
    {
        proof {
            crate::bit::lemma_field_max_values();
        }
        self.imr = bit_mask_idx_modify::<1>(
            line.index(),
            self.imr,
            if en {
                1
            } else {
                0
            },
        );
    }

    /// The interrupt of a line is unmasked.
    pub fn is_line_pend_enable(&self, line: Line) -> (r: bool)
        ensures
            r == (field_value(self.imr, line.spec_index(), 1) != 0),
    {
        bit_mask_idx_get::<1>(line.index(), self.imr) != 0
    }
}

/// Register values after arming `line` (routed from port selector `pin`) for `edge`:
/// the port is selected, the edge triggers set, the pending flag acknowledged and the
/// interrupt unmasked.
pub open spec fn spec_listen(regs: ExtiRegs, line: Line, pin: ExitPinSource, edge: Edge) -> ExtiRegs {
    let i = line.spec_index();
    let s = regs.spec_select(line, pin);
    ExtiRegs {
        rtsr: field_write(s.rtsr, i, 1, flag(edge == Edge::Rising || edge == Edge::RisingFalling)),
        ftsr: field_write(s.ftsr, i, 1, flag(edge == Edge::Falling || edge == Edge::RisingFalling)),
        pr: field_write(s.pr, i, 1, field_max(1)),
        imr: field_write(s.imr, i, 1, 1),
        ..s
    }
}

/// Waits for an edge on a GPIO line.
pub struct ExtiInputFuture {
    line: Line,
    edge: Edge,
}

impl ExtiInputFuture {
    pub closed spec fn spec_line(self) -> Line {
        self.line
    }

    pub closed spec fn spec_edge(self) -> Edge {
        self.edge
    }

    /// Arms the line of pin `pin` of `port` for `edge`.
    pub fn new(regs: &mut ExtiRegs, port: GpioPort, pin: usize, edge: Edge) -> (r: Self)
        requires
            pin < 16,
            source_allowed(r_line(pin), ExitPinSource::from_port_spec(port)),
        ensures
            r.spec_line().spec_index() == pin,
            r.spec_edge() == edge,
            *final(regs) == spec_listen(*old(regs), r.spec_line(), ExitPinSource::from_port_spec(port), edge),
    {
        let line = Line::from_index(pin);
        assert(line == r_line(pin));
        regs.exit_channle_select(line, ExitPinSource::from_port(port));
        regs.line_ring_edge(line, edge.is_rising());
        regs.line_falling_edge(line, edge.is_falling());
        regs.clear_pending(line);
        regs.line_pend_enable(line, true);
        Self { line, edge }
    }

    /// The edge has occurred: the interrupt handler masked the line again.
    pub fn is_ready(&self, regs: &ExtiRegs) -> (r: bool)
        ensures
            r == (field_value(regs.imr, self.spec_line().spec_index(), 1) == 0),
    {
        !regs.is_line_pend_enable(self.line)
    }

    /// Disarms the edge trigger the future was waiting for (the rising one when both were armed).
    pub fn release(&self, regs: &mut ExtiRegs)
        ensures
            (self.spec_edge() == Edge::Rising || self.spec_edge() == Edge::RisingFalling) ==> *final(regs) == (ExtiRegs {
                rtsr: field_write(old(regs).rtsr, self.spec_line().spec_index(), 1, 0),
                ..*old(regs)
            }),
            self.spec_edge() == Edge::Falling ==> *final(regs) == (ExtiRegs {
                ftsr: field_write(old(regs).ftsr, self.spec_line().spec_index(), 1, 0),
                ..*old(regs)
            }),
    {
        if self.edge.is_rising() {
            regs.line_ring_edge(self.line, false);
        } else if self.edge.is_falling() {
            regs.line_falling_edge(self.line, false);
        }
    }
}

/// The line of GPIO pin number `pin`.
pub open spec fn r_line(pin: usize) -> Line {
    if pin == 0 {
        Line::Line0
    } else if pin == 1 {
        Line::Line1
    } else if pin == 2 {
        Line::Line2
    } else if pin == 3 {
        Line::Line3
    } else if pin == 4 {
        Line::Line4
    } else if pin == 5 {
        Line::Line5
    } else if pin == 6 {
        Line::Line6
    } else if pin == 7 {
        Line::Line7
    } else if pin == 8 {
        Line::Line8
    } else if pin == 9 {
        Line::Line9
    } else if pin == 10 {
        Line::Line10
    } else if pin == 11 {
        Line::Line11
    } else if pin == 12 {
        Line::Line12
    } else if pin == 13 {
        Line::Line13
    } else if pin == 14 {
        Line::Line14
    } else {
        Line::Line15
    }
}

/// Whether the line of pin `pin` can take its input from `port`: lines 5 to 7
/// cannot serve port F, line 8 no port, lines 9 to 15 only port A.
pub fn source_allowed_for(port: GpioPort, pin: usize) -> (r: bool)
    requires
        pin < 16,
    ensures
        r == source_allowed(r_line(pin), ExitPinSource::from_port_spec(port)),
{
    let src = ExitPinSource::from_port(port);
    if pin <= 4 {
        true
    } else if pin <= 7 {
        src != ExitPinSource::PF
    } else if pin == 8 {
        false
    } else {
        src == ExitPinSource::PA
    }
}

/// The pending lines an interrupt vector must serve.
pub fn pending_lines(pr: u32, mask: u32) -> (r: BitIter)
    ensures
        r.0 == pr & mask,
{
    BitIter(pr & mask)
}

/// Serves the pending lines selected by `mask`: masks each one's interrupt and
/// acknowledges its flag. Returns the lines served. Only GPIO lines (0 to 15) may be selected.
pub fn on_line_irq(regs: &mut ExtiRegs, mask: u32) -> (r: u32)
    requires
        mask <= 0xffff,
    ensures
        r == old(regs).pr & mask,
        final(regs).imr == old(regs).imr & !r,
        final(regs).pr == old(regs).pr | r,
        final(regs).rtsr == old(regs).rtsr,
        final(regs).ftsr == old(regs).ftsr,
        final(regs).exticr1 == old(regs).exticr1,
        final(regs).exticr2 == old(regs).exticr2,
        final(regs).exticr3 == old(regs).exticr3,
{
    let flag_word = regs.pr & mask;
    let mut lines = pending_lines(regs.pr, mask);
    let ghost old_regs = *regs;
    let ghost oi0 = old_regs.imr;
    let ghost op0 = old_regs.pr;
    assert(oi0 == oi0 & !(flag_word & !flag_word) && op0 == op0 | (flag_word & !flag_word)
        && flag_word & !flag_word == 0) by (bit_vector);
    while lines.0 != 0
        invariant
            lines.0 & !flag_word == 0,
            regs.imr == old_regs.imr & !(flag_word & !lines.0),
            regs.pr == old_regs.pr | (flag_word & !lines.0),
            regs.rtsr == old_regs.rtsr,
            regs.ftsr == old_regs.ftsr,
            regs.exticr1 == old_regs.exticr1,
            regs.exticr2 == old_regs.exticr2,
            regs.exticr3 == old_regs.exticr3,
        decreases lines.0,
    {
        let before = lines.0;
        let idx = lines.next();
        match idx {
            Some(i) => {
                let imr = regs.imr;
                let pr = regs.pr;
                let after = lines.0;
                let new_imr = crate::bit::bit_mask_idx_clear::<1>(i as usize, imr);
                let new_pr = crate::bit::bit_mask_idx_set::<1>(i as usize, pr);
                let ghost oi = old_regs.imr;
                let ghost op = old_regs.pr;
                assert(after & !flag_word == 0 && new_imr == oi & !(flag_word & !after) && new_pr
                    == op | (flag_word & !after)) by (bit_vector)
                    requires
                        i < 32,
                        (before >> i) & 1u32 == 1u32,
                        before & !flag_word == 0,
                        after == before & !((((1u32 << 1u32) - 1u32) as u32) << i) | (0u32 << i),
                        imr == oi & !(flag_word & !before),
                        pr == op | (flag_word & !before),
                        new_imr == imr & !((((1u32 << 1u32) - 1u32) as u32) << i) | (0u32 << i),
                        new_pr == pr & !((((1u32 << 1u32) - 1u32) as u32) << i) | ((((1u32 << 1u32)
                            - 1u32) as u32) << i),
                ;
                regs.imr = new_imr;
                regs.pr = new_pr;
            },
            None => {},
        }
    }
    assert(flag_word & !0u32 == flag_word) by (bit_vector);
    flag_word
}

/// Each step of a bit iteration makes the word strictly smaller, so iteration ends
/// after at most as many steps as the word has set bits, and every reported bit was set.
pub proof fn law_bit_iter_progress(v: u32)
    requires
        v != 0,
    ensures
        u32_trailing_zeros(v) < 32,
        bit_of(v, u32_trailing_zeros(v)),
        field_write(v, u32_trailing_zeros(v), 1, 0) < v,
        !bit_of(field_write(v, u32_trailing_zeros(v), 1, 0), u32_trailing_zeros(v)),
{
    vstd::std_specs::bits::axiom_u32_trailing_zeros(v);
    let tz = u32_trailing_zeros(v);
    let w = field_write(v, tz, 1, 0);
    assert(w < v && (w >> tz) & 1u32 != 1u32) by (bit_vector)
        requires
            tz < 32,
            (v >> tz) & 1u32 == 1u32,
            w == v & !((((1u32 << 1u32) - 1u32) as u32) << tz) | (0u32 << tz),
    ;
}

/// Clearing bit `t` of `v` keeps every other bit.
proof fn lemma_clear_bit(v: u32, t: u32)
    by (bit_vector)
    requires
        t < 32,
    ensures
        forall|i: u32| i < 32 ==> #[trigger] bit_of(field_write(v, t, 1, 0), i) == (i != t && bit_of(v, i)),
{
}

/// No bit of zero is set.
proof fn lemma_zero_has_no_bit()
    by (bit_vector)
    ensures
        forall|i: u32| !#[trigger] bit_of(0u32, i),
{
}

/// The positions a bit iteration over `x` reports, in order: the lowest set
/// bit, then those of `x` with that bit cleared.
pub open spec fn bit_iter_seq(x: u32) -> Seq<u32>
    decreases x,
{
    if x == 0 {
        Seq::empty()
    } else if field_write(x, u32_trailing_zeros(x), 1, 0) < x {
        seq![u32_trailing_zeros(x)] + bit_iter_seq(field_write(x, u32_trailing_zeros(x), 1, 0))
    } else {
        Seq::empty()
    }
}

/// Calling `BitIter::next` until it returns `None` reports each set bit of the
/// starting word exactly once, in increasing order: every reported position is
/// a set bit below 32, every set bit is reported, and the positions strictly
/// increase (so none repeats).
pub proof fn law_bit_iter_sequence(x: u32)
    ensures
        forall|i: int| 0 <= i < bit_iter_seq(x).len() ==> #[trigger] bit_iter_seq(x)[i] < 32
            && bit_of(x, bit_iter_seq(x)[i]),
        forall|b: u32| b < 32 && #[trigger] bit_of(x, b) ==> bit_iter_seq(x).contains(b),
        forall|i: int, j: int|
            0 <= i < j < bit_iter_seq(x).len() ==> bit_iter_seq(x)[i] < bit_iter_seq(x)[j],
    decreases x,
{
    if x == 0 {
        lemma_zero_has_no_bit();
    } else {
        vstd::std_specs::bits::axiom_u32_trailing_zeros(x);
        law_bit_iter_progress(x);
        let t = u32_trailing_zeros(x);
        let y = field_write(x, t, 1, 0);
        lemma_clear_bit(x, t);
        law_bit_iter_sequence(y);
        let s = bit_iter_seq(x);
        let r = bit_iter_seq(y);
        assert(s == seq![t] + r);
        assert forall|i: int| 0 <= i < r.len() implies #[trigger] r[i] > t by {
            let b = r[i];
            assert(bit_of(y, b));
            assert(b != t && bit_of(x, b));
            if b < t {
                assert((x >> b) & 1u32 == 0u32);
            }
        }
        assert forall|i: int| 0 <= i < s.len() implies #[trigger] s[i] < 32 && bit_of(x, s[i]) by {
            if i > 0 {
                assert(s[i] == r[i - 1]);
                assert(bit_of(y, r[i - 1]));
            }
        }
        assert forall|b: u32| b < 32 && #[trigger] bit_of(x, b) implies s.contains(b) by {
            if b == t {
                assert(s[0] == b);
            } else {
                assert(bit_of(y, b));
                assert(r.contains(b));
                let k = choose|k: int| 0 <= k < r.len() && r[k] == b;
                assert(s[k + 1] == b);
            }
        }
        assert forall|i: int, j: int| 0 <= i < j < s.len() implies s[i] < s[j] by {
            if i == 0 {
                assert(s[j] == r[j - 1]);
            } else {
                assert(s[i] == r[i - 1] && s[j] == r[j - 1]);
            }
        }
    }
}

/// Number of set bits of `x` below position `n`.
pub open spec fn ones_below(x: u32, n: nat) -> nat
    decreases n,
{
    if n == 0 {
        0
    } else {
        ones_below(x, (n - 1) as nat) + if bit_of(x, (n - 1) as u32) {
            1nat
        } else {
            0nat
        }
    }
}

proof fn lemma_ones_below_clear(x: u32, y: u32, t: u32, n: nat)
    requires
        t < 32,
        n <= 32,
        bit_of(x, t),
        forall|i: u32| i < 32 ==> #[trigger] bit_of(y, i) == (i != t && bit_of(x, i)),
    ensures
        ones_below(x, n) == ones_below(y, n) + if t < n {
            1nat
        } else {
            0nat
        },
    decreases n,
{
    if n > 0 {
        lemma_ones_below_clear(x, y, t, (n - 1) as nat);
        assert(bit_of(y, (n - 1) as u32) == ((n - 1) as u32 != t && bit_of(x, (n - 1) as u32)));
    }
}

/// A bit iteration over `x` reports as many positions as `x` has set bits.
pub proof fn law_bit_iter_count(x: u32)
    ensures
        bit_iter_seq(x).len() == ones_below(x, 32),
    decreases x,
{
    if x == 0 {
        lemma_zero_has_no_bit();
        lemma_ones_below_zero(32);
    } else {
        vstd::std_specs::bits::axiom_u32_trailing_zeros(x);
        law_bit_iter_progress(x);
        let t = u32_trailing_zeros(x);
        let y = field_write(x, t, 1, 0);
        lemma_clear_bit(x, t);
        law_bit_iter_count(y);
        lemma_ones_below_clear(x, y, t, 32);
    }
}

proof fn lemma_ones_below_zero(n: nat)
    requires
        forall|i: u32| !#[trigger] bit_of(0u32, i),
    ensures
        ones_below(0u32, n) == 0,
    decreases n,
{
    if n > 0 {
        lemma_ones_below_zero((n - 1) as nat);
        assert(!bit_of(0u32, (n - 1) as u32));
    }
}

/// A line that is pending and served by an interrupt vector ends up masked, which is
/// what an armed [`ExtiInputFuture`] waits for; lines the vector does not serve keep their mask.
pub proof fn law_irq_completes_wait(imr: u32, pr: u32, mask: u32, i: u32)
    requires
        i < 16,
    ensures
        field_value(pr, i, 1) == 1 && field_value(mask, i, 1) == 1 ==> field_value(
            imr & !(pr & mask),
            i,
            1,
        ) == 0,
        field_value(mask, i, 1) == 0 ==> field_value(imr & !(pr & mask), i, 1) == field_value(
            imr,
            i,
            1,
        ),
{
    assert((((pr >> i) & 1u32 == 1u32 && (mask >> i) & 1u32 == 1u32) ==> ((imr & !(pr & mask))
        >> i) & 1u32 == 0u32) && ((mask >> i) & 1u32 == 0u32 ==> ((imr & !(pr & mask)) >> i) & 1u32
        == (imr >> i) & 1u32)) by (bit_vector)
        requires
            i < 16,
    ;
    crate::bit::lemma_field_max_values();
}

impl PeripheralInterrupt for Line {
    open spec fn spec_interrupt(&self) -> u16 {
        if self.spec_index() <= 1 {
            5
        } else if self.spec_index() <= 3 {
            6
        } else {
            7
        }
    }

    /// `EXTI0_1`, `EXTI2_3` or `EXTI4_15`.
    fn interrupt(&self) -> (r: u16) {
        let i = self.index();
        if i <= 1 {
            5
        } else if i <= 3 {
            6
        } else {
            7
        }
    }
}

} // verus!
