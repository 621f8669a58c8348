//! Table of interrupt handlers, one slot per interrupt number.
use vstd::prelude::*;

verus! {

/// Why a handler could not be bound.
#[derive(Debug, Clone, Copy, PartialEq, Eq, Structural)]
pub enum Error {
    InvalidInterruptNumber,
    DoubleBinding,
}

/// Number of interrupt lines that can hold a handler.
pub const INTERRUPT_HANDLE_CNT: usize = 32;

/// Outcome of binding `f` to interrupt `irq_num` in the slots `t`: the
/// answer and the slots afterwards.
pub open spec fn bind_outcome<H>(t: Seq<Option<H>>, irq_num: int, f: H) -> (
    Result<(), Error>,
    Seq<Option<H>>,
) {
    if irq_num < 0 || irq_num >= INTERRUPT_HANDLE_CNT {
        (Err(Error::InvalidInterruptNumber), t)
    } else if t[irq_num] is Some {
        (Err(Error::DoubleBinding), t)
    } else {
        (Ok(()), t.update(irq_num, Some(f)))
    }
}

/// Outcome of unbinding interrupt `irq_num` in the slots `t`.
pub open spec fn unbind_outcome<H>(t: Seq<Option<H>>, irq_num: int) -> (
    Result<(), Error>,
    Seq<Option<H>>,
) {
    if irq_num < 0 || irq_num >= INTERRUPT_HANDLE_CNT {
        (Err(Error::InvalidInterruptNumber), t)
    } else {
        (Ok(()), t.update(irq_num, None))
    }
}

/// Handler found for interrupt `irq_num` in the slots `t`.
pub open spec fn lookup<H>(t: Seq<Option<H>>, irq_num: int) -> Option<H> {
    if irq_num < 0 || irq_num >= INTERRUPT_HANDLE_CNT {
        None
    } else {
        t[irq_num]
    }
}

/// One optional handler per interrupt number `0..INTERRUPT_HANDLE_CNT`.
pub struct HandlerTable<H> {
    slots: Vec<Option<H>>,
}

impl<H> View for HandlerTable<H> {
    type V = Seq<Option<H>>;

    closed spec fn view(&self) -> Seq<Option<H>> {
        self.slots@
    }
}

impl<H: Copy> HandlerTable<H> {
    /// A table with every slot empty.
    pub fn new() -> (t: Self)
        ensures
            t@.len() == INTERRUPT_HANDLE_CNT,
            forall|i: int| 0 <= i < INTERRUPT_HANDLE_CNT ==> t@[i] is None,
    {
        let mut slots: Vec<Option<H>> = Vec::new();
        let mut i: usize = 0;
        while i < INTERRUPT_HANDLE_CNT
            invariant
                i <= INTERRUPT_HANDLE_CNT,
                slots@.len() == i,
                forall|j: int| 0 <= j < i ==> slots@[j] is None,
            decreases INTERRUPT_HANDLE_CNT - i,
        {
            slots.push(None);
            i = i + 1;
        }
        HandlerTable { slots }
    }

    /// Number of slots.
    pub fn len(&self) -> (r: usize)
        ensures
            r == self@.len(),
    {
        self.slots.len()
    }

    /// Binds `f` to interrupt `irq_num`. An interrupt number outside the table
    /// is refused, and so is a slot that already holds a handler; the table
    /// is then unchanged.
    pub fn bind(&mut self, irq_num: usize, f: H) -> (r: Result<(), Error>)
        requires
            old(self)@.len() == INTERRUPT_HANDLE_CNT,
        ensures
            final(self)@.len() == INTERRUPT_HANDLE_CNT,
            (r, final(self)@) == bind_outcome(old(self)@, irq_num as int, f),
    {
        if irq_num >= INTERRUPT_HANDLE_CNT {
            return Err(Error::InvalidInterruptNumber);
        }
        if self.slots[irq_num].is_some() {
            Err(Error::DoubleBinding)
        } else {
            self.slots.set(irq_num, Some(f));
            Ok(())
        }
    }

    /// Empties the slot of interrupt `irq_num`. An interrupt number outside
    /// the table is refused and the table is unchanged.
    pub fn unbind(&mut self, irq_num: usize) -> (r: Result<(), Error>)
        requires
            old(self)@.len() == INTERRUPT_HANDLE_CNT,
        ensures
            final(self)@.len() == INTERRUPT_HANDLE_CNT,
            (r, final(self)@) == unbind_outcome(old(self)@, irq_num as int),
    {
        if irq_num >= INTERRUPT_HANDLE_CNT {
            return Err(Error::InvalidInterruptNumber);
        }
        self.slots.set(irq_num, None);
        Ok(())
    }

    /// The handler bound to interrupt `irq_num`, if any; `None` outside the table.
    pub fn handler(&self, irq_num: usize) -> (r: Option<H>)
        requires
            self@.len() == INTERRUPT_HANDLE_CNT,
        ensures
            r == lookup(self@, irq_num as int),
    {
        if irq_num >= INTERRUPT_HANDLE_CNT {
            None
        } else {
            self.slots[irq_num]
        }
    }
}

/// A handler bound to a free slot is the one found for that interrupt
/// afterwards, and every other slot keeps its handler.
pub proof fn law_bind_then_lookup<H>(t: Seq<Option<H>>, irq_num: int, f: H, other: int)
    requires
        t.len() == INTERRUPT_HANDLE_CNT,
        0 <= irq_num < INTERRUPT_HANDLE_CNT,
        t[irq_num] is None,
        other != irq_num,
    ensures
        bind_outcome(t, irq_num, f).0 is Ok,
        lookup(bind_outcome(t, irq_num, f).1, irq_num) == Some(f),
        lookup(bind_outcome(t, irq_num, f).1, other) == lookup(t, other),
{
}

/// A slot holds at most one handler: binding again to an interrupt that was
/// just bound is refused and leaves the table as it was.
pub proof fn law_no_double_binding<H>(t: Seq<Option<H>>, irq_num: int, f: H, g: H)
    requires
        t.len() == INTERRUPT_HANDLE_CNT,
        bind_outcome(t, irq_num, f).0 is Ok,
    ensures
        bind_outcome(bind_outcome(t, irq_num, f).1, irq_num, g) == (
            Err::<(), Error>(Error::DoubleBinding),
            bind_outcome(t, irq_num, f).1,
        ),
{
}

/// Unbinding frees the slot: a later bind to the same interrupt succeeds,
/// and after an unbind nothing is found for that interrupt.
pub proof fn law_unbind_frees_slot<H>(t: Seq<Option<H>>, irq_num: int, f: H)
    requires
        t.len() == INTERRUPT_HANDLE_CNT,
        0 <= irq_num < INTERRUPT_HANDLE_CNT,
    ensures
        lookup(unbind_outcome(t, irq_num).1, irq_num) is None,
        bind_outcome(unbind_outcome(t, irq_num).1, irq_num, f).0 is Ok,
{
}

} // verus!
