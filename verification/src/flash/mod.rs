//! Main flash: address checks, erase sequences and page programming.
mod types;

use crate::bit::{bit_write, field_value, read_flag, write_flag};
use vstd::prelude::*;

pub use types::Error;

verus! {

/// Bytes in a page.
pub const FLASH_PAGE_SIZE: usize = 128;

/// Words in a page.
pub const FLASH_PAGE_WORDS: usize = 32;

/// Pages in a sector.
pub const FLASH_PAGE_PER_SECTOR_CNT: usize = 32;

/// Bytes in a sector.
pub const FLASH_SECTOR_SIZE: usize = 4096;

/// Sectors of main flash.
pub const FLASH_SECTOR_CNT: usize = 16;

/// Bytes of main flash.
pub const MAIN_FLASH_SIZE: usize = 65536;

/// First address of main flash.
pub const FLASH_BASE_ADDR: u32 = 0x0800_0000;

/// First address past main flash.
pub const FLASH_END_ADDR: u32 = 0x0801_0000;

/// Polls of the busy flag before a wait gives up.
pub const WAIT_TICK_TIMEOUT: usize = 100000;

/// First unlock key of the main flash.
pub const KEY1: u32 = 0x4567_0123;

/// Second unlock key of the main flash.
pub const KEY2: u32 = 0xcdef_89ab;

/// First unlock key of the option bytes.
pub const OPT_KEY1: u32 = 0x0819_2a3b;

/// Second unlock key of the option bytes.
pub const OPT_KEY2: u32 = 0x4c5d_6e7f;

/// Word written to main flash to start a mass erase.
pub const MASS_ERASE_WORD: u32 = 0x1234_4321;

/// Word written to a page or sector to start its erase.
pub const ERASE_WORD: u32 = 0xff;

/// Index of the word after whose write page programming is started.
pub const PROGRAM_START_WORD: usize = 30;

/// `CR.PG`: page programming.
pub const CR_PG: usize = 0;

/// `CR.PER`: page erase.
pub const CR_PER: usize = 1;

/// `CR.MER`: mass erase.
pub const CR_MER: usize = 2;

/// `CR.SER`: sector erase.
pub const CR_SER: usize = 11;

/// `CR.PGTSTRT`: start of page programming.
pub const CR_PGTSTRT: usize = 19;

/// `CR.OBL_LAUNCH`: reload of the option bytes.
pub const CR_OBL_LAUNCH: usize = 27;

/// `CR.OPTLOCK`: option bytes locked.
pub const CR_OPTLOCK: usize = 30;

/// `CR.LOCK`: main flash locked.
pub const CR_LOCK: usize = 31;

/// `SR.BSY`: an operation is in progress.
pub const SR_BSY: usize = 16;

/// `addr` lies in main flash and starts a page.
pub open spec fn is_page_addr(addr: u32) -> bool {
    FLASH_BASE_ADDR <= addr < FLASH_END_ADDR && addr % (FLASH_PAGE_SIZE as u32) == 0
}

/// `addr` lies in main flash and starts a sector.
pub open spec fn is_sector_addr(addr: u32) -> bool {
    FLASH_BASE_ADDR <= addr < FLASH_END_ADDR && addr % (FLASH_SECTOR_SIZE as u32) == 0
}

/// Address of page `page` counted from the start of sector `sector`.
pub open spec fn spec_page_addr(sector: int, page: int) -> int {
    FLASH_BASE_ADDR + sector * FLASH_SECTOR_SIZE + page * FLASH_PAGE_SIZE
}

/// Bit `i` of a register value.
pub open spec fn flag(v: u32, i: usize) -> bool {
    field_value(v, i as u32, 1) == 1
}

/// `addr` lies in main flash and starts a page.
pub fn page_addr_valid(addr: u32) -> (r: bool)
    ensures
        r == is_page_addr(addr),
{
    FLASH_BASE_ADDR <= addr && addr < FLASH_END_ADDR && addr % (FLASH_PAGE_SIZE as u32) == 0
}

/// `addr` lies in main flash and starts a sector.
pub fn sector_addr_valid(addr: u32) -> (r: bool)
    ensures
        r == is_sector_addr(addr),
{
    FLASH_BASE_ADDR <= addr && addr < FLASH_END_ADDR && addr % (FLASH_SECTOR_SIZE as u32) == 0
}

/// Address of page `page` counted from the start of sector `sector`.
pub fn page_addr(sector: usize, page: usize) -> (r: u32)
    requires
        spec_page_addr(sector as int, page as int) <= u32::MAX,
    ensures
        r == spec_page_addr(sector as int, page as int),
{
    let s: u32 = sector as u32;
    let p: u32 = page as u32;
    FLASH_BASE_ADDR + s * (FLASH_SECTOR_SIZE as u32) + p * (FLASH_PAGE_SIZE as u32)
}

/// Main flash is locked according to a `CR` value.
pub fn is_locked(cr: u32) -> (r: bool)
    ensures
        r == flag(cr, CR_LOCK),
{
    read_flag(cr, CR_LOCK)
}

/// Option bytes are locked according to a `CR` value.
pub fn is_ob_locked(cr: u32) -> (r: bool)
    ensures
        r == flag(cr, CR_OPTLOCK),
{
    read_flag(cr, CR_OPTLOCK)
}

/// The controller is busy according to an `SR` value.
pub fn is_busy(sr: u32) -> (r: bool)
    ensures
        r == flag(sr, SR_BSY),
{
    read_flag(sr, SR_BSY)
}

/// Result of locking the main flash, from `CR` read back: `Lock` when it did not lock.
pub fn lock_result(cr: u32) -> (r: Result<(), Error>)
    ensures
        r == (if flag(cr, CR_LOCK) {
            Ok::<(), Error>(())
        } else {
            Err(Error::Lock)
        }),
{
    if is_locked(cr) {
        Ok(())
    } else {
        Err(Error::Lock)
    }
}

/// Result of locking the option bytes, from `CR` read back.
pub fn ob_lock_result(cr: u32) -> (r: Result<(), Error>)
    ensures
        r == (if flag(cr, CR_OPTLOCK) {
            Ok::<(), Error>(())
        } else {
            Err(Error::Lock)
        }),
{
    if is_ob_locked(cr) {
        Ok(())
    } else {
        Err(Error::Lock)
    }
}

/// Result of writing the unlock keys, from `CR` read back: for the main flash
/// (`option_bytes` false) or the option bytes; `Unlock` when still locked.
pub fn unlock_result(cr: u32, option_bytes: bool) -> (r: Result<(), Error>)
    ensures
        r == (if flag(cr, if option_bytes { CR_OPTLOCK } else { CR_LOCK }) {
            Err::<(), Error>(Error::Unlock)
        } else {
            Ok(())
        }),
{
    let locked = if option_bytes {
        is_ob_locked(cr)
    } else {
        is_locked(cr)
    };
    if locked {
        Err(Error::Unlock)
    } else {
        Ok(())
    }
}

/// Whether the option bytes may be reloaded: only while they are unlocked.
pub fn obl_launch_check(cr: u32) -> (r: Result<(), Error>)
    ensures
        r == (if flag(cr, CR_OPTLOCK) {
            Err::<(), Error>(Error::Lock)
        } else {
            Ok(())
        }),
{
    if is_ob_locked(cr) {
        Err(Error::Lock)
    } else {
        Ok(())
    }
}

/// `WRPR` after enabling (`en`) or disabling write protection of `sector`:
/// a protected sector has its bit cleared.
pub fn sector_protect(wrpr: u32, sector: usize, en: bool) -> (r: u32)
    requires
        sector < FLASH_SECTOR_CNT,
    ensures
        r == bit_write(wrpr, sector as u32, !en),
{
    write_flag(wrpr, sector, !en)
}

/// What to erase.
#[derive(Debug, Clone, Copy, PartialEq, Eq, Structural)]
pub enum EraseTarget {
    /// All of main flash.
    Mass,
    /// The page that starts at the address.
    Page(u32),
    /// The sector that starts at the address.
    Sector(u32),
}

impl EraseTarget {
    /// The address is acceptable for this kind of erase.
    pub open spec fn spec_addr_ok(self) -> bool {
        match self {
            EraseTarget::Mass => true,
            EraseTarget::Page(a) => is_page_addr(a),
            EraseTarget::Sector(a) => is_sector_addr(a),
        }
    }

    /// `CR` bit that selects this kind of erase.
    pub open spec fn spec_cr_bit(self) -> usize {
        match self {
            EraseTarget::Mass => CR_MER,
            EraseTarget::Page(_) => CR_PER,
            EraseTarget::Sector(_) => CR_SER,
        }
    }

    /// Address written to start the erase.
    pub open spec fn spec_addr(self) -> u32 {
        match self {
            EraseTarget::Mass => FLASH_BASE_ADDR,
            EraseTarget::Page(a) => a,
            EraseTarget::Sector(a) => a,
        }
    }

    /// Word written to start the erase.
    pub open spec fn spec_word(self) -> u32 {
        match self {
            EraseTarget::Mass => MASS_ERASE_WORD,
            EraseTarget::Page(_) => ERASE_WORD,
            EraseTarget::Sector(_) => ERASE_WORD,
        }
    }

    /// The start action of this erase.
    pub open spec fn spec_start(self) -> FlashAction {
        FlashAction::StartErase { cr_bit: self.spec_cr_bit(), addr: self.spec_addr(), word: self.spec_word() }
    }

    fn start(&self) -> (a: FlashAction)
        ensures
            a == self.spec_start(),
    {
        match *self {
            EraseTarget::Mass => FlashAction::StartErase {
                cr_bit: CR_MER,
                addr: FLASH_BASE_ADDR,
                word: MASS_ERASE_WORD,
            },
            EraseTarget::Page(a) => FlashAction::StartErase { cr_bit: CR_PER, addr: a, word: ERASE_WORD },
            EraseTarget::Sector(a) => FlashAction::StartErase {
                cr_bit: CR_SER,
                addr: a,
                word: ERASE_WORD,
            },
        }
    }

    fn addr_ok(&self) -> (r: bool)
        ensures
            r == self.spec_addr_ok(),
    {
        match *self {
            EraseTarget::Mass => true,
            EraseTarget::Page(a) => page_addr_valid(a),
            EraseTarget::Sector(a) => sector_addr_valid(a),
        }
    }
}

/// What the driver asks of the flash controller next.
#[derive(Debug, Clone, Copy)]
pub enum FlashAction {
    /// Read `CR` and report it with `FlashEvent::Control`.
    ReadControl,
    /// Poll `SR.BSY` up to `WAIT_TICK_TIMEOUT` times; report with
    /// `FlashEvent::Idle` whether it cleared.
    WaitIdle,
    /// Write `KEY1` then `KEY2` to `KEYR`, read `CR` and report it.
    WriteKeys,
    /// Set bit `cr_bit` of `CR`, write `word` at `addr`, then poll `SR.BSY`
    /// up to `WAIT_TICK_TIMEOUT` times and report whether it cleared.
    StartErase { cr_bit: usize, addr: u32, word: u32 },
    /// Set `CR.LOCK`, read `CR` back and report it.
    SetLock,
    /// The operation is over with this result.
    Finish(Result<(), Error>),
}

/// What the hardware reports back.
#[derive(Debug, Clone, Copy, PartialEq, Eq, Structural)]
pub enum FlashEvent {
    /// A `CR` value that was read.
    Control(u32),
    /// Whether `SR.BSY` cleared before the wait gave up.
    Idle(bool),
}

/// Where an erase stands.
#[derive(Debug, Clone, Copy)]
pub enum ErasePhase {
    /// `CR` was asked for, to see whether the flash is locked.
    ReadLock,
    /// Waiting for the controller to be idle before the keys.
    UnlockWait,
    /// The keys were written; `CR` was asked for.
    KeysWritten,
    /// The erase was started; waiting for it to complete.
    Erasing,
    /// `LOCK` was set; `CR` was asked for.
    Locking,
    /// The operation is over.
    Done(Result<(), Error>),
}

/// Step of an erase after the flash is known to be unlocked: refuse a bad
/// address, else start the erase.
pub open spec fn after_unlock(target: EraseTarget) -> (ErasePhase, FlashAction) {
    if target.spec_addr_ok() {
        (ErasePhase::Erasing, target.spec_start())
    } else {
        (ErasePhase::Done(Err(Error::Addr)), FlashAction::Finish(Err(Error::Addr)))
    }
}

/// One step of an erase: the phase after `ev` and the next action. An event
/// that the phase does not expect leaves the phase as it is and repeats its
/// request.
pub open spec fn erase_step(target: EraseTarget, phase: ErasePhase, ev: FlashEvent) -> (
    ErasePhase,
    FlashAction,
) {
    match (phase, ev) {
        (ErasePhase::ReadLock, FlashEvent::Control(cr)) => if flag(cr, CR_LOCK) {
            (ErasePhase::UnlockWait, FlashAction::WaitIdle)
        } else {
            after_unlock(target)
        },
        (ErasePhase::UnlockWait, FlashEvent::Idle(idle)) => if idle {
            (ErasePhase::KeysWritten, FlashAction::WriteKeys)
        } else {
            (ErasePhase::Done(Err(Error::Busy)), FlashAction::Finish(Err(Error::Busy)))
        },
        (ErasePhase::KeysWritten, FlashEvent::Control(cr)) => if flag(cr, CR_LOCK) {
            (ErasePhase::Done(Err(Error::Unlock)), FlashAction::Finish(Err(Error::Unlock)))
        } else {
            after_unlock(target)
        },
        (ErasePhase::Erasing, FlashEvent::Idle(idle)) => if idle {
            (ErasePhase::Locking, FlashAction::SetLock)
        } else {
            (ErasePhase::Done(Err(Error::Timeout)), FlashAction::Finish(Err(Error::Timeout)))
        },
        (ErasePhase::Locking, FlashEvent::Control(cr)) => if flag(cr, CR_LOCK) {
            (ErasePhase::Done(Ok(())), FlashAction::Finish(Ok(())))
        } else {
            (ErasePhase::Done(Err(Error::Lock)), FlashAction::Finish(Err(Error::Lock)))
        },
        (ErasePhase::Done(r), _) => (phase, FlashAction::Finish(r)),
        (_, _) => (phase, phase_request(phase)),
    }
}

/// The request that a phase is waiting on.
pub open spec fn phase_request(phase: ErasePhase) -> FlashAction {
    match phase {
        ErasePhase::ReadLock => FlashAction::ReadControl,
        ErasePhase::UnlockWait => FlashAction::WaitIdle,
        ErasePhase::KeysWritten => FlashAction::ReadControl,
        ErasePhase::Erasing => FlashAction::WaitIdle,
        ErasePhase::Locking => FlashAction::ReadControl,
        ErasePhase::Done(r) => FlashAction::Finish(r),
    }
}

/// Result of a whole erase from what the hardware answered at each point:
/// whether the flash was locked at the start, whether it went idle before
/// the keys, whether it was still locked after them, whether the erase
/// completed in time and whether it locked again.
pub open spec fn erase_outcome(
    target: EraseTarget,
    locked: bool,
    idle_before_keys: bool,
    locked_after_keys: bool,
    erase_done: bool,
    locked_at_end: bool,
) -> Result<(), Error> {
    if locked && !idle_before_keys {
        Err(Error::Busy)
    } else if locked && locked_after_keys {
        Err(Error::Unlock)
    } else if !target.spec_addr_ok() {
        Err(Error::Addr)
    } else if !erase_done {
        Err(Error::Timeout)
    } else if !locked_at_end {
        Err(Error::Lock)
    } else {
        Ok(())
    }
}

/// An erase in progress.
#[derive(Debug, Clone, Copy)]
pub struct FlashErase {
    pub target: EraseTarget,
    pub phase: ErasePhase,
}

impl FlashErase {
    /// A new erase of `target`; its first request is `ReadControl`.
    pub fn new(target: EraseTarget) -> (r: Self)
        ensures
            r.target == target,
            r.phase == ErasePhase::ReadLock,
    {
        FlashErase { target, phase: ErasePhase::ReadLock }
    }

    /// The request the erase is waiting on.
    pub fn request(&self) -> (a: FlashAction)
        ensures
            a == phase_request(self.phase),
    {
        match self.phase {
            ErasePhase::ReadLock => FlashAction::ReadControl,
            ErasePhase::UnlockWait => FlashAction::WaitIdle,
            ErasePhase::KeysWritten => FlashAction::ReadControl,
            ErasePhase::Erasing => FlashAction::WaitIdle,
            ErasePhase::Locking => FlashAction::ReadControl,
            ErasePhase::Done(r) => FlashAction::Finish(r),
        }
    }

    fn after_unlock(&mut self) -> (a: FlashAction)
        ensures
            (final(self).phase, a) == after_unlock(old(self).target),
            final(self).target == old(self).target,
    {
        if self.target.addr_ok() {
            self.phase = ErasePhase::Erasing;
            self.target.start()
        } else {
            self.phase = ErasePhase::Done(Err(Error::Addr));
            FlashAction::Finish(Err(Error::Addr))
        }
    }

    /// Takes the hardware's answer to the last request and returns the next
    /// request.
    pub fn step(&mut self, ev: FlashEvent) -> (a: FlashAction)
        ensures
            (final(self).phase, a) == erase_step(old(self).target, old(self).phase, ev),
            final(self).target == old(self).target,
    {
        match (self.phase, ev) {
            (ErasePhase::ReadLock, FlashEvent::Control(cr)) => {
                if is_locked(cr) {
                    self.phase = ErasePhase::UnlockWait;
                    FlashAction::WaitIdle
                } else {
                    self.after_unlock()
                }
            },
            (ErasePhase::UnlockWait, FlashEvent::Idle(idle)) => {
                if idle {
                    self.phase = ErasePhase::KeysWritten;
                    FlashAction::WriteKeys
                } else {
                    self.phase = ErasePhase::Done(Err(Error::Busy));
                    FlashAction::Finish(Err(Error::Busy))
                }
            },
            (ErasePhase::KeysWritten, FlashEvent::Control(cr)) => {
                if is_locked(cr) {
                    self.phase = ErasePhase::Done(Err(Error::Unlock));
                    FlashAction::Finish(Err(Error::Unlock))
                } else {
                    self.after_unlock()
                }
            },
            (ErasePhase::Erasing, FlashEvent::Idle(idle)) => {
                if idle {
                    self.phase = ErasePhase::Locking;
                    FlashAction::SetLock
                } else {
                    self.phase = ErasePhase::Done(Err(Error::Timeout));
                    FlashAction::Finish(Err(Error::Timeout))
                }
            },
            (ErasePhase::Locking, FlashEvent::Control(cr)) => {
                if is_locked(cr) {
                    self.phase = ErasePhase::Done(Ok(()));
                    FlashAction::Finish(Ok(()))
                } else {
                    self.phase = ErasePhase::Done(Err(Error::Lock));
                    FlashAction::Finish(Err(Error::Lock))
                }
            },
            (ErasePhase::Done(r), _) => FlashAction::Finish(r),
            (_, _) => self.request(),
        }
    }
}

/// Main flash.
pub struct Flash {}

impl Flash {
    pub fn new() -> (r: Self) {
        Flash {  }
    }

    /// Erase of all of main flash.
    pub fn erase_flash(&self) -> (r: FlashErase)
        ensures
            (r == FlashErase { target: EraseTarget::Mass, phase: ErasePhase::ReadLock }),
    {
        FlashErase::new(EraseTarget::Mass)
    }

    /// Erase of the page at `addr`; the address is checked once the flash is
    /// unlocked.
    pub fn erase_page(&self, addr: u32) -> (r: FlashErase)
        ensures
            (r == FlashErase { target: EraseTarget::Page(addr), phase: ErasePhase::ReadLock }),
    {
        FlashErase::new(EraseTarget::Page(addr))
    }

    /// Erase of page `page` of sector `sector`.
    pub fn erase_page_by_index(&self, sector: usize, page: usize) -> (r: FlashErase)
        requires
            spec_page_addr(sector as int, page as int) <= u32::MAX,
        ensures
            (r == FlashErase { target: EraseTarget::Page(spec_page_addr(sector as int, page as int) as u32), phase: ErasePhase::ReadLock }),
    {
        let addr = page_addr(sector, page);
        self.erase_page(addr)
    }

    /// Erase of the sector at `addr`.
    pub fn erase_sector(addr: u32) -> (r: FlashErase)
        ensures
            (r == FlashErase { target: EraseTarget::Sector(addr), phase: ErasePhase::ReadLock }),
    {
        FlashErase::new(EraseTarget::Sector(addr))
    }

    /// Erase at the first address of sector `sector`, done as a page erase.
    pub fn erase_sector_by_index(&self, sector: usize) -> (r: FlashErase)
        requires
            spec_page_addr(sector as int, 0) <= u32::MAX,
        ensures
            (r == FlashErase { target: EraseTarget::Page(spec_page_addr(sector as int, 0) as u32), phase: ErasePhase::ReadLock }),
    {
        let addr = page_addr(sector, 0);
        self.erase_page(addr)
    }

    /// Checks that `addr` starts a page of main flash; `buf` is left as it is.
    pub fn read_page(&self, addr: u32, buf: &mut [u32; 32]) -> (r: Result<(), Error>)
        ensures
            r == (if is_page_addr(addr) {
                Ok::<(), Error>(())
            } else {
                Err(Error::Addr)
            }),
            *final(buf) == *old(buf),
    {
        if !page_addr_valid(addr) {
            return Err(Error::Addr);
        }
        Ok(())
    }

    /// `read_page` at page `page` of sector `sector`.
    pub fn read_page_by_index(&self, sector: usize, page: usize, buf: &mut [u32; 32]) -> (r: Result<
        (),
        Error,
    >)
        requires
            spec_page_addr(sector as int, page as int) <= u32::MAX,
        ensures
            r == (if is_page_addr(spec_page_addr(sector as int, page as int) as u32) {
                Ok::<(), Error>(())
            } else {
                Err(Error::Addr)
            }),
            *final(buf) == *old(buf),
    {
        let addr = page_addr(sector, page);
        self.read_page(addr, buf)
    }
}

/// One word write of page programming.
#[derive(Debug, Clone, Copy, PartialEq, Eq, Structural)]
pub struct ProgramWrite {
    /// Address of the word.
    pub addr: u32,
    /// Value written.
    pub value: u32,
    /// `CR.PGTSTRT` is set right after this write.
    pub start: bool,
}

/// The word writes that program the page at `page_addr` with `content`, in
/// order: word `i` goes to `page_addr + 4 * i`, and programming starts after
/// word `PROGRAM_START_WORD`.
pub fn program_writes(page_addr: u32, content: &[u32; 32]) -> (w: Vec<ProgramWrite>)
    requires
        is_page_addr(page_addr),
    ensures
        w@.len() == FLASH_PAGE_WORDS,
        forall|i: int|
            0 <= i < FLASH_PAGE_WORDS ==> #[trigger] w@[i] == (ProgramWrite {
                addr: (page_addr + 4 * i) as u32,
                value: content@[i],
                start: i == PROGRAM_START_WORD,
            }),
{
    let mut w: Vec<ProgramWrite> = Vec::new();
    let mut i: usize = 0;
    while i < FLASH_PAGE_WORDS
        invariant
            i <= FLASH_PAGE_WORDS,
            is_page_addr(page_addr),
            w@.len() == i,
            forall|j: int|
                0 <= j < i ==> #[trigger] w@[j] == (ProgramWrite {
                    addr: (page_addr + 4 * j) as u32,
                    value: content@[j],
                    start: j == PROGRAM_START_WORD,
                }),
        decreases FLASH_PAGE_WORDS - i,
    {
        let off: u32 = (i as u32) * 4;
        w.push(ProgramWrite { addr: page_addr + off, value: content[i], start: i == PROGRAM_START_WORD });
        i = i + 1;
    }
    w
}

/// Driving an erase with the hardware's answers in order ends in the result
/// that those answers call for: `Busy`, `Unlock`, `Addr`, `Timeout` or
/// `Lock` at the first check that fails, `Ok` when none does.
pub proof fn law_erase_run(
    target: EraseTarget,
    cr0: u32,
    idle_before_keys: bool,
    cr_keys: u32,
    erase_done: bool,
    cr_end: u32,
)
    ensures
        ({
            let locked = flag(cr0, CR_LOCK);
            let s1 = erase_step(target, ErasePhase::ReadLock, FlashEvent::Control(cr0));
            let s2 = if locked {
                let a = erase_step(target, s1.0, FlashEvent::Idle(idle_before_keys));
                if a.0 is Done {
                    a
                } else {
                    erase_step(target, a.0, FlashEvent::Control(cr_keys))
                }
            } else {
                s1
            };
            let s3 = if s2.0 is Done {
                s2
            } else {
                erase_step(target, s2.0, FlashEvent::Idle(erase_done))
            };
            let s4 = if s3.0 is Done {
                s3
            } else {
                erase_step(target, s3.0, FlashEvent::Control(cr_end))
            };
            s4.1 == FlashAction::Finish(
                erase_outcome(
                    target,
                    locked,
                    idle_before_keys,
                    flag(cr_keys, CR_LOCK),
                    erase_done,
                    flag(cr_end, CR_LOCK),
                ),
            ) && s4.0 == ErasePhase::Done(
                erase_outcome(
                    target,
                    locked,
                    idle_before_keys,
                    flag(cr_keys, CR_LOCK),
                    erase_done,
                    flag(cr_end, CR_LOCK),
                ),
            )
        }),
{
}

/// Once an erase is over, further answers change nothing.
pub proof fn law_erase_done_is_final(target: EraseTarget, r: Result<(), Error>, ev: FlashEvent)
    ensures
        erase_step(target, ErasePhase::Done(r), ev) == (
            ErasePhase::Done(r),
            FlashAction::Finish(r),
        ),
{
}

/// Once the flash is found unlocked (at the start, or after the keys), an erase
/// is started inside the area it was asked for and nowhere else: a sector erase
/// of a sector-aligned main-flash address `a` (4 KiB sectors in
/// `0x0800_0000..0x0801_0000`) sets `SER` and writes the erase word `0xff` at `a`
/// itself; a page erase of a page-aligned (128-byte) address sets `PER` and
/// writes it at `a`; a mass erase sets `MER` and writes its own word at the
/// start of flash. An address outside main flash or not aligned is refused and
/// nothing is erased.
pub proof fn law_erase_starts_at_requested_address(a: u32, cr: u32)
    requires
        !flag(cr, CR_LOCK),
    ensures
        forall|phase: ErasePhase| (phase is ReadLock || phase is KeysWritten) ==> {
            &&& erase_step(EraseTarget::Sector(a), phase, FlashEvent::Control(cr)).1 == if 0x0800_0000
                <= a < 0x0801_0000 && a % 4096 == 0 {
                FlashAction::StartErase { cr_bit: 11, addr: a, word: 0xff }
            } else {
                FlashAction::Finish(Err(Error::Addr))
            }
            &&& erase_step(EraseTarget::Page(a), phase, FlashEvent::Control(cr)).1 == if 0x0800_0000
                <= a < 0x0801_0000 && a % 128 == 0 {
                FlashAction::StartErase { cr_bit: 1, addr: a, word: 0xff }
            } else {
                FlashAction::Finish(Err(Error::Addr))
            }
            &&& erase_step(EraseTarget::Mass, phase, FlashEvent::Control(cr)).1
                == FlashAction::StartErase { cr_bit: 2, addr: 0x0800_0000, word: 0x1234_4321 }
        },
{
}

} // verus!
