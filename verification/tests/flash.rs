use py32f030_hal::flash::{
    is_busy, is_locked, page_addr, page_addr_valid, program_writes, sector_addr_valid,
    sector_protect, EraseTarget, Error, Flash, FlashAction, FlashErase, FlashEvent, CR_LOCK,
    CR_MER, CR_PER, CR_SER, ERASE_WORD, MASS_ERASE_WORD,
};
use py32f030_hal::flash::{lock_result, ob_lock_result, obl_launch_check, unlock_result, CR_OPTLOCK};

const LOCKED: u32 = 1 << CR_LOCK;

/// Drives an erase with scripted answers: the CR value at the start, whether the
/// controller goes idle before the keys, CR after the keys, whether the erase
/// finishes, and CR after locking. Returns the actions seen.
fn drive(mut e: FlashErase, cr0: u32, idle: bool, cr_keys: u32, done: bool, cr_end: u32) -> (Vec<FlashAction>, Result<(), Error>) {
    let mut seen = vec![];
    let mut a = e.request();
    loop {
        seen.push(a);
        let ev = match a {
            FlashAction::ReadControl => FlashEvent::Control(cr0),
            FlashAction::WaitIdle => FlashEvent::Idle(idle),
            FlashAction::WriteKeys => FlashEvent::Control(cr_keys),
            FlashAction::StartErase { .. } => FlashEvent::Idle(done),
            FlashAction::SetLock => FlashEvent::Control(cr_end),
            FlashAction::Finish(r) => return (seen, r),
        };
        a = e.step(ev);
    }
}

#[test]
fn addresses() {
    assert!(page_addr_valid(0x0800_0000));
    assert!(page_addr_valid(0x0800_0080));
    assert!(!page_addr_valid(0x0800_0040));
    assert!(!page_addr_valid(0x0801_0000));
    assert!(!page_addr_valid(0x07ff_ff80));
    assert!(sector_addr_valid(0x0800_1000));
    assert!(!sector_addr_valid(0x0800_1080));
    assert_eq!(page_addr(2, 3), 0x0800_0000 + 2 * 4096 + 3 * 128);
}

#[test]
fn register_flags() {
    assert!(is_locked(LOCKED));
    assert!(!is_locked(0x4000_0000));
    assert!(is_busy(1 << 16));
    assert!(!is_busy(0));
    assert_eq!(sector_protect(0xffff, 3, true), 0xfff7);
    assert_eq!(sector_protect(0xfff7, 3, false), 0xffff);
}

#[test]
fn page_erase_on_locked_flash() {
    let f = Flash::new();
    let (seen, r) = drive(f.erase_page(0x0800_0100), LOCKED, true, 0, true, LOCKED);
    assert_eq!(r, Ok(()));
    assert!(matches!(seen[1], FlashAction::WaitIdle));
    assert!(matches!(seen[2], FlashAction::WriteKeys));
    match seen[3] {
        FlashAction::StartErase { cr_bit, addr, word } => {
            assert_eq!((cr_bit, addr, word), (CR_PER, 0x0800_0100, ERASE_WORD));
        }
        _ => panic!("expected the erase to start"),
    }
    assert!(matches!(seen[4], FlashAction::SetLock));
}

#[test]
fn erase_errors() {
    let f = Flash::new();
    assert_eq!(drive(f.erase_page(0x0800_0100), LOCKED, false, 0, true, LOCKED).1, Err(Error::Busy));
    assert_eq!(drive(f.erase_page(0x0800_0100), LOCKED, true, LOCKED, true, LOCKED).1, Err(Error::Unlock));
    assert_eq!(drive(f.erase_page(0x0800_0101), 0, true, 0, true, LOCKED).1, Err(Error::Addr));
    assert_eq!(drive(f.erase_page(0x0800_0100), 0, true, 0, false, LOCKED).1, Err(Error::Timeout));
    assert_eq!(drive(f.erase_page(0x0800_0100), 0, true, 0, true, 0).1, Err(Error::Lock));
    assert_eq!(drive(Flash::erase_sector(0x0800_0100), 0, true, 0, true, LOCKED).1, Err(Error::Addr));
}

#[test]
fn mass_and_sector_erase() {
    let f = Flash::new();
    let (seen, r) = drive(f.erase_flash(), 0, true, 0, true, LOCKED);
    assert_eq!(r, Ok(()));
    match seen[1] {
        FlashAction::StartErase { cr_bit, addr, word } => {
            assert_eq!((cr_bit, addr, word), (CR_MER, 0x0800_0000, MASS_ERASE_WORD));
        }
        _ => panic!("expected the erase to start"),
    }
    let (seen, r) = drive(Flash::erase_sector(0x0800_2000), 0, true, 0, true, LOCKED);
    assert_eq!(r, Ok(()));
    assert!(matches!(seen[1], FlashAction::StartErase { cr_bit: CR_SER, .. }));
    // by index, a sector is erased as its first page
    let e = f.erase_sector_by_index(1);
    assert_eq!(e.target, EraseTarget::Page(0x0800_1000));
    let e = f.erase_page_by_index(1, 2);
    assert_eq!(e.target, EraseTarget::Page(0x0800_1100));
}

#[test]
fn finished_erase_stays_finished() {
    let f = Flash::new();
    let mut e = f.erase_page(0x0800_0101);
    e.step(FlashEvent::Control(0));
    assert!(matches!(e.step(FlashEvent::Idle(true)), FlashAction::Finish(Err(Error::Addr))));
    assert!(matches!(e.request(), FlashAction::Finish(Err(Error::Addr))));
}

#[test]
fn read_page_checks_address() {
    let f = Flash::new();
    let mut buf = [7u32; 32];
    assert_eq!(f.read_page(0x0800_0000, &mut buf), Ok(()));
    assert_eq!(f.read_page(0x0800_0004, &mut buf), Err(Error::Addr));
    assert_eq!(f.read_page_by_index(16, 0, &mut buf), Err(Error::Addr));
    assert_eq!(f.read_page_by_index(15, 31, &mut buf), Ok(()));
    assert_eq!(buf, [7u32; 32]);
}

#[test]
fn page_program_writes() {
    let mut content = [0u32; 32];
    for (i, c) in content.iter_mut().enumerate() {
        *c = i as u32 * 3;
    }
    let w = program_writes(0x0800_0200, &content);
    assert_eq!(w.len(), 32);
    assert_eq!(w[0].addr, 0x0800_0200);
    assert_eq!(w[31].addr, 0x0800_0200 + 124);
    assert_eq!(w[5].value, 15);
    assert!(w[30].start);
    assert_eq!(w.iter().filter(|x| x.start).count(), 1);
}

#[test]
fn lock_and_option_byte_checks() {
    assert_eq!(lock_result(LOCKED), Ok(()));
    assert_eq!(lock_result(0), Err(Error::Lock));
    assert_eq!(ob_lock_result(1 << CR_OPTLOCK), Ok(()));
    assert_eq!(ob_lock_result(LOCKED), Err(Error::Lock));
    assert_eq!(unlock_result(LOCKED, false), Err(Error::Unlock));
    assert_eq!(unlock_result(LOCKED, true), Ok(()));
    assert_eq!(obl_launch_check(1 << CR_OPTLOCK), Err(Error::Lock));
    assert_eq!(obl_launch_check(0), Ok(()));
}
