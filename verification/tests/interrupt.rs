use py32f030_hal::interrupt::{Error, HandlerTable, INTERRUPT_HANDLE_CNT};

#[test]
fn bind_then_lookup() {
    let mut t: HandlerTable<u32> = HandlerTable::new();
    assert_eq!(t.len(), INTERRUPT_HANDLE_CNT);
    assert_eq!(t.handler(5), None);
    assert_eq!(t.bind(5, 42), Ok(()));
    assert_eq!(t.handler(5), Some(42));
    assert_eq!(t.handler(6), None);
}

#[test]
fn double_binding_is_refused() {
    let mut t: HandlerTable<u32> = HandlerTable::new();
    assert_eq!(t.bind(23, 1), Ok(()));
    assert_eq!(t.bind(23, 2), Err(Error::DoubleBinding));
    assert_eq!(t.handler(23), Some(1));
}

#[test]
fn invalid_interrupt_number() {
    let mut t: HandlerTable<u32> = HandlerTable::new();
    assert_eq!(t.bind(32, 1), Err(Error::InvalidInterruptNumber));
    assert_eq!(t.unbind(40), Err(Error::InvalidInterruptNumber));
    assert_eq!(t.handler(32), None);
}

#[test]
fn unbind_frees_the_slot() {
    let mut t: HandlerTable<u32> = HandlerTable::new();
    assert_eq!(t.bind(0, 9), Ok(()));
    assert_eq!(t.unbind(0), Ok(()));
    assert_eq!(t.handler(0), None);
    assert_eq!(t.bind(0, 10), Ok(()));
    assert_eq!(t.handler(0), Some(10));
    assert_eq!(t.unbind(31), Ok(()));
}
