//! Operating mode of a peripheral driver: blocking or asynchronous.
use vstd::prelude::*;

verus! {

/// The mode a peripheral driver works in.
pub trait Mode {
    /// Whether this mode is the asynchronous one.
    fn is_async() -> bool;
}

/// Blocking mode.
pub struct Blocking;

/// Asynchronous mode.
pub struct Async;

impl Mode for Blocking {
    fn is_async() -> (r: bool)
        ensures
            !r,
    {
        false
    }
}

impl Mode for Async {
    fn is_async() -> (r: bool)
        ensures
            r,
    {
        true
    }
}

} // verus!
