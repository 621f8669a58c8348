//! Errors of the flash controller.
use vstd::prelude::*;

verus! {

/// Why a flash operation stopped.
#[derive(Debug, Clone, Copy, PartialEq, Eq, Structural)]
pub enum Error {
    /// The controller stayed busy.
    Busy,
    /// The unlock keys did not unlock the controller.
    Unlock,
    /// The controller did not lock again.
    Lock,
    /// The address is outside main flash or not aligned.
    Addr,
    /// The operation did not complete in time.
    Timeout,
}

} // verus!
