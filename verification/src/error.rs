//! The driver's error type.

use vstd::prelude::*;

verus! {

/// Errors in this crate
#[derive(Debug, PartialEq, Eq)]
pub enum Error<CommE, PinE> {
    /// A bus transaction failed.
    Comm(CommE),
    /// A pin could not be driven or read.
    Pin(PinE),
    /// Reserved; no operation of the driver gives it.
    GenericError,
}

} // verus!
