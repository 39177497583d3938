//! The driver's error type.
use vstd::prelude::*;

verus! {

/// Errors of the driver's operations.
#[derive(Debug)]
pub enum Error<E> {
    /// The bus transport failed; carries its error.
    I2C(E),
    /// An argument was out of range; nothing was written.
    InvalidInputData,
}

} // verus!
