//! Driver for the Akafugu TWIDisplay, a 4-digit 7-segment display controller on a two-wire bus.
//!
//! The driver does not perform bus I/O itself: every display operation validates its input and
//! returns a [`Transaction`], the exact sequence of writes the controller expects. The caller
//! feeds the transaction's [`Transaction::step`] with the outcome of each write, and the
//! transaction stops at the first failure.
pub mod driver;
pub mod encode;
pub mod error;
pub mod register;
pub mod transaction;

pub use driver::{DateFormat, Mode, TWIDisplay, TempUnits};
pub use error::Error;
pub use register::DEFAULT_ADDRESS;
pub use transaction::{Action, Transaction};
