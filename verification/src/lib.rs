//! Driver core for the CST816S capacitive touch controller.
//!
//! The chip sits on an I2C-style bus and exposes one block of registers:
//! a three-byte header followed by six-byte touch records. This crate
//! decodes that block into [`TouchEvent`]s and sequences the chip's
//! hardware reset.
//!
//! The driver performs no bus or pin operation itself. Each of its
//! operations is an exchange with the host that owns the hardware: the
//! host reports what it has just done, the driver answers with what is to
//! be done next, and so on until the driver gives the operation's result.
//! Every decision is thus a function of plain values, and is proved to be
//! the one that the contracts in this crate state.
//!
//! - [`record`]: the six-byte touch record and its decoding.
//! - [`block`]: the register block and what it reports.
//! - [`protocol`]: the requests and events of the exchanges, step by step.
//! - [`exchange`]: what a whole reset, block read or poll comes to.
//! - [`driver`]: the driver itself.

#![allow(unused_imports)]

pub mod block;
pub mod driver;
pub mod error;
pub mod exchange;
pub mod protocol;
pub mod record;

pub use block::{BLOB_BUF_LEN, MAX_TOUCH_CHANNELS};
pub use driver::CST816S;
pub use error::Error;
pub use protocol::{BusEvent, BusRequest, Next, ResetEvent, ResetRequest};
pub use record::{touch_event_from_data, TouchEvent};
