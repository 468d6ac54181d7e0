//! What the driver asks of its host, and what the host reports back.
//!
//! The driver never touches the bus, a pin or a timer. Each of its
//! operations is a short exchange: the host reports an event, the driver
//! answers with the next request or with the operation's result, and the
//! host carries the request out and reports how it went.

use crate::block::{decode_block, BLOB_BUF_LEN};
use crate::error::Error;
use crate::record::TouchEvent;
use vstd::prelude::*;

verus! {

/// The address of the chip on the bus.
pub const DEFAULT_I2C_ADDRESS: u8 = 0x15;

/// The first register on the device, where every block read starts.
pub const REG_FIRST: u8 = 0x00;

/// How long the reset line is held low, in microseconds.
pub const RESET_HOLD_US: u32 = 20_000;

/// How long the chip is given after its reset line is released before it
/// answers on the bus, in microseconds.
pub const RESET_SETTLE_US: u32 = 400_000;

/// The driver's answer to an event: one more request for the host, or the
/// result of the operation.
#[derive(Debug, PartialEq, Eq)]
pub enum Next<R, T> {
    /// The host is to carry out the request and report how it went.
    Perform(R),
    /// The operation is over, with this result.
    Finished(T),
}

/// One step of the hardware reset.
#[derive(Debug, Clone, Copy, PartialEq, Eq, Structural)]
pub enum ResetRequest {
    /// Drive the reset line low.
    DriveLow,
    /// Wait, with the reset line low.
    Hold { micros: u32 },
    /// Drive the reset line high.
    DriveHigh,
    /// Wait for the chip to come up.
    Settle { micros: u32 },
}

/// What the host reports during a reset.
#[derive(Debug, PartialEq, Eq)]
pub enum ResetEvent<PinE> {
    /// Nothing has been done yet.
    Start,
    /// [`ResetRequest::DriveLow`] was tried, with this outcome.
    DroveLow(Result<(), PinE>),
    /// The wait of [`ResetRequest::Hold`] is over.
    Held,
    /// [`ResetRequest::DriveHigh`] was tried, with this outcome.
    DroveHigh(Result<(), PinE>),
    /// The wait of [`ResetRequest::Settle`] is over.
    Settled,
}

/// One bus transaction of a block read.
#[derive(Debug, Clone, Copy, PartialEq, Eq, Structural)]
pub enum BusRequest {
    /// Write the single byte `register` to the device at `address`.
    Write { address: u8, register: u8 },
    /// Read [`BLOB_BUF_LEN`] bytes from the device at `address`.
    ReadBlock { address: u8 },
}

/// What the host reports during a block read.
#[derive(Debug, PartialEq, Eq)]
pub enum BusEvent<CommE> {
    /// Nothing has been done yet.
    Start,
    /// [`BusRequest::Write`] was tried, with this outcome.
    Wrote(Result<(), CommE>),
    /// [`BusRequest::ReadBlock`] was tried; on success these are the bytes.
    BlockRead(Result<[u8; BLOB_BUF_LEN], CommE>),
}

/// The reset sequence: line low, hold, line high, settle. A pin that cannot
/// be driven ends the sequence at once with [`Error::Pin`].
pub open spec fn setup_step<CommE, PinE>(event: ResetEvent<PinE>) -> Next<
    ResetRequest,
    Result<(), Error<CommE, PinE>>,
> {
    match event {
        ResetEvent::Start => Next::Perform(ResetRequest::DriveLow),
        ResetEvent::DroveLow(Ok(_)) => Next::Perform(ResetRequest::Hold { micros: RESET_HOLD_US }),
        ResetEvent::DroveLow(Err(e)) => Next::Finished(Err(Error::Pin(e))),
        ResetEvent::Held => Next::Perform(ResetRequest::DriveHigh),
        ResetEvent::DroveHigh(Ok(_)) => Next::Perform(
            ResetRequest::Settle { micros: RESET_SETTLE_US },
        ),
        ResetEvent::DroveHigh(Err(e)) => Next::Finished(Err(Error::Pin(e))),
        ResetEvent::Settled => Next::Finished(Ok(())),
    }
}

/// The block read: write the first register's address, then read the whole
/// block. A transaction that fails ends the read at once with
/// [`Error::Comm`].
pub open spec fn read_step<CommE, PinE>(event: BusEvent<CommE>) -> Next<
    BusRequest,
    Result<(), Error<CommE, PinE>>,
> {
    match event {
        BusEvent::Start => Next::Perform(
            BusRequest::Write { address: DEFAULT_I2C_ADDRESS, register: REG_FIRST },
        ),
        BusEvent::Wrote(Ok(_)) => Next::Perform(
            BusRequest::ReadBlock { address: DEFAULT_I2C_ADDRESS },
        ),
        BusEvent::Wrote(Err(e)) => Next::Finished(Err(Error::Comm(e))),
        BusEvent::BlockRead(Ok(_)) => Next::Finished(Ok(())),
        BusEvent::BlockRead(Err(e)) => Next::Finished(Err(Error::Comm(e))),
    }
}

/// The register block that the driver holds after `event`: the bytes of a
/// read that succeeded, else the block it held before.
pub open spec fn block_after<CommE>(block: Seq<u8>, event: BusEvent<CommE>) -> Seq<u8> {
    match event {
        BusEvent::BlockRead(Ok(bytes)) => bytes@,
        _ => block,
    }
}

/// The poll: the same two transactions as the block read, then the decoding
/// of the block. A transaction that fails ends the poll with no event.
pub open spec fn poll_step<CommE>(event: BusEvent<CommE>) -> Next<BusRequest, Option<TouchEvent>> {
    match event {
        BusEvent::Start => Next::Perform(
            BusRequest::Write { address: DEFAULT_I2C_ADDRESS, register: REG_FIRST },
        ),
        BusEvent::Wrote(Ok(_)) => Next::Perform(
            BusRequest::ReadBlock { address: DEFAULT_I2C_ADDRESS },
        ),
        BusEvent::Wrote(Err(_)) => Next::Finished(None),
        BusEvent::BlockRead(Ok(bytes)) => Next::Finished(decode_block(bytes@)),
        BusEvent::BlockRead(Err(_)) => Next::Finished(None),
    }
}

/// A poll is a block read followed by the decoding of the block: it makes
/// the requests that the block read makes, ends with no event where the
/// block read ends with an error, and ends with what the new block decodes
/// to where the block read succeeds.
pub proof fn lemma_poll_follows_read<CommE, PinE>(block: Seq<u8>, event: BusEvent<CommE>)
    ensures
        read_step::<CommE, PinE>(event) matches Next::Perform(request) ==> poll_step(event)
            == Next::<BusRequest, Option<TouchEvent>>::Perform(request),
        read_step::<CommE, PinE>(event) matches Next::Finished(Err(_)) ==> poll_step(event)
            == Next::<BusRequest, Option<TouchEvent>>::Finished(None),
        read_step::<CommE, PinE>(event) matches Next::Finished(Ok(_)) ==> poll_step(event)
            == Next::<BusRequest, Option<TouchEvent>>::Finished(
            decode_block(block_after(block, event)),
        ),
{
}

} // verus!
