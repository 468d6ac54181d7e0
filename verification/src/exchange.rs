//! Whole exchanges between the driver and a host that does as it is asked.
//!
//! A single step says little about a reset or a poll as a whole. This
//! module follows the driver's answers from the first event to the last,
//! with the host's part fixed by how each bus or pin operation turns out,
//! and states what each operation asks for and finishes with.

use crate::block::{decode_block, point_count, BLOB_BUF_LEN};
use crate::error::Error;
use crate::protocol::{
    poll_step, read_step, setup_step, BusEvent, BusRequest, Next, ResetEvent, ResetRequest,
    DEFAULT_I2C_ADDRESS, REG_FIRST, RESET_HOLD_US, RESET_SETTLE_US,
};
use crate::record::TouchEvent;
use vstd::prelude::*;

verus! {

/// The requests that the driver made, in order, and the result it finished
/// with; no result if the exchange was cut short.
pub ghost struct Exchange<R, T> {
    pub requests: Seq<R>,
    pub result: Option<T>,
}

/// The exchange that starts with `event`: the driver answers by `step`,
/// the host carries each request out and reports by `report`, until the
/// driver finishes or `limit` requests have been made.
pub open spec fn follow<E, R, T>(
    step: spec_fn(E) -> Next<R, T>,
    report: spec_fn(R) -> E,
    event: E,
    limit: nat,
) -> Exchange<R, T>
    decreases limit,
{
    match step(event) {
        Next::Finished(result) => Exchange { requests: Seq::empty(), result: Some(result) },
        Next::Perform(request) => if limit == 0 {
            Exchange { requests: Seq::empty(), result: None }
        } else {
            let rest = follow(step, report, report(request), (limit - 1) as nat);
            Exchange { requests: seq![request] + rest.requests, result: rest.result }
        },
    }
}

/// What the host reports after a reset request, when driving the line low
/// turns out as `low` and driving it high as `high`.
pub open spec fn reset_report<PinE>(
    request: ResetRequest,
    low: Result<(), PinE>,
    high: Result<(), PinE>,
) -> ResetEvent<PinE> {
    match request {
        ResetRequest::DriveLow => ResetEvent::DroveLow(low),
        ResetRequest::Hold { .. } => ResetEvent::Held,
        ResetRequest::DriveHigh => ResetEvent::DroveHigh(high),
        ResetRequest::Settle { .. } => ResetEvent::Settled,
    }
}

/// What the host reports after a bus request, when the write turns out as
/// `wrote` and the read as `read`.
pub open spec fn bus_report<CommE>(
    request: BusRequest,
    wrote: Result<(), CommE>,
    read: Result<[u8; BLOB_BUF_LEN], CommE>,
) -> BusEvent<CommE> {
    match request {
        BusRequest::Write { .. } => BusEvent::Wrote(wrote),
        BusRequest::ReadBlock { .. } => BusEvent::BlockRead(read),
    }
}

/// A whole reset through [`setup_step`].
pub open spec fn reset_exchange<CommE, PinE>(
    low: Result<(), PinE>,
    high: Result<(), PinE>,
    limit: nat,
) -> Exchange<ResetRequest, Result<(), Error<CommE, PinE>>> {
    follow(
        |event: ResetEvent<PinE>| setup_step::<CommE, PinE>(event),
        |request: ResetRequest| reset_report(request, low, high),
        ResetEvent::Start,
        limit,
    )
}

/// A whole block read through [`read_step`].
pub open spec fn read_exchange<CommE, PinE>(
    wrote: Result<(), CommE>,
    read: Result<[u8; BLOB_BUF_LEN], CommE>,
    limit: nat,
) -> Exchange<BusRequest, Result<(), Error<CommE, PinE>>> {
    follow(
        |event: BusEvent<CommE>| read_step::<CommE, PinE>(event),
        |request: BusRequest| bus_report(request, wrote, read),
        BusEvent::Start,
        limit,
    )
}

/// A whole poll through [`poll_step`].
pub open spec fn poll_exchange<CommE>(
    wrote: Result<(), CommE>,
    read: Result<[u8; BLOB_BUF_LEN], CommE>,
    limit: nat,
) -> Exchange<BusRequest, Option<TouchEvent>> {
    follow(
        |event: BusEvent<CommE>| poll_step(event),
        |request: BusRequest| bus_report(request, wrote, read),
        BusEvent::Start,
        limit,
    )
}

/// The requests of a reset: the line is driven low, held, driven high, and
/// the chip is left to settle. The first pin that cannot be driven ends
/// the list.
pub open spec fn reset_requests<PinE>(low: Result<(), PinE>, high: Result<(), PinE>) -> Seq<
    ResetRequest,
> {
    let all = seq![
        ResetRequest::DriveLow,
        ResetRequest::Hold { micros: RESET_HOLD_US },
        ResetRequest::DriveHigh,
        ResetRequest::Settle { micros: RESET_SETTLE_US },
    ];
    if low is Err {
        all.subrange(0, 1)
    } else if high is Err {
        all.subrange(0, 3)
    } else {
        all
    }
}

/// What a reset finishes with: the error of the first pin that could not
/// be driven, as a pin error, or success.
pub open spec fn reset_result<CommE, PinE>(low: Result<(), PinE>, high: Result<(), PinE>) -> Result<
    (),
    Error<CommE, PinE>,
> {
    match (low, high) {
        (Err(e), _) => Err(Error::Pin(e)),
        (Ok(_), Err(e)) => Err(Error::Pin(e)),
        (Ok(_), Ok(_)) => Ok(()),
    }
}

/// The transactions of a block read: the first register's address is
/// written to the chip, then one whole block is read from it. A write that
/// fails ends the list.
pub open spec fn bus_requests<CommE>(wrote: Result<(), CommE>) -> Seq<BusRequest> {
    let all = seq![
        BusRequest::Write { address: DEFAULT_I2C_ADDRESS, register: REG_FIRST },
        BusRequest::ReadBlock { address: DEFAULT_I2C_ADDRESS },
    ];
    if wrote is Err {
        all.subrange(0, 1)
    } else {
        all
    }
}

/// What a block read finishes with: the error of the first transaction
/// that failed, as a bus error, or success.
pub open spec fn read_result<CommE, PinE>(
    wrote: Result<(), CommE>,
    read: Result<[u8; BLOB_BUF_LEN], CommE>,
) -> Result<(), Error<CommE, PinE>> {
    match (wrote, read) {
        (Err(e), _) => Err(Error::Comm(e)),
        (Ok(_), Err(e)) => Err(Error::Comm(e)),
        (Ok(_), Ok(_)) => Ok(()),
    }
}

/// What a poll finishes with: no event when a transaction failed, else
/// what the block that was read decodes to.
pub open spec fn poll_result<CommE>(
    wrote: Result<(), CommE>,
    read: Result<[u8; BLOB_BUF_LEN], CommE>,
) -> Option<TouchEvent> {
    match (wrote, read) {
        (Ok(_), Ok(bytes)) => decode_block(bytes@),
        _ => None,
    }
}

/// A reset is over after at most four requests. It makes its requests in
/// their order and succeeds, or stops at the first pin that cannot be
/// driven, with that pin's error and without waiting any further. The
/// settling wait is the longer of the two.
pub proof fn lemma_reset_exchange<CommE, PinE>(
    low: Result<(), PinE>,
    high: Result<(), PinE>,
    limit: nat,
)
    requires
        limit >= 4,
    ensures
        reset_exchange::<CommE, PinE>(low, high, limit) == (Exchange {
            requests: reset_requests(low, high),
            result: Some(reset_result::<CommE, PinE>(low, high)),
        }),
        RESET_HOLD_US < RESET_SETTLE_US,
{
    reveal_with_fuel(follow, 5);
    let run = reset_exchange::<CommE, PinE>(low, high, limit);
    assert(run.requests =~= reset_requests(low, high));
}

/// A block read is over after at most two requests, and stops at the
/// first transaction that fails.
pub proof fn lemma_read_exchange<CommE, PinE>(
    wrote: Result<(), CommE>,
    read: Result<[u8; BLOB_BUF_LEN], CommE>,
    limit: nat,
)
    requires
        limit >= 2,
    ensures
        read_exchange::<CommE, PinE>(wrote, read, limit) == (Exchange {
            requests: bus_requests(wrote),
            result: Some(read_result::<CommE, PinE>(wrote, read)),
        }),
{
    reveal_with_fuel(follow, 3);
    let run = read_exchange::<CommE, PinE>(wrote, read, limit);
    assert(run.requests =~= bus_requests(wrote));
}

/// A poll makes the requests of a block read. It reports an event exactly
/// when both transactions succeed and the block that was read counts at
/// least one touch point: to the caller a failed transaction looks like a
/// block without a touch.
pub proof fn lemma_poll_exchange<CommE>(
    wrote: Result<(), CommE>,
    read: Result<[u8; BLOB_BUF_LEN], CommE>,
    limit: nat,
)
    requires
        limit >= 2,
    ensures
        poll_exchange(wrote, read, limit) == (Exchange {
            requests: bus_requests(wrote),
            result: Some(poll_result(wrote, read)),
        }),
        poll_result(wrote, read) is Some <==> wrote is Ok && read is Ok && point_count(
            read->Ok_0@,
        ) >= 1,
{
    reveal_with_fuel(follow, 3);
    let run = poll_exchange(wrote, read, limit);
    assert(run.requests =~= bus_requests(wrote));
}

} // verus!
