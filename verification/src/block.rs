//! The register block: a three-byte header followed by touch records.

use crate::record::{
    decode_record, lemma_action_value, lemma_area_value, lemma_coordinate_value,
    lemma_finger_value, record_event, TouchEvent, RAW_TOUCH_EVENT_LEN,
};
use vstd::prelude::*;

verus! {

/// In essence, max number of fingers.
pub const MAX_TOUCH_CHANNELS: usize = 10;

/// Number of header bytes at the start of every register block.
pub const GESTURE_HEADER_LEN: usize = 3;

/// Number of bytes in one register block: the header and one record for
/// each touch channel.
pub const BLOB_BUF_LEN: usize = GESTURE_HEADER_LEN + MAX_TOUCH_CHANNELS * RAW_TOUCH_EVENT_LEN;

/// Offset of the gesture id in the header.
pub const GESTURE_ID_OFF: usize = 1;

/// Offset of the header byte whose low nibble counts the touch points.
pub const NUM_POINTS_OFF: usize = 2;

/// The gesture that the chip reports for the whole block.
pub open spec fn gesture_id(block: Seq<u8>) -> u8 {
    block[GESTURE_ID_OFF as int]
}

/// The number of touch points that the header announces.
pub open spec fn point_count(block: Seq<u8>) -> u8 {
    block[NUM_POINTS_OFF as int] & 0x0F
}

/// The bytes of the record with the given index.
pub open spec fn record_at(block: Seq<u8>, index: int) -> Seq<u8> {
    block.subrange(
        GESTURE_HEADER_LEN + index * RAW_TOUCH_EVENT_LEN,
        GESTURE_HEADER_LEN + (index + 1) * RAW_TOUCH_EVENT_LEN,
    )
}

/// The event that a whole register block reports: none when the header
/// counts no touch point, else the first record with the block's gesture
/// attached. Records after the first are never read, whatever the count.
pub open spec fn decode_block(block: Seq<u8>) -> Option<TouchEvent>
    recommends
        block.len() == BLOB_BUF_LEN,
{
    if point_count(block) == 0 {
        None
    } else {
        Some(TouchEvent { gesture: gesture_id(block), ..record_event(record_at(block, 0)) })
    }
}

/// The block has room for the header and a record for every touch channel,
/// so each record lies inside it.
pub proof fn lemma_records_fit(block: Seq<u8>, index: int)
    requires
        block.len() == BLOB_BUF_LEN,
        0 <= index < MAX_TOUCH_CHANNELS,
    ensures
        GESTURE_HEADER_LEN + (index + 1) * RAW_TOUCH_EVENT_LEN <= BLOB_BUF_LEN,
        record_at(block, index).len() == RAW_TOUCH_EVENT_LEN,
        decode_record(record_at(block, index)) is Some,
{
}

/// The count that the header announces is at most 15.
pub proof fn lemma_point_count_bound(block: Seq<u8>)
    ensures
        point_count(block) <= 15,
        point_count(block) == block[NUM_POINTS_OFF as int] % 16,
{
    let b = block[NUM_POINTS_OFF as int];
    assert(b & 0x0F <= 15 && b & 0x0F == b % 16) by (bit_vector);
}

/// A block whose header counts no touch point reports no event, whatever
/// the rest of the block holds.
pub proof fn lemma_no_points_no_event(block: Seq<u8>)
    requires
        point_count(block) == 0,
    ensures
        decode_block(block) is None,
{
}

/// A block whose header counts at least one touch point reports the event
/// of its first record, with the gesture taken from the header; every
/// field of that event is in range.
pub proof fn lemma_points_give_first_record(block: Seq<u8>)
    requires
        block.len() == BLOB_BUF_LEN,
        point_count(block) >= 1,
    ensures
        decode_record(record_at(block, 0)) matches Some(touch) && decode_block(block) == Some(
            TouchEvent { gesture: gesture_id(block), ..touch },
        ) && touch.in_range(),
{
    let record = record_at(block, 0);
    lemma_coordinate_value(record[1], record[0]);
    lemma_coordinate_value(record[3], record[2]);
    lemma_action_value(record[0]);
    lemma_finger_value(record[2]);
    lemma_area_value(record[5]);
}

/// Only the header and the first record decide what a block reports: two
/// blocks that agree on those nine bytes report the same, however many
/// points the header counts and whatever the later records hold.
pub proof fn lemma_later_records_ignored(a: Seq<u8>, b: Seq<u8>)
    requires
        a.len() == BLOB_BUF_LEN,
        b.len() == BLOB_BUF_LEN,
        a.subrange(0, GESTURE_HEADER_LEN + RAW_TOUCH_EVENT_LEN) == b.subrange(
            0,
            GESTURE_HEADER_LEN + RAW_TOUCH_EVENT_LEN,
        ),
    ensures
        decode_block(a) == decode_block(b),
{
    let n = GESTURE_HEADER_LEN + RAW_TOUCH_EVENT_LEN;
    assert forall|i: int| 0 <= i < n implies a[i] == b[i] by {
        assert(a.subrange(0, n)[i] == b.subrange(0, n)[i]);
    }
    assert(record_at(a, 0) =~= record_at(b, 0));
}

} // verus!
