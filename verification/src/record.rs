//! The six-byte touch record and the event it decodes to.

use vstd::prelude::*;

verus! {

/// Number of bytes for a single touch record.
pub const RAW_TOUCH_EVENT_LEN: usize = 6;

/// Offset of the byte that holds the high bits of X and the action bits.
pub const TOUCH_X_H_AND_ACTION_OFF: usize = 0;

/// Offset of the low byte of X.
pub const TOUCH_X_L_OFF: usize = 1;

/// Offset of the byte that holds the high bits of Y and the finger bits.
pub const TOUCH_Y_H_AND_FINGER_OFF: usize = 2;

/// Offset of the low byte of Y.
pub const TOUCH_Y_L_OFF: usize = 3;

/// Offset of the pressure byte.
pub const TOUCH_PRESSURE_OFF: usize = 4;

/// Offset of the byte whose top nibble is the contact area.
pub const TOUCH_AREA_OFF: usize = 5;

/// One contact as the chip reported it.
#[derive(Debug, Clone, Copy, PartialEq, Eq, Structural)]
pub struct TouchEvent {
    pub x: i32,
    pub y: i32,
    /// the gesture that this touch is part of
    pub gesture: u8,
    /// 0 down, 1 lift, 2 contact
    pub action: u8,
    /// identifies the finger that touched (0-9)
    pub finger_id: u8,
    /// pressure level of touch
    pub pressure: u8,
    /// the surface area of the touch
    pub area: u8,
}

/// A 12-bit coordinate: eight low bits from `low`, four high bits from the
/// low nibble of `high`.
pub open spec fn coordinate(low: u8, high: u8) -> i32 {
    (low as i32) | (((high & 0x0F) as i32) << 8)
}

/// The action held in bits 6 and 7 of the X-high byte.
pub open spec fn action_bits(x_high: u8) -> u8 {
    (x_high >> 6) & 0x03
}

/// The finger id held in bits 4 to 7 of the Y-high byte.
pub open spec fn finger_bits(y_high: u8) -> u8 {
    (y_high >> 4) & 0x0F
}

/// The contact area held in the top nibble of the area byte.
pub open spec fn area_bits(area: u8) -> u8 {
    area >> 4
}

/// The event that the first six bytes of `record` describe. The gesture is
/// not part of a record and is left at zero.
pub open spec fn record_event(record: Seq<u8>) -> TouchEvent
    recommends
        record.len() >= RAW_TOUCH_EVENT_LEN,
{
    TouchEvent {
        x: coordinate(record[TOUCH_X_L_OFF as int], record[TOUCH_X_H_AND_ACTION_OFF as int]),
        y: coordinate(record[TOUCH_Y_L_OFF as int], record[TOUCH_Y_H_AND_FINGER_OFF as int]),
        gesture: 0,
        action: action_bits(record[TOUCH_X_H_AND_ACTION_OFF as int]),
        finger_id: finger_bits(record[TOUCH_Y_H_AND_FINGER_OFF as int]),
        pressure: record[TOUCH_PRESSURE_OFF as int],
        area: area_bits(record[TOUCH_AREA_OFF as int]),
    }
}

/// What a buffer decodes to: an event when it holds a whole record, nothing
/// when it is too short.
pub open spec fn decode_record(record: Seq<u8>) -> Option<TouchEvent> {
    if record.len() >= RAW_TOUCH_EVENT_LEN {
        Some(record_event(record))
    } else {
        None
    }
}

impl TouchEvent {
    /// Every field lies in the range that its bit width in the record
    /// allows: 12 bits for each coordinate, 2 for the action, 4 each for
    /// the finger id and the area.
    pub open spec fn in_range(&self) -> bool {
        &&& 0 <= self.x < 4096
        &&& 0 <= self.y < 4096
        &&& self.action < 4
        &&& self.finger_id < 16
        &&& self.area < 16
    }
}

/// Decodes one raw touch record into an event with gesture zero.
///
/// The record is the first [`RAW_TOUCH_EVENT_LEN`] bytes of `buf`; a
/// shorter buffer holds no record and decodes to `None`.
pub fn touch_event_from_data(buf: &[u8]) -> (event: Option<TouchEvent>)
    ensures
        event == decode_record(buf@),
        event is Some <==> buf@.len() >= RAW_TOUCH_EVENT_LEN,
        event matches Some(e) ==> e.in_range(),
{
    if buf.len() < RAW_TOUCH_EVENT_LEN {
        return None;
    }
    // two of the registers mix 4 bits of position with other values
    // four high bits of X and 2 bits of Action:
    let touch_x_h_and_action: u8 = buf[TOUCH_X_H_AND_ACTION_OFF];
    // four high bits of Y and 4 bits of Finger:
    let touch_y_h_and_finger: u8 = buf[TOUCH_Y_H_AND_FINGER_OFF];
    let touch_x_l: u8 = buf[TOUCH_X_L_OFF];
    let touch_y_l: u8 = buf[TOUCH_Y_L_OFF];
    let touch_area: u8 = buf[TOUCH_AREA_OFF];

    proof {
        lemma_coordinate_value(touch_x_l, touch_x_h_and_action);
        lemma_coordinate_value(touch_y_l, touch_y_h_and_finger);
        lemma_action_value(touch_x_h_and_action);
        lemma_finger_value(touch_y_h_and_finger);
        lemma_area_value(touch_area);
    }

    Some(
        TouchEvent {
            // X and Y position are both 12 bits, in pixels
            x: (touch_x_l as i32) | (((touch_x_h_and_action & 0x0F) as i32) << 8),
            y: (touch_y_l as i32) | (((touch_y_h_and_finger & 0x0F) as i32) << 8),
            gesture: 0,
            // action of touch (0 = down, 1 = up, 2 = contact)
            action: (touch_x_h_and_action >> 6) & 0x03,
            finger_id: (touch_y_h_and_finger >> 4) & 0x0F,
            pressure: buf[TOUCH_PRESSURE_OFF],
            area: touch_area >> 4,
        },
    )
}

/// A coordinate is its low byte plus 256 times the low nibble of its high
/// byte, and so lies in `0..4096`.
pub proof fn lemma_coordinate_value(low: u8, high: u8)
    ensures
        coordinate(low, high) == low + 256 * (high % 16),
        0 <= coordinate(low, high) < 4096,
{
    assert((low as i32) | (((high & 0x0F) as i32) << 8) == low + 256 * (high % 16)) by (bit_vector);
}

/// The action is the X-high byte divided by 64, one of 0, 1, 2 and 3.
pub proof fn lemma_action_value(x_high: u8)
    ensures
        action_bits(x_high) == x_high / 64,
        action_bits(x_high) < 4,
{
    assert((x_high >> 6) & 0x03 == x_high / 64) by (bit_vector);
}

/// The finger id is the Y-high byte divided by 16, at most 15.
pub proof fn lemma_finger_value(y_high: u8)
    ensures
        finger_bits(y_high) == y_high / 16,
        finger_bits(y_high) < 16,
{
    assert((y_high >> 4) & 0x0F == y_high / 16) by (bit_vector);
}

/// The area is the area byte divided by 16, at most 15.
pub proof fn lemma_area_value(area: u8)
    ensures
        area_bits(area) == area / 16,
        area_bits(area) < 16,
{
    assert(area >> 4 == area / 16) by (bit_vector);
}

/// The six bytes that hold `event` in the record layout. The gesture has
/// no place in a record; bits 4 and 5 of the first byte and the low nibble
/// of the last are left clear.
pub open spec fn pack_record(event: TouchEvent) -> Seq<u8>
    recommends
        event.in_range(),
{
    seq![
        (event.action * 64 + event.x / 256) as u8,
        (event.x % 256) as u8,
        (event.finger_id * 16 + event.y / 256) as u8,
        (event.y % 256) as u8,
        event.pressure,
        (event.area * 16) as u8,
    ]
}

/// Packing an event whose fields are in range and decoding the bytes gives
/// the event back: both coordinates, the action, the finger id, the
/// pressure and the area survive the trip exactly. Only the gesture, which
/// a record does not carry, comes back as zero.
pub proof fn lemma_pack_then_decode(event: TouchEvent)
    requires
        event.in_range(),
    ensures
        pack_record(event).len() == RAW_TOUCH_EVENT_LEN,
        decode_record(pack_record(event)) == Some(TouchEvent { gesture: 0, ..event }),
{
    let record = pack_record(event);
    lemma_coordinate_value(record[1], record[0]);
    lemma_coordinate_value(record[3], record[2]);
    lemma_action_value(record[0]);
    lemma_finger_value(record[2]);
    lemma_area_value(record[5]);
}

/// The bits of a record that decoding reads: all but bits 4 and 5 of the
/// first byte and the low nibble of the last.
pub open spec fn read_bits(record: Seq<u8>) -> Seq<u8>
    recommends
        record.len() == RAW_TOUCH_EVENT_LEN,
{
    seq![
        record[TOUCH_X_H_AND_ACTION_OFF as int] & 0xCF,
        record[TOUCH_X_L_OFF as int],
        record[TOUCH_Y_H_AND_FINGER_OFF as int],
        record[TOUCH_Y_L_OFF as int],
        record[TOUCH_PRESSURE_OFF as int],
        record[TOUCH_AREA_OFF as int] & 0xF0,
    ]
}

/// Decoding a record and packing the event gives the record back, but for
/// the bits that decoding does not read: an event holds all that its
/// record says, and two records decode alike only if they differ in those
/// bits alone.
pub proof fn lemma_decode_then_pack(record: Seq<u8>)
    requires
        record.len() == RAW_TOUCH_EVENT_LEN,
    ensures
        record_event(record).in_range(),
        pack_record(record_event(record)) == read_bits(record),
{
    let x_high = record[0];
    let y_high = record[2];
    let area = record[5];
    lemma_coordinate_value(record[1], x_high);
    lemma_coordinate_value(record[3], y_high);
    lemma_action_value(x_high);
    lemma_finger_value(y_high);
    lemma_area_value(area);
    assert((x_high / 64) * 64 + x_high % 16 == x_high & 0xCF) by (bit_vector);
    assert((y_high / 16) * 16 + y_high % 16 == y_high) by (bit_vector);
    assert((area / 16) * 16 == area & 0xF0) by (bit_vector);
    assert(pack_record(record_event(record)) =~= read_bits(record));
}

} // verus!
