use cst816s::protocol::{DEFAULT_I2C_ADDRESS, REG_FIRST};
use cst816s::{BusEvent, BusRequest, Error, Next, TouchEvent, BLOB_BUF_LEN, CST816S};

type Driver = CST816S<(), (), ()>;

fn driver() -> Driver {
    Driver::new((), (), ())
}

fn block_with(header: [u8; 3], records: &[[u8; 6]]) -> [u8; BLOB_BUF_LEN] {
    let mut block = [0u8; BLOB_BUF_LEN];
    block[..3].copy_from_slice(&header);
    for (index, record) in records.iter().enumerate() {
        block[3 + 6 * index..9 + 6 * index].copy_from_slice(record);
    }
    block
}

/// Runs one whole poll against a bus that answers as told, and returns the
/// requests the driver made together with what it reported.
fn poll(
    driver: &mut Driver,
    wrote: Result<(), u8>,
    read: Result<[u8; BLOB_BUF_LEN], u8>,
) -> (Vec<BusRequest>, Option<TouchEvent>) {
    let mut requests = Vec::new();
    let mut event = BusEvent::Start;
    loop {
        assert!(requests.len() <= 2);
        match driver.read_one_touch_event(event) {
            Next::Finished(touch) => return (requests, touch),
            Next::Perform(request) => {
                requests.push(request);
                event = match request {
                    BusRequest::Write { .. } => BusEvent::Wrote(wrote),
                    BusRequest::ReadBlock { .. } => BusEvent::BlockRead(read),
                };
            }
        }
    }
}

/// Runs one whole block read in the same way.
fn read(
    driver: &mut Driver,
    wrote: Result<(), u8>,
    read: Result<[u8; BLOB_BUF_LEN], u8>,
) -> (Vec<BusRequest>, Result<(), Error<u8, ()>>) {
    let mut requests = Vec::new();
    let mut event = BusEvent::Start;
    loop {
        assert!(requests.len() <= 2);
        match driver.read_registers(event) {
            Next::Finished(result) => return (requests, result),
            Next::Perform(request) => {
                requests.push(request);
                event = match request {
                    BusRequest::Write { .. } => BusEvent::Wrote(wrote),
                    BusRequest::ReadBlock { .. } => BusEvent::BlockRead(read),
                };
            }
        }
    }
}

const WRITE: BusRequest = BusRequest::Write { address: 0x15, register: 0x00 };
const READ: BusRequest = BusRequest::ReadBlock { address: 0x15 };

#[test]
fn bus_constants() {
    assert_eq!(DEFAULT_I2C_ADDRESS, 0x15);
    assert_eq!(REG_FIRST, 0x00);
}

#[test]
fn long_press_block_decodes_to_exact_event() {
    let block = block_with(
        [0x00, 0x02, 0x01],
        &[[0b01_0000_11, 0x20, 0b0101_0000, 0x10, 0x30, 0xA0]],
    );
    let mut driver = driver();
    let (requests, touch) = poll(&mut driver, Ok(()), Ok(block));
    assert_eq!(requests, vec![WRITE, READ]);
    assert_eq!(
        touch,
        Some(TouchEvent {
            x: 0x320,
            y: 0x010,
            gesture: 0x02,
            action: 1,
            finger_id: 5,
            pressure: 0x30,
            area: 0x0A,
        })
    );
    let touch = touch.unwrap();
    assert_eq!(touch.x, 800);
    assert_eq!(touch.y, 16);
}

#[test]
fn poll_steps_one_by_one() {
    let mut driver = driver();
    assert_eq!(driver.read_one_touch_event::<u8>(BusEvent::Start), Next::Perform(WRITE));
    assert_eq!(driver.read_one_touch_event::<u8>(BusEvent::Wrote(Ok(()))), Next::Perform(READ));
    assert_eq!(driver.read_one_touch_event(BusEvent::Wrote(Err(3u8))), Next::Finished(None));
    assert_eq!(driver.read_one_touch_event(BusEvent::BlockRead(Err(4u8))), Next::Finished(None));
    let block = block_with([0, 5, 1], &[[0x80, 1, 0x20, 2, 3, 0x40]]);
    assert_eq!(
        driver.read_one_touch_event::<u8>(BusEvent::BlockRead(Ok(block))),
        Next::Finished(Some(TouchEvent {
            x: 1,
            y: 2,
            gesture: 5,
            action: 2,
            finger_id: 2,
            pressure: 3,
            area: 4,
        }))
    );
}

#[test]
fn zero_point_count_reports_nothing_whatever_the_block_holds() {
    let mut driver = driver();
    for fill in [0x00u8, 0x5A, 0xFF] {
        for count_byte in [0x00u8, 0x10, 0x80, 0xF0] {
            let mut block = [fill; BLOB_BUF_LEN];
            block[2] = count_byte;
            let (requests, touch) = poll(&mut driver, Ok(()), Ok(block));
            assert_eq!(requests, vec![WRITE, READ]);
            assert_eq!(touch, None);
            assert_eq!(*driver.block(), block);
        }
    }
    let block = block_with(
        [0x00, 0x02, 0x00],
        &[[0b01_0000_11, 0x20, 0b0101_0000, 0x10, 0x30, 0xA0]],
    );
    assert_eq!(poll(&mut driver, Ok(()), Ok(block)).1, None);
}

#[test]
fn point_count_is_the_low_nibble_only() {
    let mut driver = driver();
    let record = [0x01, 0x02, 0x03, 0x04, 0x05, 0x60];
    let expected =
        TouchEvent { x: 0x102, y: 0x304, gesture: 9, action: 0, finger_id: 0, pressure: 5, area: 6 };
    for count_byte in [0x01u8, 0x11, 0xF1, 0x0F, 0xFF, 0x0A] {
        let block = block_with([0xEE, 9, count_byte], &[record]);
        assert_eq!(poll(&mut driver, Ok(()), Ok(block)).1, Some(expected));
    }
}

#[test]
fn only_the_first_record_is_decoded() {
    let first = [0b10_00_0001, 0x23, 0b0011_0100, 0x56, 0x77, 0x90];
    let expected = TouchEvent {
        x: 0x123,
        y: 0x456,
        gesture: 0x01,
        action: 2,
        finger_id: 3,
        pressure: 0x77,
        area: 9,
    };
    let mut driver = driver();
    for count in 1..=15u8 {
        let alone = block_with([0, 0x01, count], &[first]);
        let crowded = block_with(
            [0, 0x01, count],
            &[first, [0xFF; 6], [0x42; 6], [0x99; 6], [0x01; 6], [0xAA; 6]],
        );
        let mut noisy = [0xFFu8; BLOB_BUF_LEN];
        noisy[..9].copy_from_slice(&alone[..9]);
        assert_eq!(poll(&mut driver, Ok(()), Ok(alone)).1, Some(expected));
        assert_eq!(poll(&mut driver, Ok(()), Ok(crowded)).1, Some(expected));
        assert_eq!(poll(&mut driver, Ok(()), Ok(noisy)).1, Some(expected));
    }
}

#[test]
fn gesture_comes_from_the_header_not_the_record() {
    let mut driver = driver();
    for gesture in [0x00u8, 0x01, 0x02, 0x03, 0x04, 0x05, 0x0B, 0x0C, 0x7F, 0xFF] {
        let block = block_with([0, gesture, 1], &[[0, 0, 0, 0, 0, 0]]);
        let touch = poll(&mut driver, Ok(()), Ok(block)).1.unwrap();
        assert_eq!(touch.gesture, gesture);
    }
}

#[test]
fn reserved_header_byte_is_ignored() {
    let mut driver = driver();
    let a = block_with([0x00, 2, 1], &[[0x43, 0x20, 0x50, 0x10, 0x30, 0xA0]]);
    let b = block_with([0xFF, 2, 1], &[[0x43, 0x20, 0x50, 0x10, 0x30, 0xA0]]);
    let touch_a = poll(&mut driver, Ok(()), Ok(a)).1;
    let touch_b = poll(&mut driver, Ok(()), Ok(b)).1;
    assert!(touch_a.is_some());
    assert_eq!(touch_a, touch_b);
}

#[test]
fn failed_read_reports_nothing() {
    let mut driver = driver();
    let (requests, touch) = poll(&mut driver, Ok(()), Err(9));
    assert_eq!(requests, vec![WRITE, READ]);
    assert_eq!(touch, None);
}

#[test]
fn failed_write_reports_nothing_and_asks_for_no_read() {
    let mut driver = driver();
    let block = block_with([0, 2, 1], &[[0x43, 0x20, 0x50, 0x10, 0x30, 0xA0]]);
    let (requests, touch) = poll(&mut driver, Err(9), Ok(block));
    assert_eq!(requests, vec![WRITE]);
    assert_eq!(touch, None);
    assert_eq!(*driver.block(), [0u8; BLOB_BUF_LEN]);
}

#[test]
fn failed_poll_keeps_the_block_of_the_poll_before() {
    let mut driver = driver();
    let block = block_with([0, 2, 1], &[[0x43, 0x20, 0x50, 0x10, 0x30, 0xA0]]);
    assert!(poll(&mut driver, Ok(()), Ok(block)).1.is_some());
    assert_eq!(poll(&mut driver, Ok(()), Err(1)).1, None);
    assert_eq!(*driver.block(), block);
    assert_eq!(poll(&mut driver, Err(1), Err(1)).1, None);
    assert_eq!(*driver.block(), block);
}

#[test]
fn each_poll_stands_alone() {
    let mut driver = driver();
    let touched = block_with([0, 1, 1], &[[0x00, 0x10, 0x00, 0x20, 0x01, 0x10]]);
    let idle = block_with([0, 0, 0], &[]);
    let first = poll(&mut driver, Ok(()), Ok(touched)).1;
    assert_eq!(poll(&mut driver, Ok(()), Ok(idle)).1, None);
    assert_eq!(poll(&mut driver, Ok(()), Ok(touched)).1, first);
    assert_eq!(poll(&mut driver, Ok(()), Ok(touched)).1, first);
}

#[test]
fn read_registers_fills_the_whole_block() {
    let mut driver = driver();
    let mut block = [0u8; BLOB_BUF_LEN];
    for (index, byte) in block.iter_mut().enumerate() {
        *byte = (index as u8) ^ 0xA5;
    }
    let (requests, result) = read(&mut driver, Ok(()), Ok(block));
    assert_eq!(requests, vec![WRITE, READ]);
    assert_eq!(result, Ok(()));
    assert_eq!(*driver.block(), block);
}

#[test]
fn read_registers_surfaces_a_failed_write_as_comm() {
    let mut driver = driver();
    let (requests, result) = read(&mut driver, Err(0x21), Ok([1u8; BLOB_BUF_LEN]));
    assert_eq!(requests, vec![WRITE]);
    assert_eq!(result, Err(Error::Comm(0x21)));
    assert_eq!(*driver.block(), [0u8; BLOB_BUF_LEN]);
}

#[test]
fn read_registers_surfaces_a_failed_read_as_comm() {
    let mut driver = driver();
    let (requests, result) = read(&mut driver, Ok(()), Err(0x22));
    assert_eq!(requests, vec![WRITE, READ]);
    assert_eq!(result, Err(Error::Comm(0x22)));
    assert_eq!(*driver.block(), [0u8; BLOB_BUF_LEN]);
}

#[test]
fn read_registers_steps_one_by_one() {
    let mut driver = driver();
    assert_eq!(driver.read_registers::<u8, ()>(BusEvent::Start), Next::Perform(WRITE));
    assert_eq!(driver.read_registers::<u8, ()>(BusEvent::Wrote(Ok(()))), Next::Perform(READ));
    assert_eq!(
        driver.read_registers::<u8, ()>(BusEvent::Wrote(Err(1))),
        Next::Finished(Err(Error::Comm(1)))
    );
    assert_eq!(
        driver.read_registers::<u8, ()>(BusEvent::BlockRead(Err(2))),
        Next::Finished(Err(Error::Comm(2)))
    );
    assert_eq!(
        driver.read_registers::<u8, ()>(BusEvent::BlockRead(Ok([7u8; BLOB_BUF_LEN]))),
        Next::Finished(Ok(()))
    );
    assert_eq!(*driver.block(), [7u8; BLOB_BUF_LEN]);
}
