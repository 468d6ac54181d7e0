//! The driver: owner of the bus, the pins and the register block.

use crate::block::{
    gesture_id, point_count, record_at, BLOB_BUF_LEN, GESTURE_HEADER_LEN, GESTURE_ID_OFF,
    NUM_POINTS_OFF,
};
use crate::error::Error;
use crate::protocol::{
    block_after, poll_step, read_step, setup_step, BusEvent, BusRequest, Next, ResetEvent,
    ResetRequest, DEFAULT_I2C_ADDRESS, REG_FIRST, RESET_HOLD_US, RESET_SETTLE_US,
};
use crate::record::{record_event, touch_event_from_data, TouchEvent, RAW_TOUCH_EVENT_LEN};
use vstd::prelude::*;

verus! {

/// Driver for one CST816S chip.
///
/// The driver owns the bus handle, the interrupt pin and the reset pin for
/// its whole life, and one register block that every successful read
/// overwrites. It lends the handles to its host for one operation at a
/// time and decides from the host's reports what happens next.
pub struct CST816S<I2C, PINT, RST> {
    i2c: I2C,
    pin_int: PINT,
    pin_rst: RST,
    blob_buf: [u8; BLOB_BUF_LEN],
}

/// What a driver holds.
pub ghost struct DriverView<I2C, PINT, RST> {
    pub bus: I2C,
    pub interrupt_pin: PINT,
    pub reset_pin: RST,
    /// The register block, always [`BLOB_BUF_LEN`] bytes.
    pub block: Seq<u8>,
}

impl<I2C, PINT, RST> View for CST816S<I2C, PINT, RST> {
    type V = DriverView<I2C, PINT, RST>;

    closed spec fn view(&self) -> DriverView<I2C, PINT, RST> {
        DriverView {
            bus: self.i2c,
            interrupt_pin: self.pin_int,
            reset_pin: self.pin_rst,
            block: self.blob_buf@,
        }
    }
}

impl<I2C, PINT, RST> CST816S<I2C, PINT, RST> {
    /// Number of header bytes at the start of every register block.
    pub const GESTURE_HEADER_LEN: usize = GESTURE_HEADER_LEN;

    /// Number of bytes for a single touch event
    pub const RAW_TOUCH_EVENT_LEN: usize = RAW_TOUCH_EVENT_LEN;

    /// Takes ownership of the bus and the two pins. The register block
    /// starts out as all zeros.
    pub fn new(bus: I2C, interrupt_pin: PINT, reset_pin: RST) -> (driver: Self)
        ensures
            driver@.bus == bus,
            driver@.interrupt_pin == interrupt_pin,
            driver@.reset_pin == reset_pin,
            driver@.block =~= Seq::new(BLOB_BUF_LEN as nat, |i: int| 0u8),
    {
        Self { i2c: bus, pin_int: interrupt_pin, pin_rst: reset_pin, blob_buf: [0u8; BLOB_BUF_LEN] }
    }

    /// Lends the bus to the host for a transaction that the driver asked
    /// for.
    pub fn bus(&mut self) -> (bus: &mut I2C)
        ensures
            *bus == old(self)@.bus,
            final(self)@ == (DriverView { bus: *final(bus), ..old(self)@ }),
    {
        &mut self.i2c
    }

    /// Lends the reset pin to the host.
    pub fn reset_pin(&mut self) -> (pin: &mut RST)
        ensures
            *pin == old(self)@.reset_pin,
            final(self)@ == (DriverView { reset_pin: *final(pin), ..old(self)@ }),
    {
        &mut self.pin_rst
    }

    /// The interrupt pin. The driver never arms or reads it: a host that
    /// wants to poll only when the chip signals a touch watches it itself.
    pub fn interrupt_pin(&self) -> (pin: &PINT)
        ensures
            *pin == self@.interrupt_pin,
    {
        &self.pin_int
    }

    /// The register block as the last successful read left it.
    pub fn block(&self) -> (block: &[u8; BLOB_BUF_LEN])
        ensures
            block@ == self@.block,
    {
        &self.blob_buf
    }

    /// One step of the hardware reset that readies the chip for bus
    /// transactions.
    ///
    /// The host starts with [`ResetEvent::Start`], carries out each request
    /// on the reset pin or its delay source, and reports back until the
    /// driver answers [`Next::Finished`]. The driver itself is left as it
    /// was.
    pub fn setup<CommE, PinE>(&mut self, event: ResetEvent<PinE>) -> (next: Next<
        ResetRequest,
        Result<(), Error<CommE, PinE>>,
    >)
        ensures
            next == setup_step::<CommE, PinE>(event),
            *final(self) == *old(self),
    {
        match event {
            // reset the chip
            ResetEvent::Start => Next::Perform(ResetRequest::DriveLow),
            ResetEvent::DroveLow(Ok(())) => Next::Perform(
                ResetRequest::Hold { micros: RESET_HOLD_US },
            ),
            ResetEvent::DroveLow(Err(e)) => Next::Finished(Err(Error::Pin(e))),
            ResetEvent::Held => Next::Perform(ResetRequest::DriveHigh),
            ResetEvent::DroveHigh(Ok(())) => Next::Perform(
                ResetRequest::Settle { micros: RESET_SETTLE_US },
            ),
            ResetEvent::DroveHigh(Err(e)) => Next::Finished(Err(Error::Pin(e))),
            ResetEvent::Settled => Next::Finished(Ok(())),
        }
    }

    /// One step of reading enough registers to fill the register block.
    ///
    /// The host starts with [`BusEvent::Start`]. The bytes of a read that
    /// succeeded replace the whole block; any other event leaves the block
    /// as it was.
    pub fn read_registers<CommE, PinE>(&mut self, event: BusEvent<CommE>) -> (next: Next<
        BusRequest,
        Result<(), Error<CommE, PinE>>,
    >)
        ensures
            next == read_step::<CommE, PinE>(event),
            final(self)@ == (DriverView { block: block_after(old(self)@.block, event), ..old(self)@ }),
    {
        match event {
            BusEvent::Start => Next::Perform(
                BusRequest::Write { address: DEFAULT_I2C_ADDRESS, register: REG_FIRST },
            ),
            BusEvent::Wrote(Ok(())) => Next::Perform(
                BusRequest::ReadBlock { address: DEFAULT_I2C_ADDRESS },
            ),
            BusEvent::Wrote(Err(e)) => Next::Finished(Err(Error::Comm(e))),
            BusEvent::BlockRead(Ok(bytes)) => {
                self.blob_buf = bytes;
                Next::Finished(Ok(()))
            },
            BusEvent::BlockRead(Err(e)) => Next::Finished(Err(Error::Comm(e))),
        }
    }

    /// One step of the main method for getting the current touch event.
    ///
    /// The poll reads the register block as [`Self::read_registers`] does
    /// and then decodes it. It finishes with `None` when a transaction
    /// failed or the header counts no touch point, and with the first
    /// record's event, the block's gesture attached, when the header counts
    /// one or more. Later records are not looked at: the chip is only ever
    /// seen to report one contact.
    pub fn read_one_touch_event<CommE>(&mut self, event: BusEvent<CommE>) -> (next: Next<
        BusRequest,
        Option<TouchEvent>,
    >)
        ensures
            next == poll_step(event),
            event matches BusEvent::BlockRead(Ok(bytes)) ==> (point_count(bytes@) == 0 ==> next
                == Next::<BusRequest, Option<TouchEvent>>::Finished(None)),
            event matches BusEvent::BlockRead(Ok(bytes)) ==> (point_count(bytes@) >= 1 ==> next
                == Next::<BusRequest, Option<TouchEvent>>::Finished(
                Some(TouchEvent { gesture: gesture_id(bytes@), ..record_event(record_at(bytes@, 0)) }),
            )),
            next matches Next::Finished(Some(touch)) ==> touch.in_range(),
            final(self)@ == (DriverView { block: block_after(old(self)@.block, event), ..old(self)@ }),
    {
        match self.read_registers::<CommE, ()>(event) {
            Next::Perform(request) => Next::Perform(request),
            Next::Finished(Err(_)) => Next::Finished(None),
            Next::Finished(Ok(())) => {
                let gesture_id: u8 = self.blob_buf[GESTURE_ID_OFF];
                let num_points: usize = (self.blob_buf[NUM_POINTS_OFF] & 0x0F) as usize;
                if num_points == 0 {
                    return Next::Finished(None);
                }
                let evt_start: usize = GESTURE_HEADER_LEN;
                let record = &self.blob_buf[evt_start..evt_start + RAW_TOUCH_EVENT_LEN];
                match touch_event_from_data(record) {
                    Some(mut evt) => {
                        evt.gesture = gesture_id;
                        Next::Finished(Some(evt))
                    },
                    None => Next::Finished(None),
                }
            },
        }
    }
}

} // verus!
