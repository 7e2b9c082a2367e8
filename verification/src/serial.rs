//! The serial port, as far as it is emulated: two registers, and a record of
//! the bytes that the program has sent.

use vstd::prelude::*;
use crate::bus::{Address, Attach, Bus, BusListener, BusModel, Byte, Fault};
use crate::clock::{passed, ClockListener, Ticked};

verus! {

pub const SERIAL_DATA: Address = 0xFF01;

pub const SERIAL_CONTROL: Address = 0xFF02;

/// The bit of the control register that asks for a transfer.
pub const SERIAL_CONTROL_TRANSFER_START: u8 = 0x80;

pub struct SerialInterface {
    quiet: bool,
    transfer_data: u8,
    transfer_control: u8,
    sent: Vec<u8>,
}

/// What a [`SerialInterface`] holds.
pub struct SerialModel {
    /// Whether transfers are dropped instead of recorded.
    pub quiet: bool,
    pub transfer_data: Byte,
    pub transfer_control: Byte,
    /// The bytes sent since the record was last taken, oldest first.
    pub sent: Seq<Byte>,
}

pub open spec fn serial_claims() -> Seq<Attach> {
    seq![Attach::RegisterRange(0x01, 0x02)]
}

pub open spec fn serial_read(m: SerialModel, address: Address) -> Result<Byte, Fault> {
    if address == SERIAL_DATA {
        Ok(m.transfer_data)
    } else if address == SERIAL_CONTROL {
        Ok(m.transfer_control)
    } else {
        Err(Fault::NotOwned(address))
    }
}

/// A write to the control register with the start bit set sends the data
/// byte, unless the port is quiet. The start bit stays as written.
pub open spec fn serial_write(m: SerialModel, address: Address, value: Byte) -> Result<(SerialModel, bool), Fault> {
    if address == SERIAL_DATA {
        Ok((SerialModel { transfer_data: value, ..m }, false))
    } else if address == SERIAL_CONTROL {
        if !m.quiet && value & SERIAL_CONTROL_TRANSFER_START != 0 {
            Ok((SerialModel { transfer_control: value, sent: m.sent.push(m.transfer_data), ..m }, false))
        } else {
            Ok((SerialModel { transfer_control: value, ..m }, false))
        }
    } else {
        Err(Fault::NotOwned(address))
    }
}

impl SerialInterface {
    pub closed spec fn view(&self) -> SerialModel {
        SerialModel {
            quiet: self.quiet,
            transfer_data: self.transfer_data,
            transfer_control: self.transfer_control,
            sent: self.sent@,
        }
    }

    pub fn new(quiet: bool) -> (r: Self)
        ensures
            r@ == (SerialModel { quiet, transfer_data: 0, transfer_control: 0, sent: Seq::empty() }),
    {
        Self { quiet, transfer_data: 0, transfer_control: 0, sent: Vec::new() }
    }

    /// Hands out the bytes sent so far and starts a new record.
    pub fn take_sent(&mut self) -> (r: Vec<u8>)
        ensures
            r@ == old(self)@.sent,
            final(self)@ == (SerialModel { sent: Seq::empty(), ..old(self)@ }),
    {
        let mut out: Vec<u8> = Vec::new();
        core::mem::swap(&mut out, &mut self.sent);
        out
    }
}

impl BusListener for SerialInterface {
    type Model = SerialModel;

    open spec fn model(&self) -> SerialModel {
        self@
    }

    open spec fn valid(&self) -> bool {
        true
    }

    open spec fn claims_of(m: SerialModel) -> Seq<Attach> {
        serial_claims()
    }

    open spec fn read_of(m: SerialModel, address: Address) -> Result<Byte, Fault> {
        serial_read(m, address)
    }

    open spec fn write_of(m: SerialModel, address: Address, value: Byte) -> Result<(SerialModel, bool), Fault> {
        serial_write(m, address, value)
    }

    fn bus_attach(&self) -> (r: Vec<Attach>) {
        let r = vec![Attach::RegisterRange(0x01, 0x02)];
        r
    }

    fn bus_read(&self, address: Address) -> (r: Result<Byte, Fault>) {
        if address == SERIAL_DATA {
            Ok(self.transfer_data)
        } else if address == SERIAL_CONTROL {
            Ok(self.transfer_control)
        } else {
            Err(Fault::NotOwned(address))
        }
    }

    fn bus_write(&mut self, address: Address, value: Byte) -> (r: Result<bool, Fault>) {
        if address == SERIAL_DATA {
            self.transfer_data = value;
            Ok(false)
        } else if address == SERIAL_CONTROL {
            self.transfer_control = value;
            if !self.quiet && value & SERIAL_CONTROL_TRANSFER_START != 0 {
                self.sent.push(self.transfer_data);
            }
            Ok(false)
        } else {
            Err(Fault::NotOwned(address))
        }
    }
}


impl ClockListener for SerialInterface {
    /// Time does nothing to the port: a transfer takes none.
    open spec fn tick_of(m: SerialModel, bus: BusModel, cycles: u8) -> Ticked<SerialModel> {
        passed(m, bus)
    }

    fn callback(&mut self, bus: &mut Bus, cycles: u8) -> (r: Result<(), Fault>) {
        Ok(())
    }
}

} // verus!
