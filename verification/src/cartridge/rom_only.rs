//! The simplest cartridge: a fixed ROM image and no RAM.

use vstd::prelude::*;
use crate::bus::{Address, Attach, BusListener, Byte, Fault};

verus! {

/// The address bit that tells the cartridge's RAM region from its ROM.
pub const RAM_BIT: u16 = 0x8000;

pub struct RomOnlyCartridge {
    bytes: Vec<u8>,
}

pub open spec fn rom_only_claims() -> Seq<Attach> {
    seq![Attach::BlockRange(0x00, 0x7F), Attach::BlockRange(0xA0, 0xBF)]
}

/// The RAM region reads as `0xFF`; the ROM region reads the image.
pub open spec fn rom_only_read(m: Seq<Byte>, address: Address) -> Result<Byte, Fault> {
    if address >= RAM_BIT {
        Ok(0xFFu8)
    } else if address < m.len() {
        Ok(m[address as int])
    } else {
        Err(Fault::NotOwned(address))
    }
}

/// Every write is ignored.
pub open spec fn rom_only_write(m: Seq<Byte>, address: Address, value: Byte) -> Result<(Seq<Byte>, bool), Fault> {
    Ok((m, false))
}

impl RomOnlyCartridge {
    /// The bytes of the image.
    pub closed spec fn view(&self) -> Seq<Byte> {
        self.bytes@
    }

    pub fn new(bytes: Vec<u8>) -> (r: Self)
        ensures
            r@ == bytes@,
    {
        Self { bytes }
    }

    /// Whether the image is larger than the 32 KiB that can be addressed.
    pub fn is_oversized(&self) -> (r: bool)
        ensures
            r == (self@.len() > 0x8000),
    {
        self.bytes.len() > 0x8000
    }
}

impl BusListener for RomOnlyCartridge {
    type Model = Seq<Byte>;

    open spec fn model(&self) -> Seq<Byte> {
        self@
    }

    open spec fn valid(&self) -> bool {
        true
    }

    open spec fn claims_of(m: Seq<Byte>) -> Seq<Attach> {
        rom_only_claims()
    }

    open spec fn read_of(m: Seq<Byte>, address: Address) -> Result<Byte, Fault> {
        rom_only_read(m, address)
    }

    open spec fn write_of(m: Seq<Byte>, address: Address, value: Byte) -> Result<(Seq<Byte>, bool), Fault> {
        rom_only_write(m, address, value)
    }

    fn bus_attach(&self) -> (r: Vec<Attach>) {
        let r = vec![Attach::BlockRange(0x00, 0x7F), Attach::BlockRange(0xA0, 0xBF)];
        r
    }

    fn bus_read(&self, address: Address) -> (r: Result<Byte, Fault>) {
        if address >= RAM_BIT {
            Ok(0xFF)
        } else if (address as usize) < self.bytes.len() {
            Ok(self.bytes[address as usize])
        } else {
            Err(Fault::NotOwned(address))
        }
    }

    fn bus_write(&mut self, address: Address, value: Byte) -> (r: Result<bool, Fault>) {
        Ok(false)
    }
}

} // verus!
