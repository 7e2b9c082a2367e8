//! The boot ROM: the 256 bytes that the machine runs first, laid over the
//! start of the cartridge until the program switches them off.

use vstd::prelude::*;
use crate::bus::{Address, Attach, BusListener, Byte, Fault};

verus! {

/// The register whose write switches the boot ROM off.
pub const BOOT_ROM_DISABLE: Address = 0xFF50;

pub struct BootRom {
    data: Vec<u8>,
}

pub open spec fn boot_rom_claims() -> Seq<Attach> {
    seq![Attach::Block(0x00), Attach::Register(0x50)]
}

/// A read of the image; the disable register cannot be read.
pub open spec fn boot_rom_read(m: Seq<Byte>, address: Address) -> Result<Byte, Fault> {
    if address < m.len() && address <= 0x00FF {
        Ok(m[address as int])
    } else if address == BOOT_ROM_DISABLE {
        Err(Fault::WriteOnly(address))
    } else {
        Err(Fault::NotOwned(address))
    }
}

/// Any write to the disable register asks for the ROM to be detached; the
/// image itself cannot be written.
pub open spec fn boot_rom_write(m: Seq<Byte>, address: Address, value: Byte) -> Result<(Seq<Byte>, bool), Fault> {
    if address == BOOT_ROM_DISABLE {
        Ok((m, true))
    } else {
        Err(Fault::ReadOnly(address))
    }
}

impl BootRom {
    /// The bytes of the image.
    pub closed spec fn view(&self) -> Seq<Byte> {
        self.data@
    }

    /// A boot ROM over the bytes of an image.
    pub fn new(data: Vec<u8>) -> (r: Self)
        ensures
            r@ == data@,
    {
        Self { data }
    }
}

impl BusListener for BootRom {
    type Model = Seq<Byte>;

    open spec fn model(&self) -> Seq<Byte> {
        self@
    }

    open spec fn valid(&self) -> bool {
        true
    }

    open spec fn claims_of(m: Seq<Byte>) -> Seq<Attach> {
        boot_rom_claims()
    }

    open spec fn read_of(m: Seq<Byte>, address: Address) -> Result<Byte, Fault> {
        boot_rom_read(m, address)
    }

    open spec fn write_of(m: Seq<Byte>, address: Address, value: Byte) -> Result<(Seq<Byte>, bool), Fault> {
        boot_rom_write(m, address, value)
    }

    fn bus_attach(&self) -> (r: Vec<Attach>) {
        let r = vec![Attach::Block(0x00), Attach::Register(0x50)];
        r
    }

    fn bus_read(&self, address: Address) -> (r: Result<Byte, Fault>) {
        if (address as usize) < self.data.len() && address <= 0x00FF {
            Ok(self.data[address as usize])
        } else if address == BOOT_ROM_DISABLE {
            Err(Fault::WriteOnly(address))
        } else {
            Err(Fault::NotOwned(address))
        }
    }

    fn bus_write(&mut self, address: Address, value: Byte) -> (r: Result<bool, Fault>) {
        if address == BOOT_ROM_DISABLE {
            Ok(true)
        } else {
            Err(Fault::ReadOnly(address))
        }
    }
}

} // verus!
