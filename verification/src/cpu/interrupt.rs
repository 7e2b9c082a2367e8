//! The interrupt registers, which the CPU and every component that raises an
//! interrupt share.

use vstd::prelude::*;
use crate::bus::{Address, Attach, Bus, BusListener, BusModel, Byte, Fault};

verus! {

/// The address of the interrupt flags (IF).
pub const INTERRUPT_FLAGS: Address = 0xFF0F;

/// The address of the interrupt enable mask (IE).
pub const INTERRUPT_ENABLE: Address = 0xFFFF;

#[derive(Clone, Copy, Debug, PartialEq, Eq, Structural)]
pub struct InterruptRegisters {
    /// IME: whether the CPU takes interrupts at all.
    pub master_enable: bool,
    /// IE: one bit for each source that may interrupt.
    pub enable: Byte,
    /// IF: one bit for each source that has asked to.
    pub flags: Byte,
}

/// The five sources of interrupts, from the highest priority to the lowest.
#[derive(Clone, Copy, Debug, PartialEq, Eq, Structural)]
pub enum InterruptType {
    VBlank,
    LCDStat,
    Timer,
    Serial,
    Joypad,
}

impl InterruptType {
    /// The position of the source's bit in IE and IF.
    pub open spec fn index(self) -> int {
        match self {
            InterruptType::VBlank => 0,
            InterruptType::LCDStat => 1,
            InterruptType::Timer => 2,
            InterruptType::Serial => 3,
            InterruptType::Joypad => 4,
        }
    }

    /// The source's bit in IE and IF.
    pub open spec fn mask(self) -> u8 {
        match self {
            InterruptType::VBlank => 0x01,
            InterruptType::LCDStat => 0x02,
            InterruptType::Timer => 0x04,
            InterruptType::Serial => 0x08,
            InterruptType::Joypad => 0x10,
        }
    }

    /// The address that the CPU jumps to when it takes the interrupt.
    pub open spec fn vector(self) -> Address {
        (0x40 + 8 * self.index()) as Address
    }

    pub fn bit(self) -> (r: u8)
        ensures
            r == self.mask(),
    {
        match self {
            InterruptType::VBlank => 0x01,
            InterruptType::LCDStat => 0x02,
            InterruptType::Timer => 0x04,
            InterruptType::Serial => 0x08,
            InterruptType::Joypad => 0x10,
        }
    }

    pub fn address(self) -> (r: Address)
        ensures
            r == self.vector(),
    {
        match self {
            InterruptType::VBlank => 0x40,
            InterruptType::LCDStat => 0x48,
            InterruptType::Timer => 0x50,
            InterruptType::Serial => 0x58,
            InterruptType::Joypad => 0x60,
        }
    }
}

pub open spec fn interrupt_claims() -> Seq<Attach> {
    seq![Attach::Register(0x0F), Attach::Register(0xFF)]
}

pub open spec fn interrupt_read(m: InterruptRegisters, address: Address) -> Result<Byte, Fault> {
    if address == INTERRUPT_FLAGS {
        Ok(m.flags)
    } else if address == INTERRUPT_ENABLE {
        Ok(m.enable)
    } else {
        Err(Fault::NotOwned(address))
    }
}

pub open spec fn interrupt_write(m: InterruptRegisters, address: Address, value: Byte) -> Result<(InterruptRegisters, bool), Fault> {
    if address == INTERRUPT_FLAGS {
        Ok((InterruptRegisters { flags: value, ..m }, false))
    } else if address == INTERRUPT_ENABLE {
        Ok((InterruptRegisters { enable: value, ..m }, false))
    } else {
        Err(Fault::NotOwned(address))
    }
}

impl BusListener for InterruptRegisters {
    type Model = InterruptRegisters;

    open spec fn model(&self) -> InterruptRegisters {
        *self
    }

    open spec fn valid(&self) -> bool {
        true
    }

    open spec fn claims_of(m: InterruptRegisters) -> Seq<Attach> {
        interrupt_claims()
    }

    open spec fn read_of(m: InterruptRegisters, address: Address) -> Result<Byte, Fault> {
        interrupt_read(m, address)
    }

    open spec fn write_of(m: InterruptRegisters, address: Address, value: Byte) -> Result<(InterruptRegisters, bool), Fault> {
        interrupt_write(m, address, value)
    }

    fn bus_attach(&self) -> (r: Vec<Attach>) {
        let r = vec![Attach::Register(0x0F), Attach::Register(0xFF)];
        r
    }

    fn bus_read(&self, address: Address) -> (r: Result<Byte, Fault>) {
        if address == INTERRUPT_FLAGS {
            Ok(self.flags)
        } else if address == INTERRUPT_ENABLE {
            Ok(self.enable)
        } else {
            Err(Fault::NotOwned(address))
        }
    }

    fn bus_write(&mut self, address: Address, value: Byte) -> (r: Result<bool, Fault>) {
        if address == INTERRUPT_FLAGS {
            self.flags = value;
            Ok(false)
        } else if address == INTERRUPT_ENABLE {
            self.enable = value;
            Ok(false)
        } else {
            Err(Fault::NotOwned(address))
        }
    }
}


impl InterruptRegisters {
    /// The sources that have asked to interrupt and may: one bit each.
    pub open spec fn pending(self) -> u8 {
        self.flags & self.enable & 0x1F
    }

    /// The pending source of the highest priority, which is the one with the
    /// lowest bit.
    pub open spec fn next(self) -> Option<InterruptType> {
        let p = self.pending();
        if p & 0x01 != 0 {
            Some(InterruptType::VBlank)
        } else if p & 0x02 != 0 {
            Some(InterruptType::LCDStat)
        } else if p & 0x04 != 0 {
            Some(InterruptType::Timer)
        } else if p & 0x08 != 0 {
            Some(InterruptType::Serial)
        } else if p & 0x10 != 0 {
            Some(InterruptType::Joypad)
        } else {
            None
        }
    }

    /// The registers once the CPU has taken an interrupt: the source's flag
    /// is cleared, and so is the master enable.
    pub open spec fn acknowledged(self, source: InterruptType) -> InterruptRegisters {
        InterruptRegisters { master_enable: false, flags: self.flags & !source.mask(), ..self }
    }

    /// The source that is taken is pending, and no source of a higher
    /// priority is. Taking it clears its flag and leaves every other flag as
    /// it is.
    pub proof fn law_highest_priority_first(self, source: InterruptType)
        requires
            self.next() == Some(source),
        ensures
            self.pending() & source.mask() != 0,
            forall|other: InterruptType|
                other.index() < source.index() ==> self.pending() & #[trigger] other.mask() == 0,
            self.acknowledged(source).flags & source.mask() == 0,
            self.acknowledged(source).flags | source.mask() == self.flags,
            self.acknowledged(source).enable == self.enable,
    {
        let f = self.flags;
        let e = self.enable;
        let m = source.mask();
        assert((f & e & 0x1F) & m != 0 ==> (f & !m) & m == 0 && (f & !m) | m == f) by (bit_vector)
            requires
                m == 0x01 || m == 0x02 || m == 0x04 || m == 0x08 || m == 0x10,
        ;
    }

    pub fn pending_bits(&self) -> (r: u8)
        ensures
            r == self.pending(),
    {
        self.flags & self.enable & 0x1F
    }

    pub fn highest(&self) -> (r: Option<InterruptType>)
        ensures
            r == self.next(),
    {
        let p = self.flags & self.enable & 0x1F;
        if p & 0x01 != 0 {
            Some(InterruptType::VBlank)
        } else if p & 0x02 != 0 {
            Some(InterruptType::LCDStat)
        } else if p & 0x04 != 0 {
            Some(InterruptType::Timer)
        } else if p & 0x08 != 0 {
            Some(InterruptType::Serial)
        } else if p & 0x10 != 0 {
            Some(InterruptType::Joypad)
        } else {
            None
        }
    }

    pub fn acknowledge(&mut self, source: InterruptType)
        ensures
            *final(self) == old(self).acknowledged(source),
    {
        self.master_enable = false;
        self.flags = self.flags & !source.bit();
    }
}

impl BusModel {
    /// The bus after a component has asked for an interrupt: the flags are
    /// read through the bus and written back with the source's bit set.
    pub open spec fn raise(self, source: InterruptType) -> Result<BusModel, Fault> {
        match self.read_byte(INTERRUPT_FLAGS) {
            Ok(flags) => self.write_byte(INTERRUPT_FLAGS, flags | source.mask()),
            Err(f) => Err(f),
        }
    }
}

/// Asks for an interrupt by setting the source's bit in the interrupt flags,
/// through the bus.
pub fn interrupt(bus: &mut Bus, interrupt_type: InterruptType) -> (r: Result<(), Fault>)
    requires
        old(bus).wf(),
    ensures
        final(bus).wf(),
        final(bus)@.devices.len() == old(bus)@.devices.len(),
        match old(bus)@.raise(interrupt_type) {
            Ok(b) => r is Ok && final(bus)@ == b,
            Err(f) => r == Err::<(), Fault>(f) && final(bus)@ == old(bus)@,
        },
{
    let flags = bus.read_byte(INTERRUPT_FLAGS)?;
    bus.write_byte(INTERRUPT_FLAGS, flags | interrupt_type.bit())
}

} // verus!
