//! The CPU: its registers, its interrupt state and its instruction engine.

pub mod alu;
pub mod flag;
pub mod instructions;
pub mod interrupt;
pub mod opcodes;
pub mod registers;

use vstd::prelude::*;
use crate::bus::{address_after, ended, next_address, Address, Bus, BusError, BusModel, Byte, Fault, Word};
use crate::cpu::flag::{lemma_pack_unpack, lemma_unpack_high_nibble, lemma_unpack_pack, pack, unpack, Flag, Flags};
use crate::cpu::registers::Register;

verus! {

/// Where an instruction finds or puts a byte.
#[allow(unused)]
#[derive(Clone, Copy, Debug, PartialEq, Eq, Structural)]
pub enum ByteDescriptor {
    A,
    B,
    C,
    D,
    E,
    H,
    L,
    /// The byte at the address in BC.
    BC,
    /// The byte at the address in DE.
    DE,
    /// The byte at the address in HL.
    HL,
    /// The byte at the address in HL, which is then incremented.
    HLi,
    /// The byte at the address in HL, which is then decremented.
    HLd,
    /// The byte after the opcode.
    Immediate,
    /// The byte at the address that follows the opcode.
    Indirect,
    /// The byte at `0xFF00` plus the byte after the opcode.
    HighAddress,
    /// The byte at `0xFF00` plus C.
    HighAddressC,
}

/// Where an instruction finds or puts a word.
#[allow(unused)]
#[derive(Clone, Copy, Debug, PartialEq, Eq, Structural)]
pub enum WordDescriptor {
    AF,
    BC,
    DE,
    HL,
    SP,
    PC,
    /// The word after the opcode.
    Immediate,
    /// The word at the address that follows the opcode.
    Indirect,
}

#[derive(Clone, Copy, Debug, PartialEq, Eq, Structural)]
pub enum Direction {
    Left,
    Right,
}

/// The address before `address`, which is `0xFFFF` before 0.
pub open spec fn previous_address(address: Address) -> Address {
    if address == 0 {
        0xFFFF
    } else {
        (address - 1) as Address
    }
}

pub fn address_before(address: Address) -> (r: Address)
    ensures
        r == previous_address(address),
{
    if address == 0 {
        0xFFFF
    } else {
        address - 1
    }
}

/// The word made of a high and a low byte.
pub open spec fn word_of(high: u8, low: u8) -> u16 {
    (high * 256 + low) as u16
}

/// The address of a register in the high page.
pub open spec fn high_address(low: u8) -> Address {
    (0xFF00 + low) as Address
}

/// The state of the CPU: the eight byte registers, the flags, the stack
/// pointer, the program counter and whether it has halted.
pub struct CpuModel {
    pub a: u8,
    pub flags: Flags,
    pub b: u8,
    pub c: u8,
    pub d: u8,
    pub e: u8,
    pub h: u8,
    pub l: u8,
    pub sp: u16,
    pub pc: u16,
    pub halted: bool,
}

impl CpuModel {
    pub open spec fn af(self) -> u16 {
        word_of(self.a, pack(self.flags))
    }

    pub open spec fn bc(self) -> u16 {
        word_of(self.b, self.c)
    }

    pub open spec fn de(self) -> u16 {
        word_of(self.d, self.e)
    }

    pub open spec fn hl(self) -> u16 {
        word_of(self.h, self.l)
    }

    /// The low nibble of AF is always empty.
    pub proof fn law_low_nibble_empty(self)
        ensures
            self.af() % 16 == 0,
    {
    }

    /// F takes the high nibble of the low byte only.
    pub open spec fn with_af(self, v: u16) -> CpuModel {
        CpuModel { a: (v / 256) as u8, flags: unpack((v % 256) as u8), ..self }
    }

    pub open spec fn with_bc(self, v: u16) -> CpuModel {
        CpuModel { b: (v / 256) as u8, c: (v % 256) as u8, ..self }
    }

    pub open spec fn with_de(self, v: u16) -> CpuModel {
        CpuModel { d: (v / 256) as u8, e: (v % 256) as u8, ..self }
    }

    pub open spec fn with_hl(self, v: u16) -> CpuModel {
        CpuModel { h: (v / 256) as u8, l: (v % 256) as u8, ..self }
    }

    pub open spec fn with_flag(self, flag: Flag, value: bool) -> CpuModel {
        CpuModel { flags: self.flags.with(flag, value), ..self }
    }

    /// The byte at the program counter, which moves past it. Where the byte
    /// cannot be read the program counter stays.
    pub open spec fn fetch(self, bus: BusModel) -> (CpuModel, Result<u8, Fault>) {
        match bus.read_byte(self.pc) {
            Ok(v) => (CpuModel { pc: next_address(self.pc), ..self }, Ok(v)),
            Err(f) => (self, Err(f)),
        }
    }

    /// The word at the program counter, which moves past it. Where the word
    /// cannot be read the program counter stays.
    pub open spec fn fetch_word(self, bus: BusModel) -> (CpuModel, Result<u16, Fault>) {
        match bus.read_word(self.pc) {
            Ok(v) => (CpuModel { pc: next_address(next_address(self.pc)), ..self }, Ok(v)),
            Err(f) => (self, Err(f)),
        }
    }

    /// The CPU after the byte that a descriptor stands for is read, with the
    /// byte, or with the fault that kept it from being read. HL moves only
    /// once the byte is read; the program counter moves past an address that
    /// follows the opcode before that address is used.
    pub open spec fn read_byte(self, bus: BusModel, desc: ByteDescriptor) -> (CpuModel, Result<u8, Fault>) {
        match desc {
            ByteDescriptor::A => (self, Ok(self.a)),
            ByteDescriptor::B => (self, Ok(self.b)),
            ByteDescriptor::C => (self, Ok(self.c)),
            ByteDescriptor::D => (self, Ok(self.d)),
            ByteDescriptor::E => (self, Ok(self.e)),
            ByteDescriptor::H => (self, Ok(self.h)),
            ByteDescriptor::L => (self, Ok(self.l)),
            ByteDescriptor::BC => (self, bus.read_byte(self.bc())),
            ByteDescriptor::DE => (self, bus.read_byte(self.de())),
            ByteDescriptor::HL => (self, bus.read_byte(self.hl())),
            ByteDescriptor::HLi => match bus.read_byte(self.hl()) {
                Ok(v) => (self.with_hl(next_address(self.hl())), Ok(v)),
                Err(f) => (self, Err(f)),
            },
            ByteDescriptor::HLd => match bus.read_byte(self.hl()) {
                Ok(v) => (self.with_hl(previous_address(self.hl())), Ok(v)),
                Err(f) => (self, Err(f)),
            },
            ByteDescriptor::Immediate => self.fetch(bus),
            ByteDescriptor::Indirect => match self.fetch_word(bus) {
                (cpu, Ok(address)) => (cpu, bus.read_byte(address)),
                (cpu, Err(f)) => (cpu, Err(f)),
            },
            ByteDescriptor::HighAddress => match self.fetch(bus) {
                (cpu, Ok(low)) => (cpu, bus.read_byte(high_address(low))),
                (cpu, Err(f)) => (cpu, Err(f)),
            },
            ByteDescriptor::HighAddressC => (self, bus.read_byte(high_address(self.c))),
        }
    }

    /// A write to a place in memory. A write that fails changes nothing.
    pub open spec fn store(self, bus: BusModel, address: Address, value: u8) -> Outcome<()> {
        match bus.write_byte(address, value) {
            Ok(b) => done(self, b, ()),
            Err(f) => failed(self, bus, f),
        }
    }

    /// The CPU and the bus after a byte is written to what a descriptor
    /// stands for. The byte after the opcode cannot be written. HL moves
    /// only once the byte is written.
    pub open spec fn write_byte(self, bus: BusModel, desc: ByteDescriptor, value: u8) -> Outcome<()> {
        match desc {
            ByteDescriptor::A => done(CpuModel { a: value, ..self }, bus, ()),
            ByteDescriptor::B => done(CpuModel { b: value, ..self }, bus, ()),
            ByteDescriptor::C => done(CpuModel { c: value, ..self }, bus, ()),
            ByteDescriptor::D => done(CpuModel { d: value, ..self }, bus, ()),
            ByteDescriptor::E => done(CpuModel { e: value, ..self }, bus, ()),
            ByteDescriptor::H => done(CpuModel { h: value, ..self }, bus, ()),
            ByteDescriptor::L => done(CpuModel { l: value, ..self }, bus, ()),
            ByteDescriptor::BC => self.store(bus, self.bc(), value),
            ByteDescriptor::DE => self.store(bus, self.de(), value),
            ByteDescriptor::HL => self.store(bus, self.hl(), value),
            ByteDescriptor::HLi => match bus.write_byte(self.hl(), value) {
                Ok(b) => done(self.with_hl(next_address(self.hl())), b, ()),
                Err(f) => failed(self, bus, f),
            },
            ByteDescriptor::HLd => match bus.write_byte(self.hl(), value) {
                Ok(b) => done(self.with_hl(previous_address(self.hl())), b, ()),
                Err(f) => failed(self, bus, f),
            },
            ByteDescriptor::Immediate => failed(self, bus, Fault::InvalidOperand),
            ByteDescriptor::Indirect => match self.fetch_word(bus) {
                (cpu, Ok(address)) => cpu.store(bus, address, value),
                (cpu, Err(f)) => failed(cpu, bus, f),
            },
            ByteDescriptor::HighAddress => match self.fetch(bus) {
                (cpu, Ok(low)) => cpu.store(bus, high_address(low), value),
                (cpu, Err(f)) => failed(cpu, bus, f),
            },
            ByteDescriptor::HighAddressC => self.store(bus, high_address(self.c), value),
        }
    }

    /// The CPU after the word that a descriptor stands for is read, with the
    /// word, or with the fault that kept it from being read.
    pub open spec fn read_word(self, bus: BusModel, desc: WordDescriptor) -> (CpuModel, Result<u16, Fault>) {
        match desc {
            WordDescriptor::AF => (self, Ok(self.af())),
            WordDescriptor::BC => (self, Ok(self.bc())),
            WordDescriptor::DE => (self, Ok(self.de())),
            WordDescriptor::HL => (self, Ok(self.hl())),
            WordDescriptor::SP => (self, Ok(self.sp)),
            WordDescriptor::PC => (self, Ok(self.pc)),
            WordDescriptor::Immediate => self.fetch_word(bus),
            WordDescriptor::Indirect => match self.fetch_word(bus) {
                (cpu, Ok(address)) => (cpu, bus.read_word(address)),
                (cpu, Err(f)) => (cpu, Err(f)),
            },
        }
    }

    /// The CPU and the bus after a word is written to what a descriptor
    /// stands for. The word after the opcode cannot be written.
    pub open spec fn write_word(self, bus: BusModel, desc: WordDescriptor, value: u16) -> Outcome<()> {
        match desc {
            WordDescriptor::AF => done(self.with_af(value), bus, ()),
            WordDescriptor::BC => done(self.with_bc(value), bus, ()),
            WordDescriptor::DE => done(self.with_de(value), bus, ()),
            WordDescriptor::HL => done(self.with_hl(value), bus, ()),
            WordDescriptor::SP => done(CpuModel { sp: value, ..self }, bus, ()),
            WordDescriptor::PC => done(CpuModel { pc: value, ..self }, bus, ()),
            WordDescriptor::Immediate => failed(self, bus, Fault::InvalidOperand),
            WordDescriptor::Indirect => match self.fetch_word(bus) {
                (cpu, Ok(address)) => cpu.store_word(bus, address, value),
                (cpu, Err(f)) => failed(cpu, bus, f),
            },
        }
    }

    /// A write of a word to a place in memory.
    pub open spec fn store_word(self, bus: BusModel, address: Address, value: u16) -> Outcome<()> {
        Outcome { cpu: self, bus: bus.write_word(address, value).0, result: bus.write_word(address, value).1 }
    }
}

/// What an operation leaves behind: the CPU, the bus, and the operation's
/// result or the fault that ended it. After a fault the two states are those
/// that the operation had reached when the fault came.
pub struct Outcome<T> {
    pub cpu: CpuModel,
    pub bus: BusModel,
    pub result: Result<T, Fault>,
}

/// The outcome of an operation that came to its end.
pub open spec fn done<T>(cpu: CpuModel, bus: BusModel, value: T) -> Outcome<T> {
    Outcome { cpu, bus, result: Ok(value) }
}

/// The outcome of an operation that a fault ended.
pub open spec fn failed<T>(cpu: CpuModel, bus: BusModel, fault: Fault) -> Outcome<T> {
    Outcome { cpu, bus, result: Err(fault) }
}

/// Whether a result and the CPU it left behind are what was to be expected
/// of an operation that leaves the bus alone, after success and after a
/// fault alike.
pub open spec fn reads<T>(r: Result<T, Fault>, cpu: CpuModel, expected: (CpuModel, Result<T, Fault>)) -> bool {
    cpu == expected.0 && r == expected.1
}

/// Whether a result, the CPU and the bus that an operation left behind are
/// what was to be expected, after success and after a fault alike.
pub open spec fn writes(r: Result<(), Fault>, cpu: CpuModel, bus: BusModel, expected: Outcome<()>) -> bool {
    cpu == expected.cpu && bus == expected.bus && ended(r, expected.result)
}

pub struct CPU {
    af: Register,
    bc: Register,
    de: Register,
    hl: Register,
    sp: Word,
    pc: Word,
    halted: bool,
}

impl CPU {
    pub closed spec fn view(&self) -> CpuModel {
        CpuModel {
            a: (self.af@ / 256) as u8,
            flags: unpack((self.af@ % 256) as u8),
            b: (self.bc@ / 256) as u8,
            c: (self.bc@ % 256) as u8,
            d: (self.de@ / 256) as u8,
            e: (self.de@ % 256) as u8,
            h: (self.hl@ / 256) as u8,
            l: (self.hl@ % 256) as u8,
            sp: self.sp,
            pc: self.pc,
            halted: self.halted,
        }
    }

    /// The low nibble of F is empty.
    pub closed spec fn wf(&self) -> bool {
        ((self.af@ % 256) as u8) & 0x0F == 0
    }

    /// The CPU as the boot ROM leaves it: about to run the cartridge at
    /// `0x0100`, with the stack at `0xFFFE`.
    pub fn new() -> (r: Self)
        ensures
            r.wf(),
            r@ == (CpuModel {
                a: 0x01,
                flags: Flags { zero: true, subtract: false, half_carry: true, carry: true },
                b: 0x00,
                c: 0x13,
                d: 0x00,
                e: 0xD8,
                h: 0x01,
                l: 0x4D,
                sp: 0xFFFE,
                pc: 0x0100,
                halted: false,
            }),
    {
        proof {
            lemma_unpack_pack(Flags { zero: true, subtract: false, half_carry: true, carry: true });
        }
        CPU {
            af: Register::new(0x01B0),
            bc: Register::new(0x0013),
            de: Register::new(0x00D8),
            hl: Register::new(0x014D),
            sp: 0xFFFE,
            pc: 0x0100,
            halted: false,
        }
    }

    /// Routes the addresses of the interrupt flags and of the interrupt
    /// enable mask to the registers that the bus holds for the CPU.
    pub fn attach_to_bus(&self, bus: &mut Bus) -> (r: Result<(), BusError>)
        requires
            old(bus).wf(),
        ensures
            final(bus).wf(),
            match old(bus)@.attach_interrupts() {
                Ok(b) => r is Ok && final(bus)@ == b,
                Err(e) => r == Err::<(), BusError>(e) && final(bus)@ == old(bus)@,
            },
    {
        bus.attach_interrupts()
    }

    pub fn set_flag_if(&mut self, flag: Flag, cond: bool)
        requires
            old(self).wf(),
        ensures
            final(self).wf(),
            final(self)@ == old(self)@.with_flag(flag, cond),
    {
        if cond {
            self.set_flag(flag)
        } else {
            self.clear_flag(flag);
        }
    }

    pub fn set_flag(&mut self, flag: Flag)
        requires
            old(self).wf(),
        ensures
            final(self).wf(),
            final(self)@ == old(self)@.with_flag(flag, true),
    {
        let mut f = self.af.right();
        Flag::set(&mut f, flag);
        self.af.set_right(f);
    }

    pub fn clear_flag(&mut self, flag: Flag)
        requires
            old(self).wf(),
        ensures
            final(self).wf(),
            final(self)@ == old(self)@.with_flag(flag, false),
    {
        let mut f = self.af.right();
        Flag::clear(&mut f, flag);
        self.af.set_right(f);
    }

    pub fn test_flag(&self, flag: Flag) -> (r: bool)
        ensures
            r == self@.flags.get(flag),
    {
        let f = self.af.right();
        Flag::test(&f, flag)
    }

    pub fn clear_all_flags(&mut self)
        ensures
            final(self).wf(),
            final(self)@ == (CpuModel { flags: Flags::none(), ..old(self)@ }),
    {
        proof {
            lemma_unpack_pack(Flags::none());
        }
        self.af.set_right(0x00);
    }

    pub fn is_halted(&self) -> (r: bool)
        ensures
            r == self@.halted,
    {
        self.halted
    }

    pub fn pc(&self) -> (r: Word)
        ensures
            r == self@.pc,
    {
        self.pc
    }

    pub fn sp(&self) -> (r: Word)
        ensures
            r == self@.sp,
    {
        self.sp
    }

    /// The accumulator.
    pub fn a(&self) -> (r: Byte)
        ensures
            r == self@.a,
    {
        self.af.left()
    }

    pub fn set_pc(&mut self, address: Word)
        ensures
            final(self).wf() == old(self).wf(),
            final(self)@ == (CpuModel { pc: address, ..old(self)@ }),
    {
        self.pc = address;
    }

    pub fn set_sp(&mut self, address: Word)
        ensures
            final(self).wf() == old(self).wf(),
            final(self)@ == (CpuModel { sp: address, ..old(self)@ }),
    {
        self.sp = address;
    }

    pub fn set_halted(&mut self, halted: bool)
        ensures
            final(self).wf() == old(self).wf(),
            final(self)@ == (CpuModel { halted, ..old(self)@ }),
    {
        self.halted = halted;
    }

    pub fn bc(&self) -> (r: Word)
        ensures
            r == self@.bc(),
    {
        self.bc.word()
    }

    pub fn de(&self) -> (r: Word)
        ensures
            r == self@.de(),
    {
        self.de.word()
    }

    pub fn hl(&self) -> (r: Word)
        ensures
            r == self@.hl(),
    {
        self.hl.word()
    }

    pub fn af(&self) -> (r: Word)
        requires
            self.wf(),
        ensures
            r == self@.af(),
    {
        proof {
            lemma_pack_unpack((self.af@ % 256) as u8);
        }
        self.af.word()
    }

    fn set_a(&mut self, value: u8)
        requires
            old(self).wf(),
        ensures
            final(self).wf(),
            final(self)@ == (CpuModel { a: value, ..old(self)@ }),
    {
        self.af.set_left(value);
    }

    fn set_b(&mut self, value: u8)
        ensures
            final(self).wf() == old(self).wf(),
            final(self)@ == (CpuModel { b: value, ..old(self)@ }),
    {
        self.bc.set_left(value);
    }

    fn set_c(&mut self, value: u8)
        ensures
            final(self).wf() == old(self).wf(),
            final(self)@ == (CpuModel { c: value, ..old(self)@ }),
    {
        self.bc.set_right(value);
    }

    fn set_d(&mut self, value: u8)
        ensures
            final(self).wf() == old(self).wf(),
            final(self)@ == (CpuModel { d: value, ..old(self)@ }),
    {
        self.de.set_left(value);
    }

    fn set_e(&mut self, value: u8)
        ensures
            final(self).wf() == old(self).wf(),
            final(self)@ == (CpuModel { e: value, ..old(self)@ }),
    {
        self.de.set_right(value);
    }

    fn set_h(&mut self, value: u8)
        ensures
            final(self).wf() == old(self).wf(),
            final(self)@ == (CpuModel { h: value, ..old(self)@ }),
    {
        self.hl.set_left(value);
    }

    fn set_l(&mut self, value: u8)
        ensures
            final(self).wf() == old(self).wf(),
            final(self)@ == (CpuModel { l: value, ..old(self)@ }),
    {
        self.hl.set_right(value);
    }

    fn set_af(&mut self, value: Word)
        ensures
            final(self).wf(),
            final(self)@ == old(self)@.with_af(value),
    {
        let low: u8 = (value % 256) as u8;
        proof {
            lemma_unpack_high_nibble(low);
        }
        self.af.set_word((value / 256) * 256 + ((low & 0xF0) as u16));
    }

    fn set_bc(&mut self, value: Word)
        ensures
            final(self).wf() == old(self).wf(),
            final(self)@ == old(self)@.with_bc(value),
    {
        self.bc.set_word(value);
    }

    fn set_de(&mut self, value: Word)
        ensures
            final(self).wf() == old(self).wf(),
            final(self)@ == old(self)@.with_de(value),
    {
        self.de.set_word(value);
    }

    fn set_hl(&mut self, value: Word)
        ensures
            final(self).wf() == old(self).wf(),
            final(self)@ == old(self)@.with_hl(value),
    {
        self.hl.set_word(value);
    }

    fn fetch(&mut self, bus: &Bus) -> (r: Result<u8, Fault>)
        requires
            old(self).wf(),
            bus.wf(),
        ensures
            final(self).wf(),
            reads(r, final(self)@, old(self)@.fetch(bus@)),
    {
        let byte = bus.read_byte(self.pc)?;
        self.pc = address_after(self.pc);
        Ok(byte)
    }

    fn fetch_word(&mut self, bus: &Bus) -> (r: Result<u16, Fault>)
        requires
            old(self).wf(),
            bus.wf(),
        ensures
            final(self).wf(),
            reads(r, final(self)@, old(self)@.fetch_word(bus@)),
    {
        let word = bus.read_word(self.pc)?;
        self.pc = address_after(address_after(self.pc));
        Ok(word)
    }

    /// Reads the byte that a descriptor stands for.
    pub fn read_byte(&mut self, bus: &Bus, desc: ByteDescriptor) -> (r: Result<u8, Fault>)
        requires
            old(self).wf(),
            bus.wf(),
        ensures
            final(self).wf(),
            reads(r, final(self)@, old(self)@.read_byte(bus@, desc)),
    {
        match desc {
            ByteDescriptor::A => Ok(self.af.left()),
            ByteDescriptor::B => Ok(self.bc.left()),
            ByteDescriptor::C => Ok(self.bc.right()),
            ByteDescriptor::D => Ok(self.de.left()),
            ByteDescriptor::E => Ok(self.de.right()),
            ByteDescriptor::H => Ok(self.hl.left()),
            ByteDescriptor::L => Ok(self.hl.right()),
            ByteDescriptor::BC => bus.read_byte(self.bc()),
            ByteDescriptor::DE => bus.read_byte(self.de()),
            ByteDescriptor::HL => bus.read_byte(self.hl()),
            ByteDescriptor::HLi => {
                let address = self.hl();
                let byte = bus.read_byte(address)?;
                self.set_hl(address_after(address));
                Ok(byte)
            },
            ByteDescriptor::HLd => {
                let address = self.hl();
                let byte = bus.read_byte(address)?;
                self.set_hl(address_before(address));
                Ok(byte)
            },
            ByteDescriptor::Immediate => self.fetch(bus),
            ByteDescriptor::Indirect => {
                let address = self.fetch_word(bus)?;
                bus.read_byte(address)
            },
            ByteDescriptor::HighAddress => {
                let low = self.fetch(bus)?;
                bus.read_byte(0xFF00 + (low as u16))
            },
            ByteDescriptor::HighAddressC => bus.read_byte(0xFF00 + (self.bc.right() as u16)),
        }
    }

    /// Writes a byte to what a descriptor stands for.
    pub fn write_byte(&mut self, bus: &mut Bus, desc: ByteDescriptor, value: u8) -> (r: Result<(), Fault>)
        requires
            old(self).wf(),
            old(bus).wf(),
        ensures
            final(self).wf(),
            final(bus).wf(),
            final(bus)@.devices.len() == old(bus)@.devices.len(),
            writes(r, final(self)@, final(bus)@, old(self)@.write_byte(old(bus)@, desc, value)),
    {
        match desc {
            ByteDescriptor::A => {
                self.set_a(value);
                Ok(())
            },
            ByteDescriptor::B => {
                self.set_b(value);
                Ok(())
            },
            ByteDescriptor::C => {
                self.set_c(value);
                Ok(())
            },
            ByteDescriptor::D => {
                self.set_d(value);
                Ok(())
            },
            ByteDescriptor::E => {
                self.set_e(value);
                Ok(())
            },
            ByteDescriptor::H => {
                self.set_h(value);
                Ok(())
            },
            ByteDescriptor::L => {
                self.set_l(value);
                Ok(())
            },
            ByteDescriptor::BC => bus.write_byte(self.bc(), value),
            ByteDescriptor::DE => bus.write_byte(self.de(), value),
            ByteDescriptor::HL => bus.write_byte(self.hl(), value),
            ByteDescriptor::HLi => {
                let address = self.hl();
                bus.write_byte(address, value)?;
                self.set_hl(address_after(address));
                Ok(())
            },
            ByteDescriptor::HLd => {
                let address = self.hl();
                bus.write_byte(address, value)?;
                self.set_hl(address_before(address));
                Ok(())
            },
            ByteDescriptor::Immediate => Err(Fault::InvalidOperand),
            ByteDescriptor::Indirect => {
                let address = self.fetch_word(bus)?;
                bus.write_byte(address, value)
            },
            ByteDescriptor::HighAddress => {
                let low = self.fetch(bus)?;
                bus.write_byte(0xFF00 + (low as u16), value)
            },
            ByteDescriptor::HighAddressC => bus.write_byte(0xFF00 + (self.bc.right() as u16), value),
        }
    }

    /// Reads the word that a descriptor stands for.
    pub fn read_word(&mut self, bus: &Bus, desc: WordDescriptor) -> (r: Result<u16, Fault>)
        requires
            old(self).wf(),
            bus.wf(),
        ensures
            final(self).wf(),
            reads(r, final(self)@, old(self)@.read_word(bus@, desc)),
    {
        match desc {
            WordDescriptor::AF => Ok(self.af()),
            WordDescriptor::BC => Ok(self.bc()),
            WordDescriptor::DE => Ok(self.de()),
            WordDescriptor::HL => Ok(self.hl()),
            WordDescriptor::SP => Ok(self.sp),
            WordDescriptor::PC => Ok(self.pc),
            WordDescriptor::Immediate => self.fetch_word(bus),
            WordDescriptor::Indirect => {
                let address = self.fetch_word(bus)?;
                bus.read_word(address)
            },
        }
    }

    /// Writes a word to what a descriptor stands for. Of a word written to
    /// AF the low nibble is dropped.
    pub fn write_word(&mut self, bus: &mut Bus, desc: WordDescriptor, value: Word) -> (r: Result<(), Fault>)
        requires
            old(self).wf(),
            old(bus).wf(),
        ensures
            final(self).wf(),
            final(bus).wf(),
            final(bus)@.devices.len() == old(bus)@.devices.len(),
            writes(r, final(self)@, final(bus)@, old(self)@.write_word(old(bus)@, desc, value)),
    {
        match desc {
            WordDescriptor::AF => {
                self.set_af(value);
                Ok(())
            },
            WordDescriptor::BC => {
                self.set_bc(value);
                Ok(())
            },
            WordDescriptor::DE => {
                self.set_de(value);
                Ok(())
            },
            WordDescriptor::HL => {
                self.set_hl(value);
                Ok(())
            },
            WordDescriptor::SP => {
                self.sp = value;
                Ok(())
            },
            WordDescriptor::PC => {
                self.pc = value;
                Ok(())
            },
            WordDescriptor::Immediate => Err(Fault::InvalidOperand),
            WordDescriptor::Indirect => {
                let address = self.fetch_word(bus)?;
                bus.write_word(address, value)
            },
        }
    }
}


impl BusModel {
    /// The first `n` words of a stack that starts at `from`, each with its
    /// address.
    pub open spec fn stack(self, from: Address, n: nat) -> Result<Seq<(Address, Word)>, Fault>
        decreases n,
    {
        if n == 0 {
            Ok(Seq::empty())
        } else {
            match self.stack(from, (n - 1) as nat) {
                Ok(words) => {
                    let address = (from + 2 * (n - 1)) as Address;
                    match self.read_word(address) {
                        Ok(word) => Ok(words.push((address, word))),
                        Err(f) => Err(f),
                    }
                },
                Err(f) => Err(f),
            }
        }
    }
}

/// The number of words between the top of a stack and its base, an odd byte
/// counted as a word.
pub open spec fn stack_depth(sp: Address, base: Address) -> nat {
    if sp < base {
        ((base - sp + 1) / 2) as nat
    } else {
        0
    }
}

impl CPU {
    /// The words on the stack, from the stack pointer up to the address
    /// where the stack began.
    pub fn stack(&self, bus: &Bus, stack_base: Address) -> (r: Result<Vec<(Address, Word)>, Fault>)
        requires
            bus.wf(),
        ensures
            match bus@.stack(self@.sp, stack_depth(self@.sp, stack_base)) {
                Ok(words) => r matches Ok(v) && v@ == words,
                Err(f) => r == Err::<Vec<(Address, Word)>, Fault>(f),
            },
    {
        let mut values: Vec<(Address, Word)> = Vec::new();
        if self.sp >= stack_base {
            return Ok(values);
        }
        let depth: u16 = (stack_base - self.sp - 1) / 2 + 1;
        let mut i: u16 = 0;
        while i < depth
            invariant
                i <= depth,
                bus.wf(),
                self.sp < stack_base,
                depth == stack_depth(self.sp, stack_base),
                self.sp + 2 * depth <= stack_base + 1,
                bus@.stack(self.sp, i as nat) == Ok::<Seq<(Address, Word)>, Fault>(values@),
            decreases depth - i,
        {
            let address = self.sp + 2 * i;
            let word = match bus.read_word(address) {
                Ok(word) => word,
                Err(f) => {
                    proof {
                        lemma_stack_fails(bus@, self.sp, (i + 1) as nat, depth as nat);
                    }
                    return Err(f);
                },
            };
            values.push((address, word));
            i += 1;
        }
        Ok(values)
    }
}

/// Where the first words of a stack cannot be read, more of them cannot be
/// read either, for the same fault.
pub proof fn lemma_stack_fails(bus: BusModel, from: Address, n: nat, m: nat)
    requires
        n <= m,
        bus.stack(from, n) is Err,
    ensures
        bus.stack(from, m) == bus.stack(from, n),
    decreases m,
{
    if n < m {
        lemma_stack_fails(bus, from, n, (m - 1) as nat);
    }
}

} // verus!
