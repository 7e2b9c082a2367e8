//! The instructions: what each does to the CPU and the bus, the two opcode
//! tables, and the step that runs one instruction or takes one interrupt.

use vstd::prelude::*;
use crate::bus::{address_after, next_address, Address, Bus, BusModel, Byte, Fault, Target, Word};
use crate::cpu::alu::{
    add16, add16_spec, add8, add8_spec, carry_in, daa8, daa_spec, jump16, jump_spec, offset16, offset_spec, rotate8,
    rotate_spec, shift8, shift_spec, sub8, sub8_spec,
};
use crate::cpu::flag::{Flag, Flags};
use crate::cpu::interrupt::InterruptRegisters;
use crate::cpu::opcodes::{decode, decode_cb, decode_cb_spec, decode_spec, Condition, Entry, Operation};
use crate::cpu::{done, failed, reads, writes, ByteDescriptor, CpuModel, Direction, Outcome, WordDescriptor, CPU};

verus! {

/// Whether a result, the CPU and the bus that an operation left behind are
/// what was to be expected, after success and after a fault alike.
pub open spec fn yields<T>(r: Result<T, Fault>, cpu: CpuModel, bus: BusModel, expected: Outcome<T>) -> bool {
    cpu == expected.cpu && bus == expected.bus && r == expected.result
}

/// The outcome of an operation, with another value for its success.
pub open spec fn valued<S, T>(o: Outcome<S>, value: T) -> Outcome<T> {
    Outcome {
        cpu: o.cpu,
        bus: o.bus,
        result: match o.result {
            Ok(_) => Ok(value),
            Err(f) => Err(f),
        },
    }
}

/// Two less than a word, modulo 65536.
pub open spec fn two_below(x: u16) -> u16 {
    if x >= 2 {
        (x - 2) as u16
    } else {
        (x + 0xFFFE) as u16
    }
}

/// Two more than a word, modulo 65536.
pub open spec fn two_above(x: u16) -> u16 {
    if x < 0xFFFE {
        (x + 2) as u16
    } else {
        (x - 0xFFFE) as u16
    }
}

/// One more than a byte, modulo 256.
pub open spec fn byte_after(v: u8) -> u8 {
    if v == 255 {
        0
    } else {
        (v + 1) as u8
    }
}

/// One less than a byte, modulo 256.
pub open spec fn byte_before(v: u8) -> u8 {
    if v == 0 {
        255
    } else {
        (v - 1) as u8
    }
}

fn below_two(x: u16) -> (r: u16)
    ensures
        r == two_below(x),
{
    if x >= 2 {
        x - 2
    } else {
        x + 0xFFFE
    }
}

fn above_two(x: u16) -> (r: u16)
    ensures
        r == two_above(x),
{
    if x < 0xFFFE {
        x + 2
    } else {
        x - 0xFFFE
    }
}

fn after_byte(v: u8) -> (r: u8)
    ensures
        r == byte_after(v),
{
    if v == 255 {
        0
    } else {
        v + 1
    }
}

fn before_byte(v: u8) -> (r: u8)
    ensures
        r == byte_before(v),
{
    if v == 0 {
        255
    } else {
        v - 1
    }
}

/// The byte with only the given bit set.
pub open spec fn bit_mask(bit: u8) -> u8 {
    if bit == 0 {
        0x01
    } else if bit == 1 {
        0x02
    } else if bit == 2 {
        0x04
    } else if bit == 3 {
        0x08
    } else if bit == 4 {
        0x10
    } else if bit == 5 {
        0x20
    } else if bit == 6 {
        0x40
    } else {
        0x80
    }
}

pub fn mask_of(bit: u8) -> (r: u8)
    ensures
        r == bit_mask(bit),
{
    if bit == 0 {
        0x01
    } else if bit == 1 {
        0x02
    } else if bit == 2 {
        0x04
    } else if bit == 3 {
        0x08
    } else if bit == 4 {
        0x10
    } else if bit == 5 {
        0x20
    } else if bit == 6 {
        0x40
    } else {
        0x80
    }
}

impl CpuModel {
    /// Copies a byte from one place to another.
    #[verifier::opaque]
    pub open spec fn ld(self, bus: BusModel, dest: ByteDescriptor, src: ByteDescriptor) -> Outcome<()> {
        match self.read_byte(bus, src) {
            (cpu, Ok(v)) => cpu.write_byte(bus, dest, v),
            (cpu, Err(f)) => failed(cpu, bus, f),
        }
    }

    /// Copies a word from one place to another.
    #[verifier::opaque]
    pub open spec fn ld_16(self, bus: BusModel, dest: WordDescriptor, src: WordDescriptor) -> Outcome<()> {
        match self.read_word(bus, src) {
            (cpu, Ok(v)) => cpu.write_word(bus, dest, v),
            (cpu, Err(f)) => failed(cpu, bus, f),
        }
    }

    pub open spec fn test_condition(self, condition: Condition) -> bool {
        match condition {
            Some((flag, value)) => self.flags.get(flag) == value,
            None => true,
        }
    }

    /// Reads the target after the opcode, and jumps to it if the condition
    /// holds. The result says whether it jumped.
    #[verifier::opaque]
    pub open spec fn jp(self, bus: BusModel, condition: Condition) -> Outcome<bool> {
        match self.fetch_word(bus) {
            (cpu, Ok(address)) => if cpu.test_condition(condition) {
                done(CpuModel { pc: address, ..cpu }, bus, true)
            } else {
                done(cpu, bus, false)
            },
            (cpu, Err(f)) => failed(cpu, bus, f),
        }
    }

    /// Reads the offset after the opcode, and jumps by it if the condition
    /// holds.
    #[verifier::opaque]
    pub open spec fn jr(self, bus: BusModel, condition: Condition) -> Outcome<bool> {
        match self.fetch(bus) {
            (cpu, Ok(offset)) => if cpu.test_condition(condition) {
                done(CpuModel { pc: jump_spec(cpu.pc, offset), ..cpu }, bus, true)
            } else {
                done(cpu, bus, false)
            },
            (cpu, Err(f)) => failed(cpu, bus, f),
        }
    }

    /// Moves the stack pointer down by two, reads the word and writes it
    /// there.
    #[verifier::opaque]
    pub open spec fn push(self, bus: BusModel, src: WordDescriptor) -> Outcome<()> {
        match (CpuModel { sp: two_below(self.sp), ..self }).read_word(bus, src) {
            (cpu, Ok(value)) => cpu.store_word(bus, cpu.sp, value),
            (cpu, Err(f)) => failed(cpu, bus, f),
        }
    }

    /// Reads the word at the stack pointer into a place and then moves the
    /// stack pointer up by two.
    #[verifier::opaque]
    pub open spec fn pop(self, bus: BusModel, dest: WordDescriptor) -> Outcome<()> {
        match bus.read_word(self.sp) {
            Ok(value) => {
                let written = self.write_word(bus, dest, value);
                if written.result is Ok {
                    done(CpuModel { sp: two_above(written.cpu.sp), ..written.cpu }, written.bus, ())
                } else {
                    written
                }
            },
            Err(f) => failed(self, bus, f),
        }
    }

    /// Reads the target after the opcode and, if the condition holds, pushes
    /// the address of the next instruction and jumps.
    #[verifier::opaque]
    pub open spec fn call(self, bus: BusModel, condition: Condition) -> Outcome<bool> {
        match self.fetch_word(bus) {
            (cpu, Ok(address)) => if cpu.test_condition(condition) {
                let pushed = cpu.push(bus, WordDescriptor::PC);
                if pushed.result is Ok {
                    done(CpuModel { pc: address, ..pushed.cpu }, pushed.bus, true)
                } else {
                    valued(pushed, true)
                }
            } else {
                done(cpu, bus, false)
            },
            (cpu, Err(f)) => failed(cpu, bus, f),
        }
    }

    /// Pushes the address of the next instruction and jumps to a fixed one.
    #[verifier::opaque]
    pub open spec fn rst(self, bus: BusModel, address: Address) -> Outcome<()> {
        let pushed = self.push(bus, WordDescriptor::PC);
        if pushed.result is Ok {
            done(CpuModel { pc: address, ..pushed.cpu }, pushed.bus, ())
        } else {
            pushed
        }
    }

    /// Pops the program counter if the condition holds.
    #[verifier::opaque]
    pub open spec fn ret(self, bus: BusModel, condition: Condition) -> Outcome<bool> {
        if self.test_condition(condition) {
            valued(self.pop(bus, WordDescriptor::PC), true)
        } else {
            done(self, bus, false)
        }
    }

    /// Switches interrupts on and pops the program counter.
    #[verifier::opaque]
    pub open spec fn reti(self, bus: BusModel) -> Outcome<()> {
        self.pop(bus.with_master_enable(true), WordDescriptor::PC)
    }

    /// Adds a byte, and the carry if asked to, to the accumulator.
    #[verifier::opaque]
    pub open spec fn add(self, bus: BusModel, register: ByteDescriptor, with_carry: bool) -> Outcome<()> {
        match self.read_byte(bus, register) {
            (cpu, Ok(v)) => {
                let (result, half, carry) = add8_spec(cpu.a, v, carry_in(with_carry, cpu.flags.carry));
                done(
                    CpuModel {
                        a: result,
                        flags: Flags { zero: result == 0, subtract: false, half_carry: half, carry },
                        ..cpu
                    },
                    bus,
                    (),
                )
            },
            (cpu, Err(f)) => failed(cpu, bus, f),
        }
    }

    /// Takes a byte, and the carry if asked to, away from the accumulator.
    #[verifier::opaque]
    pub open spec fn sub(self, bus: BusModel, register: ByteDescriptor, with_carry: bool) -> Outcome<()> {
        match self.read_byte(bus, register) {
            (cpu, Ok(v)) => {
                let (result, half, carry) = sub8_spec(cpu.a, v, carry_in(with_carry, cpu.flags.carry));
                done(
                    CpuModel {
                        a: result,
                        flags: Flags { zero: result == 0, subtract: true, half_carry: half, carry },
                        ..cpu
                    },
                    bus,
                    (),
                )
            },
            (cpu, Err(f)) => failed(cpu, bus, f),
        }
    }

    /// Sets the flags as a subtraction from the accumulator would, and leaves
    /// the accumulator alone.
    #[verifier::opaque]
    pub open spec fn cp(self, bus: BusModel, register: ByteDescriptor) -> Outcome<()> {
        match self.read_byte(bus, register) {
            (cpu, Ok(v)) => {
                let (result, half, carry) = sub8_spec(cpu.a, v, 0);
                done(
                    CpuModel {
                        flags: Flags { zero: result == 0, subtract: true, half_carry: half, carry },
                        ..cpu
                    },
                    bus,
                    (),
                )
            },
            (cpu, Err(f)) => failed(cpu, bus, f),
        }
    }

    /// Adds a word to HL. The zero flag stays.
    #[verifier::opaque]
    pub open spec fn add_16(self, bus: BusModel, register: WordDescriptor) -> Outcome<()> {
        match self.read_word(bus, register) {
            (cpu, Ok(v)) => {
                let (result, half, carry) = add16_spec(self.hl(), v);
                done(
                    CpuModel {
                        flags: Flags { subtract: false, half_carry: half, carry, ..cpu.flags },
                        ..cpu
                    }.with_hl(result),
                    bus,
                    (),
                )
            },
            (cpu, Err(f)) => failed(cpu, bus, f),
        }
    }

    /// The stack pointer moved by the signed byte after the opcode, with the
    /// flags set from the move.
    #[verifier::opaque]
    pub open spec fn relative_sp(self, bus: BusModel) -> Outcome<Word> {
        match self.fetch(bus) {
            (cpu, Ok(offset)) => {
                let (result, half, carry) = offset_spec(self.sp, offset);
                done(
                    CpuModel {
                        flags: Flags { zero: false, subtract: false, half_carry: half, carry },
                        ..cpu
                    },
                    bus,
                    result,
                )
            },
            (cpu, Err(f)) => failed(cpu, bus, f),
        }
    }

    #[verifier::opaque]
    pub open spec fn add_sp(self, bus: BusModel) -> Outcome<()> {
        let moved = self.relative_sp(bus);
        match moved.result {
            Ok(address) => done(CpuModel { sp: address, ..moved.cpu }, moved.bus, ()),
            Err(f) => failed(moved.cpu, moved.bus, f),
        }
    }

    #[verifier::opaque]
    pub open spec fn ld_sp(self, bus: BusModel) -> Outcome<()> {
        let moved = self.relative_sp(bus);
        match moved.result {
            Ok(address) => done(moved.cpu.with_hl(address), moved.bus, ()),
            Err(f) => failed(moved.cpu, moved.bus, f),
        }
    }

    /// Flips every bit of the accumulator.
    #[verifier::opaque]
    pub open spec fn cpl(self) -> CpuModel {
        CpuModel { a: !self.a, flags: Flags { subtract: true, half_carry: true, ..self.flags }, ..self }
    }

    /// Flips the carry.
    #[verifier::opaque]
    pub open spec fn ccf(self) -> CpuModel {
        CpuModel {
            flags: Flags { carry: !self.flags.carry, half_carry: false, subtract: false, ..self.flags },
            ..self
        }
    }

    /// Sets the carry.
    #[verifier::opaque]
    pub open spec fn scf(self) -> CpuModel {
        CpuModel { flags: Flags { carry: true, half_carry: false, subtract: false, ..self.flags }, ..self }
    }

    /// Adds one to a byte. The zero flag stays; the carry says whether the
    /// byte wrapped. The flags are set before the byte is written back.
    #[verifier::opaque]
    pub open spec fn inc(self, bus: BusModel, register: ByteDescriptor) -> Outcome<()> {
        match self.read_byte(bus, register) {
            (cpu, Ok(v)) => (CpuModel {
                flags: Flags { subtract: false, half_carry: v % 16 == 15, carry: v == 255, ..cpu.flags },
                ..cpu
            }).write_byte(bus, register, byte_after(v)),
            (cpu, Err(f)) => failed(cpu, bus, f),
        }
    }

    /// Adds one to a word, modulo 65536. No flag changes.
    #[verifier::opaque]
    pub open spec fn inc_16(self, bus: BusModel, register: WordDescriptor) -> Outcome<()> {
        match self.read_word(bus, register) {
            (cpu, Ok(v)) => cpu.write_word(bus, register, next_address(v)),
            (cpu, Err(f)) => failed(cpu, bus, f),
        }
    }

    /// Takes one away from a byte. The carry stays. The flags are set before
    /// the byte is written back.
    #[verifier::opaque]
    pub open spec fn dec(self, bus: BusModel, register: ByteDescriptor) -> Outcome<()> {
        match self.read_byte(bus, register) {
            (cpu, Ok(v)) => (CpuModel {
                flags: Flags { subtract: true, half_carry: v % 16 == 0, zero: v == 1, ..cpu.flags },
                ..cpu
            }).write_byte(bus, register, byte_before(v)),
            (cpu, Err(f)) => failed(cpu, bus, f),
        }
    }

    /// Takes one away from a word, modulo 65536. No flag changes.
    #[verifier::opaque]
    pub open spec fn dec_16(self, bus: BusModel, register: WordDescriptor) -> Outcome<()> {
        match self.read_word(bus, register) {
            (cpu, Ok(v)) => cpu.write_word(bus, register, crate::cpu::previous_address(v)),
            (cpu, Err(f)) => failed(cpu, bus, f),
        }
    }

    #[verifier::opaque]
    pub open spec fn and(self, bus: BusModel, register: ByteDescriptor) -> Outcome<()> {
        match self.read_byte(bus, register) {
            (cpu, Ok(v)) => {
                let result = cpu.a & v;
                done(
                    CpuModel {
                        a: result,
                        flags: Flags { zero: result == 0, subtract: false, half_carry: true, carry: false },
                        ..cpu
                    },
                    bus,
                    (),
                )
            },
            (cpu, Err(f)) => failed(cpu, bus, f),
        }
    }

    #[verifier::opaque]
    pub open spec fn or(self, bus: BusModel, register: ByteDescriptor) -> Outcome<()> {
        match self.read_byte(bus, register) {
            (cpu, Ok(v)) => {
                let result = cpu.a | v;
                done(
                    CpuModel {
                        a: result,
                        flags: Flags { zero: result == 0, subtract: false, half_carry: false, carry: false },
                        ..cpu
                    },
                    bus,
                    (),
                )
            },
            (cpu, Err(f)) => failed(cpu, bus, f),
        }
    }

    #[verifier::opaque]
    pub open spec fn xor(self, bus: BusModel, register: ByteDescriptor) -> Outcome<()> {
        match self.read_byte(bus, register) {
            (cpu, Ok(v)) => {
                let result = cpu.a ^ v;
                done(
                    CpuModel {
                        a: result,
                        flags: Flags { zero: result == 0, subtract: false, half_carry: false, carry: false },
                        ..cpu
                    },
                    bus,
                    (),
                )
            },
            (cpu, Err(f)) => failed(cpu, bus, f),
        }
    }

    /// Rotates a byte by one bit. The carry becomes the bit that left; the
    /// zero flag is set only where `with_zero` asks for it and the result is
    /// zero. The flags are set before the byte is written back.
    #[verifier::opaque]
    pub open spec fn rotate(
        self,
        bus: BusModel,
        register: ByteDescriptor,
        direction: Direction,
        with_carry: bool,
        with_zero: bool,
    ) -> Outcome<()> {
        match self.read_byte(bus, register) {
            (cpu, Ok(v)) => {
                let (result, out) = rotate_spec(v, direction, with_carry, cpu.flags.carry);
                (CpuModel {
                    flags: Flags {
                        zero: with_zero && result == 0,
                        subtract: false,
                        half_carry: false,
                        carry: out,
                    },
                    ..cpu
                }).write_byte(bus, register, result)
            },
            (cpu, Err(f)) => failed(cpu, bus, f),
        }
    }

    /// Shifts a byte by one bit. The carry becomes the bit that left, and
    /// the zero flag says whether the result is zero. The flags are set
    /// before the byte is written back.
    #[verifier::opaque]
    pub open spec fn shift(
        self,
        bus: BusModel,
        register: ByteDescriptor,
        direction: Direction,
        arithmetic_shift: bool,
    ) -> Outcome<()> {
        match self.read_byte(bus, register) {
            (cpu, Ok(v)) => {
                let (result, out) = shift_spec(v, direction, arithmetic_shift);
                (CpuModel {
                    flags: Flags { zero: result == 0, subtract: false, half_carry: false, carry: out },
                    ..cpu
                }).write_byte(bus, register, result)
            },
            (cpu, Err(f)) => failed(cpu, bus, f),
        }
    }

    /// Exchanges the accumulator with a byte. The zero flag says whether the
    /// byte that the accumulator took was zero. The accumulator and the
    /// flags are set before the byte is written back.
    #[verifier::opaque]
    pub open spec fn swap(self, bus: BusModel, register: ByteDescriptor) -> Outcome<()> {
        match self.read_byte(bus, register) {
            (cpu, Ok(v)) => (CpuModel {
                a: v,
                flags: Flags { zero: v == 0, subtract: false, half_carry: false, carry: false },
                ..cpu
            }).write_byte(bus, register, self.a),
            (cpu, Err(f)) => failed(cpu, bus, f),
        }
    }

    /// Sets the zero flag if the given bit of a byte is clear.
    #[verifier::opaque]
    pub open spec fn test_bit(self, bus: BusModel, register: ByteDescriptor, bit: u8) -> Outcome<()> {
        match self.read_byte(bus, register) {
            (cpu, Ok(v)) => done(
                CpuModel {
                    flags: Flags { zero: v & bit_mask(bit) == 0, subtract: false, half_carry: true, ..cpu.flags },
                    ..cpu
                },
                bus,
                (),
            ),
            (cpu, Err(f)) => failed(cpu, bus, f),
        }
    }

    #[verifier::opaque]
    pub open spec fn set_bit(self, bus: BusModel, register: ByteDescriptor, bit: u8) -> Outcome<()> {
        match self.read_byte(bus, register) {
            (cpu, Ok(v)) => cpu.write_byte(bus, register, v | bit_mask(bit)),
            (cpu, Err(f)) => failed(cpu, bus, f),
        }
    }

    #[verifier::opaque]
    pub open spec fn clear_bit(self, bus: BusModel, register: ByteDescriptor, bit: u8) -> Outcome<()> {
        match self.read_byte(bus, register) {
            (cpu, Ok(v)) => cpu.write_byte(bus, register, v & !bit_mask(bit)),
            (cpu, Err(f)) => failed(cpu, bus, f),
        }
    }

    /// Adjusts the accumulator to packed decimal.
    #[verifier::opaque]
    pub open spec fn daa(self) -> CpuModel {
        let (result, carry) = daa_spec(self.a, self.flags.subtract, self.flags.half_carry, self.flags.carry);
        CpuModel {
            a: result,
            flags: Flags { zero: result == 0, half_carry: false, carry, ..self.flags },
            ..self
        }
    }
}

impl BusModel {
    pub open spec fn with_master_enable(self, enabled: bool) -> BusModel {
        BusModel { interrupts: InterruptRegisters { master_enable: enabled, ..self.interrupts }, ..self }
    }
}

fn set_master_enable(bus: &mut Bus, enabled: bool)
    requires
        old(bus).wf(),
    ensures
        final(bus).wf(),
        final(bus)@ == old(bus)@.with_master_enable(enabled),
{
    let mut registers = bus.interrupts();
    registers.master_enable = enabled;
    bus.set_interrupts(registers);
}

impl CPU {
    pub fn ld(&mut self, bus: &mut Bus, dest: ByteDescriptor, src: ByteDescriptor) -> (r: Result<(), Fault>)
        requires
            old(self).wf(),
            old(bus).wf(),
        ensures
            final(self).wf(),
            final(bus).wf(),
            final(bus)@.devices.len() == old(bus)@.devices.len(),
            writes(r, final(self)@, final(bus)@, old(self)@.ld(old(bus)@, dest, src)),
    {
        reveal(CpuModel::ld);
        let value = self.read_byte(bus, src)?;
        self.write_byte(bus, dest, value)
    }

    pub fn ld_16(&mut self, bus: &mut Bus, dest: WordDescriptor, src: WordDescriptor) -> (r: Result<(), Fault>)
        requires
            old(self).wf(),
            old(bus).wf(),
        ensures
            final(self).wf(),
            final(bus).wf(),
            final(bus)@.devices.len() == old(bus)@.devices.len(),
            writes(r, final(self)@, final(bus)@, old(self)@.ld_16(old(bus)@, dest, src)),
    {
        reveal(CpuModel::ld_16);
        let value = self.read_word(bus, src)?;
        self.write_word(bus, dest, value)
    }

    pub fn test_condition(&self, condition: Condition) -> (r: bool)
        ensures
            r == self@.test_condition(condition),
    {
        match condition {
            Some((flag, value)) => self.test_flag(flag) == value,
            None => true,
        }
    }

    pub fn jp(&mut self, bus: &mut Bus, condition: Condition) -> (r: Result<bool, Fault>)
        requires
            old(self).wf(),
            old(bus).wf(),
        ensures
            final(self).wf(),
            final(bus).wf(),
            final(bus)@.devices.len() == old(bus)@.devices.len(),
            yields(r, final(self)@, final(bus)@, old(self)@.jp(old(bus)@, condition)),
    {
        reveal(CpuModel::jp);
        let address = self.read_word(bus, WordDescriptor::Immediate)?;
        if self.test_condition(condition) {
            self.set_pc(address);
            return Ok(true);
        }
        Ok(false)
    }

    pub fn jr(&mut self, bus: &mut Bus, condition: Condition) -> (r: Result<bool, Fault>)
        requires
            old(self).wf(),
            old(bus).wf(),
        ensures
            final(self).wf(),
            final(bus).wf(),
            final(bus)@.devices.len() == old(bus)@.devices.len(),
            yields(r, final(self)@, final(bus)@, old(self)@.jr(old(bus)@, condition)),
    {
        reveal(CpuModel::jr);
        let offset = self.read_byte(bus, ByteDescriptor::Immediate)?;
        if self.test_condition(condition) {
            let target = jump16(self.pc(), offset);
            self.set_pc(target);
            return Ok(true);
        }
        Ok(false)
    }

    pub fn push(&mut self, bus: &mut Bus, src: WordDescriptor) -> (r: Result<(), Fault>)
        requires
            old(self).wf(),
            old(bus).wf(),
        ensures
            final(self).wf(),
            final(bus).wf(),
            final(bus)@.devices.len() == old(bus)@.devices.len(),
            writes(r, final(self)@, final(bus)@, old(self)@.push(old(bus)@, src)),
    {
        reveal(CpuModel::push);
        let sp = below_two(self.sp());
        self.set_sp(sp);
        let value = self.read_word(bus, src)?;
        bus.write_word(self.sp(), value)
    }

    pub fn pop(&mut self, bus: &mut Bus, dest: WordDescriptor) -> (r: Result<(), Fault>)
        requires
            old(self).wf(),
            old(bus).wf(),
        ensures
            final(self).wf(),
            final(bus).wf(),
            final(bus)@.devices.len() == old(bus)@.devices.len(),
            writes(r, final(self)@, final(bus)@, old(self)@.pop(old(bus)@, dest)),
    {
        reveal(CpuModel::pop);
        let value = bus.read_word(self.sp())?;
        self.write_word(bus, dest, value)?;
        let sp = above_two(self.sp());
        self.set_sp(sp);
        Ok(())
    }

    pub fn call(&mut self, bus: &mut Bus, condition: Condition) -> (r: Result<bool, Fault>)
        requires
            old(self).wf(),
            old(bus).wf(),
        ensures
            final(self).wf(),
            final(bus).wf(),
            final(bus)@.devices.len() == old(bus)@.devices.len(),
            yields(r, final(self)@, final(bus)@, old(self)@.call(old(bus)@, condition)),
    {
        reveal(CpuModel::call);
        let address = self.read_word(bus, WordDescriptor::Immediate)?;
        if self.test_condition(condition) {
            self.push(bus, WordDescriptor::PC)?;
            self.set_pc(address);
            return Ok(true);
        }
        Ok(false)
    }

    pub fn rst(&mut self, bus: &mut Bus, address: Address) -> (r: Result<(), Fault>)
        requires
            old(self).wf(),
            old(bus).wf(),
        ensures
            final(self).wf(),
            final(bus).wf(),
            final(bus)@.devices.len() == old(bus)@.devices.len(),
            writes(r, final(self)@, final(bus)@, old(self)@.rst(old(bus)@, address)),
    {
        reveal(CpuModel::rst);
        self.push(bus, WordDescriptor::PC)?;
        self.set_pc(address);
        Ok(())
    }

    pub fn ret(&mut self, bus: &mut Bus, condition: Condition) -> (r: Result<bool, Fault>)
        requires
            old(self).wf(),
            old(bus).wf(),
        ensures
            final(self).wf(),
            final(bus).wf(),
            final(bus)@.devices.len() == old(bus)@.devices.len(),
            yields(r, final(self)@, final(bus)@, old(self)@.ret(old(bus)@, condition)),
    {
        reveal(CpuModel::ret);
        if self.test_condition(condition) {
            self.pop(bus, WordDescriptor::PC)?;
            return Ok(true);
        }
        Ok(false)
    }

    pub fn reti(&mut self, bus: &mut Bus) -> (r: Result<(), Fault>)
        requires
            old(self).wf(),
            old(bus).wf(),
        ensures
            final(self).wf(),
            final(bus).wf(),
            final(bus)@.devices.len() == old(bus)@.devices.len(),
            writes(r, final(self)@, final(bus)@, old(self)@.reti(old(bus)@)),
    {
        reveal(CpuModel::reti);
        set_master_enable(bus, true);
        self.pop(bus, WordDescriptor::PC)
    }

    pub fn add(&mut self, bus: &mut Bus, register: ByteDescriptor, with_carry: bool) -> (r: Result<(), Fault>)
        requires
            old(self).wf(),
            old(bus).wf(),
        ensures
            final(self).wf(),
            final(bus).wf(),
            final(bus)@ == old(bus)@,
            writes(r, final(self)@, final(bus)@, old(self)@.add(old(bus)@, register, with_carry)),
    {
        reveal(CpuModel::add);
        let value = self.read_byte(bus, register)?;
        let a_value = self.a();
        let carry = with_carry && self.test_flag(Flag::Carry);
        let (result, half, carry) = add8(a_value, value, carry);
        self.clear_all_flags();
        self.set_flag_if(Flag::HalfCarry, half);
        self.set_flag_if(Flag::Carry, carry);
        self.set_flag_if(Flag::Zero, result == 0);
        self.set_a(result);
        Ok(())
    }

    pub fn sub(&mut self, bus: &mut Bus, register: ByteDescriptor, with_carry: bool) -> (r: Result<(), Fault>)
        requires
            old(self).wf(),
            old(bus).wf(),
        ensures
            final(self).wf(),
            final(bus).wf(),
            final(bus)@ == old(bus)@,
            writes(r, final(self)@, final(bus)@, old(self)@.sub(old(bus)@, register, with_carry)),
    {
        reveal(CpuModel::sub);
        let value = self.read_byte(bus, register)?;
        let a_value = self.a();
        let carry = with_carry && self.test_flag(Flag::Carry);
        let (result, half, carry) = sub8(a_value, value, carry);
        self.clear_all_flags();
        self.set_flag(Flag::Subtract);
        self.set_flag_if(Flag::HalfCarry, half);
        self.set_flag_if(Flag::Carry, carry);
        self.set_flag_if(Flag::Zero, result == 0);
        self.set_a(result);
        Ok(())
    }

    pub fn cp(&mut self, bus: &mut Bus, register: ByteDescriptor) -> (r: Result<(), Fault>)
        requires
            old(self).wf(),
            old(bus).wf(),
        ensures
            final(self).wf(),
            final(bus).wf(),
            final(bus)@ == old(bus)@,
            writes(r, final(self)@, final(bus)@, old(self)@.cp(old(bus)@, register)),
    {
        reveal(CpuModel::cp);
        let value = self.read_byte(bus, register)?;
        let a_value = self.a();
        let (result, half, carry) = sub8(a_value, value, false);
        self.clear_all_flags();
        self.set_flag(Flag::Subtract);
        self.set_flag_if(Flag::HalfCarry, half);
        self.set_flag_if(Flag::Carry, carry);
        self.set_flag_if(Flag::Zero, result == 0);
        Ok(())
    }

    pub fn add_16(&mut self, bus: &mut Bus, register: WordDescriptor) -> (r: Result<(), Fault>)
        requires
            old(self).wf(),
            old(bus).wf(),
        ensures
            final(self).wf(),
            final(bus).wf(),
            final(bus)@ == old(bus)@,
            writes(r, final(self)@, final(bus)@, old(self)@.add_16(old(bus)@, register)),
    {
        reveal(CpuModel::add_16);
        let hl_value = self.hl();
        let value = self.read_word(bus, register)?;
        let (result, half, carry) = add16(hl_value, value);
        self.clear_flag(Flag::Subtract);
        self.set_flag_if(Flag::HalfCarry, half);
        self.set_flag_if(Flag::Carry, carry);
        self.set_hl(result);
        Ok(())
    }

    pub fn relative_sp(&mut self, bus: &mut Bus) -> (r: Result<Word, Fault>)
        requires
            old(self).wf(),
            old(bus).wf(),
        ensures
            final(self).wf(),
            final(bus).wf(),
            final(bus)@ == old(bus)@,
            yields(r, final(self)@, final(bus)@, old(self)@.relative_sp(old(bus)@)),
    {
        reveal(CpuModel::relative_sp);
        let sp_value = self.sp();
        let offset = self.read_byte(bus, ByteDescriptor::Immediate)?;
        let (result, half, carry) = offset16(sp_value, offset);
        self.clear_all_flags();
        self.set_flag_if(Flag::HalfCarry, half);
        self.set_flag_if(Flag::Carry, carry);
        Ok(result)
    }

    pub fn add_sp(&mut self, bus: &mut Bus) -> (r: Result<(), Fault>)
        requires
            old(self).wf(),
            old(bus).wf(),
        ensures
            final(self).wf(),
            final(bus).wf(),
            final(bus)@ == old(bus)@,
            writes(r, final(self)@, final(bus)@, old(self)@.add_sp(old(bus)@)),
    {
        reveal(CpuModel::add_sp);
        let address = self.relative_sp(bus)?;
        self.set_sp(address);
        Ok(())
    }

    pub fn ld_sp(&mut self, bus: &mut Bus) -> (r: Result<(), Fault>)
        requires
            old(self).wf(),
            old(bus).wf(),
        ensures
            final(self).wf(),
            final(bus).wf(),
            final(bus)@ == old(bus)@,
            writes(r, final(self)@, final(bus)@, old(self)@.ld_sp(old(bus)@)),
    {
        reveal(CpuModel::ld_sp);
        let address = self.relative_sp(bus)?;
        self.set_hl(address);
        Ok(())
    }

    pub fn cpl(&mut self)
        requires
            old(self).wf(),
        ensures
            final(self).wf(),
            final(self)@ == old(self)@.cpl(),
    {
        reveal(CpuModel::cpl);
        let a_value = self.a();
        self.set_a(!a_value);
        self.set_flag(Flag::Subtract);
        self.set_flag(Flag::HalfCarry);
    }

    pub fn ccf(&mut self)
        requires
            old(self).wf(),
        ensures
            final(self).wf(),
            final(self)@ == old(self)@.ccf(),
    {
        reveal(CpuModel::ccf);
        if self.test_flag(Flag::Carry) {
            self.clear_flag(Flag::Carry);
        } else {
            self.set_flag(Flag::Carry);
        }
        self.clear_flag(Flag::HalfCarry);
        self.clear_flag(Flag::Subtract);
    }

    pub fn scf(&mut self)
        requires
            old(self).wf(),
        ensures
            final(self).wf(),
            final(self)@ == old(self)@.scf(),
    {
        reveal(CpuModel::scf);
        self.set_flag(Flag::Carry);
        self.clear_flag(Flag::HalfCarry);
        self.clear_flag(Flag::Subtract);
    }

    pub fn inc(&mut self, bus: &mut Bus, register: ByteDescriptor) -> (r: Result<(), Fault>)
        requires
            old(self).wf(),
            old(bus).wf(),
        ensures
            final(self).wf(),
            final(bus).wf(),
            final(bus)@.devices.len() == old(bus)@.devices.len(),
            writes(r, final(self)@, final(bus)@, old(self)@.inc(old(bus)@, register)),
    {
        reveal(CpuModel::inc);
        let value = self.read_byte(bus, register)?;
        let result = after_byte(value);
        self.clear_flag(Flag::Subtract);
        self.set_flag_if(Flag::HalfCarry, value % 16 == 15);
        self.set_flag_if(Flag::Carry, value == 255);
        self.write_byte(bus, register, result)
    }

    pub fn inc_16(&mut self, bus: &mut Bus, register: WordDescriptor) -> (r: Result<(), Fault>)
        requires
            old(self).wf(),
            old(bus).wf(),
        ensures
            final(self).wf(),
            final(bus).wf(),
            final(bus)@.devices.len() == old(bus)@.devices.len(),
            writes(r, final(self)@, final(bus)@, old(self)@.inc_16(old(bus)@, register)),
    {
        reveal(CpuModel::inc_16);
        let value = self.read_word(bus, register)?;
        self.write_word(bus, register, address_after(value))
    }

    pub fn dec(&mut self, bus: &mut Bus, register: ByteDescriptor) -> (r: Result<(), Fault>)
        requires
            old(self).wf(),
            old(bus).wf(),
        ensures
            final(self).wf(),
            final(bus).wf(),
            final(bus)@.devices.len() == old(bus)@.devices.len(),
            writes(r, final(self)@, final(bus)@, old(self)@.dec(old(bus)@, register)),
    {
        reveal(CpuModel::dec);
        let value = self.read_byte(bus, register)?;
        let result = before_byte(value);
        self.set_flag(Flag::Subtract);
        self.set_flag_if(Flag::HalfCarry, value % 16 == 0);
        self.set_flag_if(Flag::Zero, result == 0);
        self.write_byte(bus, register, result)
    }

    pub fn dec_16(&mut self, bus: &mut Bus, register: WordDescriptor) -> (r: Result<(), Fault>)
        requires
            old(self).wf(),
            old(bus).wf(),
        ensures
            final(self).wf(),
            final(bus).wf(),
            final(bus)@.devices.len() == old(bus)@.devices.len(),
            writes(r, final(self)@, final(bus)@, old(self)@.dec_16(old(bus)@, register)),
    {
        reveal(CpuModel::dec_16);
        let value = self.read_word(bus, register)?;
        self.write_word(bus, register, crate::cpu::address_before(value))
    }

    pub fn and(&mut self, bus: &mut Bus, register: ByteDescriptor) -> (r: Result<(), Fault>)
        requires
            old(self).wf(),
            old(bus).wf(),
        ensures
            final(self).wf(),
            final(bus).wf(),
            final(bus)@ == old(bus)@,
            writes(r, final(self)@, final(bus)@, old(self)@.and(old(bus)@, register)),
    {
        reveal(CpuModel::and);
        let value = self.read_byte(bus, register)?;
        let result = self.a() & value;
        self.clear_all_flags();
        self.set_flag(Flag::HalfCarry);
        self.set_flag_if(Flag::Zero, result == 0);
        self.set_a(result);
        Ok(())
    }

    pub fn or(&mut self, bus: &mut Bus, register: ByteDescriptor) -> (r: Result<(), Fault>)
        requires
            old(self).wf(),
            old(bus).wf(),
        ensures
            final(self).wf(),
            final(bus).wf(),
            final(bus)@ == old(bus)@,
            writes(r, final(self)@, final(bus)@, old(self)@.or(old(bus)@, register)),
    {
        reveal(CpuModel::or);
        let value = self.read_byte(bus, register)?;
        let result = self.a() | value;
        self.clear_all_flags();
        self.set_flag_if(Flag::Zero, result == 0);
        self.set_a(result);
        Ok(())
    }

    pub fn xor(&mut self, bus: &mut Bus, register: ByteDescriptor) -> (r: Result<(), Fault>)
        requires
            old(self).wf(),
            old(bus).wf(),
        ensures
            final(self).wf(),
            final(bus).wf(),
            final(bus)@ == old(bus)@,
            writes(r, final(self)@, final(bus)@, old(self)@.xor(old(bus)@, register)),
    {
        reveal(CpuModel::xor);
        let value = self.read_byte(bus, register)?;
        let result = self.a() ^ value;
        self.clear_all_flags();
        self.set_flag_if(Flag::Zero, result == 0);
        self.set_a(result);
        Ok(())
    }

    pub fn rotate(
        &mut self,
        bus: &mut Bus,
        register: ByteDescriptor,
        direction: Direction,
        with_carry: bool,
        with_zero: bool,
    ) -> (r: Result<(), Fault>)
        requires
            old(self).wf(),
            old(bus).wf(),
        ensures
            final(self).wf(),
            final(bus).wf(),
            final(bus)@.devices.len() == old(bus)@.devices.len(),
            writes(
                r,
                final(self)@,
                final(bus)@,
                old(self)@.rotate(old(bus)@, register, direction, with_carry, with_zero),
            ),
    {
        reveal(CpuModel::rotate);
        let value = self.read_byte(bus, register)?;
        let (result, out) = rotate8(value, direction, with_carry, self.test_flag(Flag::Carry));
        self.clear_all_flags();
        self.set_flag_if(Flag::Carry, out);
        self.set_flag_if(Flag::Zero, with_zero && result == 0);
        self.write_byte(bus, register, result)
    }

    pub fn shift(&mut self, bus: &mut Bus, register: ByteDescriptor, direction: Direction, arithmetic_shift: bool) -> (r:
        Result<(), Fault>)
        requires
            old(self).wf(),
            old(bus).wf(),
        ensures
            final(self).wf(),
            final(bus).wf(),
            final(bus)@.devices.len() == old(bus)@.devices.len(),
            writes(
                r,
                final(self)@,
                final(bus)@,
                old(self)@.shift(old(bus)@, register, direction, arithmetic_shift),
            ),
    {
        reveal(CpuModel::shift);
        let value = self.read_byte(bus, register)?;
        let (result, out) = shift8(value, direction, arithmetic_shift);
        self.clear_all_flags();
        self.set_flag_if(Flag::Carry, out);
        self.set_flag_if(Flag::Zero, result == 0);
        self.write_byte(bus, register, result)
    }

    pub fn swap(&mut self, bus: &mut Bus, register: ByteDescriptor) -> (r: Result<(), Fault>)
        requires
            old(self).wf(),
            old(bus).wf(),
        ensures
            final(self).wf(),
            final(bus).wf(),
            final(bus)@.devices.len() == old(bus)@.devices.len(),
            writes(r, final(self)@, final(bus)@, old(self)@.swap(old(bus)@, register)),
    {
        reveal(CpuModel::swap);
        let a_value = self.a();
        let value = self.read_byte(bus, register)?;
        self.clear_all_flags();
        self.set_flag_if(Flag::Zero, value == 0);
        self.set_a(value);
        self.write_byte(bus, register, a_value)
    }

    pub fn test_bit(&mut self, bus: &mut Bus, register: ByteDescriptor, bit: u8) -> (r: Result<(), Fault>)
        requires
            old(self).wf(),
            old(bus).wf(),
            bit < 8,
        ensures
            final(self).wf(),
            final(bus).wf(),
            final(bus)@ == old(bus)@,
            writes(r, final(self)@, final(bus)@, old(self)@.test_bit(old(bus)@, register, bit)),
    {
        reveal(CpuModel::test_bit);
        let value = self.read_byte(bus, register)? & mask_of(bit);
        self.clear_flag(Flag::Subtract);
        self.set_flag(Flag::HalfCarry);
        self.set_flag_if(Flag::Zero, value == 0);
        Ok(())
    }

    pub fn set_bit(&mut self, bus: &mut Bus, register: ByteDescriptor, bit: u8) -> (r: Result<(), Fault>)
        requires
            old(self).wf(),
            old(bus).wf(),
            bit < 8,
        ensures
            final(self).wf(),
            final(bus).wf(),
            final(bus)@.devices.len() == old(bus)@.devices.len(),
            writes(r, final(self)@, final(bus)@, old(self)@.set_bit(old(bus)@, register, bit)),
    {
        reveal(CpuModel::set_bit);
        let value = self.read_byte(bus, register)? | mask_of(bit);
        self.write_byte(bus, register, value)
    }

    pub fn clear_bit(&mut self, bus: &mut Bus, register: ByteDescriptor, bit: u8) -> (r: Result<(), Fault>)
        requires
            old(self).wf(),
            old(bus).wf(),
            bit < 8,
        ensures
            final(self).wf(),
            final(bus).wf(),
            final(bus)@.devices.len() == old(bus)@.devices.len(),
            writes(r, final(self)@, final(bus)@, old(self)@.clear_bit(old(bus)@, register, bit)),
    {
        reveal(CpuModel::clear_bit);
        let value = self.read_byte(bus, register)? & !mask_of(bit);
        self.write_byte(bus, register, value)
    }

    pub fn daa(&mut self)
        requires
            old(self).wf(),
        ensures
            final(self).wf(),
            final(self)@ == old(self)@.daa(),
    {
        reveal(CpuModel::daa);
        let (value, carry) = daa8(
            self.a(),
            self.test_flag(Flag::Subtract),
            self.test_flag(Flag::HalfCarry),
            self.test_flag(Flag::Carry),
        );
        self.set_flag_if(Flag::Carry, carry);
        self.set_flag_if(Flag::Zero, value == 0);
        self.clear_flag(Flag::HalfCarry);
        self.set_a(value);
    }
}


/// The outcome of an operation that is no branch.
pub open spec fn straight(o: Outcome<()>) -> Outcome<bool> {
    valued(o, false)
}

/// The outcome of an instruction with its cost: that of the taken branch
/// where a branch was taken.
pub open spec fn costed(o: Outcome<bool>, entry: Entry) -> Outcome<u8> {
    Outcome {
        cpu: o.cpu,
        bus: o.bus,
        result: match o.result {
            Ok(taken) => Ok(
                if taken {
                    entry.taken
                } else {
                    entry.cycles
                },
            ),
            Err(f) => Err(f),
        },
    }
}

/// The outcome of an instruction after the prefix, with the cycle that the
/// prefix itself costs.
pub open spec fn prefixed(o: Outcome<u8>) -> Outcome<u8> {
    Outcome {
        cpu: o.cpu,
        bus: o.bus,
        result: match o.result {
            Ok(cycles) => Ok((cycles + 1) as u8),
            Err(f) => Err(f),
        },
    }
}

impl CpuModel {
    /// What an operation does; the result says whether it was a conditional
    /// branch that was taken.
    ///
    /// A halt stops the CPU only while no interrupt that is enabled is
    /// pending.
    #[verifier::opaque]
    pub open spec fn execute(self, bus: BusModel, op: Operation) -> Outcome<bool> {
        match op {
            Operation::Nop => done(self, bus, false),
            Operation::Prefix => done(self, bus, false),
            Operation::Halt => done(CpuModel { halted: bus.interrupts.pending() == 0, ..self }, bus, false),
            Operation::DisableInterrupts => done(self, bus.with_master_enable(false), false),
            Operation::EnableInterrupts => done(self, bus.with_master_enable(true), false),
            Operation::JumpHl => done(CpuModel { pc: self.hl(), ..self }, bus, false),
            Operation::Ld(dest, src) => straight(self.ld(bus, dest, src)),
            Operation::Ld16(dest, src) => straight(self.ld_16(bus, dest, src)),
            Operation::Jp(condition) => self.jp(bus, condition),
            Operation::Jr(condition) => self.jr(bus, condition),
            Operation::Call(condition) => self.call(bus, condition),
            Operation::Ret(condition) => self.ret(bus, condition),
            Operation::Rst(address) => straight(self.rst(bus, address)),
            Operation::Push(src) => straight(self.push(bus, src)),
            Operation::Pop(dest) => straight(self.pop(bus, dest)),
            Operation::Add(r, with_carry) => straight(self.add(bus, r, with_carry)),
            Operation::Sub(r, with_carry) => straight(self.sub(bus, r, with_carry)),
            Operation::And(r) => straight(self.and(bus, r)),
            Operation::Or(r) => straight(self.or(bus, r)),
            Operation::Xor(r) => straight(self.xor(bus, r)),
            Operation::Cp(r) => straight(self.cp(bus, r)),
            Operation::Add16(r) => straight(self.add_16(bus, r)),
            Operation::AddSp => straight(self.add_sp(bus)),
            Operation::LdSp => straight(self.ld_sp(bus)),
            Operation::Inc(r) => straight(self.inc(bus, r)),
            Operation::Dec(r) => straight(self.dec(bus, r)),
            Operation::Inc16(r) => straight(self.inc_16(bus, r)),
            Operation::Dec16(r) => straight(self.dec_16(bus, r)),
            Operation::Cpl => done(self.cpl(), bus, false),
            Operation::Ccf => done(self.ccf(), bus, false),
            Operation::Scf => done(self.scf(), bus, false),
            Operation::Daa => done(self.daa(), bus, false),
            Operation::Rotate(r, direction, with_carry, with_zero) => straight(
                self.rotate(bus, r, direction, with_carry, with_zero),
            ),
            Operation::Shift(r, direction, arithmetic_shift) => straight(
                self.shift(bus, r, direction, arithmetic_shift),
            ),
            Operation::Swap(r) => straight(self.swap(bus, r)),
            Operation::TestBit(r, bit) => straight(self.test_bit(bus, r, bit)),
            Operation::SetBit(r, bit) => straight(self.set_bit(bus, r, bit)),
            Operation::ClearBit(r, bit) => straight(self.clear_bit(bus, r, bit)),
        }
    }

    /// Fetches the opcode after the prefix and runs its instruction. The
    /// result is the cost that the second table gives; the prefix's own
    /// cycle is not in it.
    pub open spec fn cb(self, bus: BusModel) -> Outcome<u8> {
        match self.fetch(bus) {
            (cpu, Ok(opcode)) => costed(cpu.execute(bus, decode_cb_spec(opcode).op), decode_cb_spec(opcode)),
            (cpu, Err(f)) => failed(cpu, bus, f),
        }
    }

    /// Fetches the opcode at the program counter and runs its instruction.
    /// The result is the cost in machine cycles; an instruction after the
    /// prefix costs one more than the second table says. An opcode that is
    /// no instruction is a fault that names it and its address: the program
    /// counter has moved past the opcode, and nothing else has changed.
    pub open spec fn step_instruction(self, bus: BusModel) -> Outcome<u8> {
        match self.fetch(bus) {
            (cpu, Ok(opcode)) => match decode_spec(opcode) {
                Some(entry) => if entry.op is Prefix {
                    prefixed(cpu.cb(bus))
                } else {
                    costed(cpu.execute(bus, entry.op), entry)
                },
                None => failed(cpu, bus, Fault::IllegalOpcode(opcode, self.pc)),
            },
            (cpu, Err(f)) => failed(cpu, bus, f),
        }
    }

    /// One step of the CPU. With interrupts switched on and one pending, it
    /// takes the one of the highest priority: the source's flag and the
    /// master enable are cleared, the program counter is pushed, and the
    /// CPU jumps to the source's vector, all for 5 cycles. Else it runs one
    /// instruction.
    pub open spec fn step(self, bus: BusModel) -> Outcome<u8> {
        if !bus.interrupts.master_enable {
            self.step_instruction(bus)
        } else {
            match bus.interrupts.next() {
                Some(source) => valued(
                    self.rst(BusModel { interrupts: bus.interrupts.acknowledged(source), ..bus }, source.vector()),
                    5u8,
                ),
                None => self.step_instruction(bus),
            }
        }
    }
}

impl CPU {
    /// Carries out a jump, a call, a return, a stack operation or a change of the
    /// CPU's mode.
    fn execute_flow(&mut self, bus: &mut Bus, op: Operation) -> (r: Result<bool, Fault>)
        requires
            old(self).wf(),
            old(bus).wf(),
            op.wf(),
            op.is_flow(),
        ensures
            final(self).wf(),
            final(bus).wf(),
            final(bus)@.devices.len() == old(bus)@.devices.len(),
            yields(r, final(self)@, final(bus)@, old(self)@.execute(old(bus)@, op)),
    {
        reveal(CpuModel::execute);
        match op {
            Operation::Nop => Ok(false),
            Operation::Prefix => Ok(false),
            Operation::Halt => {
                let pending = bus.interrupts().pending_bits();
                self.set_halted(pending == 0);
                Ok(false)
            },
            Operation::DisableInterrupts => {
                set_master_enable(bus, false);
                Ok(false)
            },
            Operation::EnableInterrupts => {
                set_master_enable(bus, true);
                Ok(false)
            },
            Operation::JumpHl => {
                let target = self.hl();
                self.set_pc(target);
                Ok(false)
            },
            Operation::Jp(condition) => self.jp(bus, condition),
            Operation::Jr(condition) => self.jr(bus, condition),
            Operation::Call(condition) => self.call(bus, condition),
            Operation::Ret(condition) => self.ret(bus, condition),
            Operation::Rst(address) => {
                self.rst(bus, address)?;
                Ok(false)
            },
            Operation::Push(src) => {
                self.push(bus, src)?;
                Ok(false)
            },
            Operation::Pop(dest) => {
                self.pop(bus, dest)?;
                Ok(false)
            },
            _ => Ok(false),
        }
    }

    /// Carries out a load, an increment, a decrement or a 16-bit addition.
    fn execute_moves(&mut self, bus: &mut Bus, op: Operation) -> (r: Result<bool, Fault>)
        requires
            old(self).wf(),
            old(bus).wf(),
            op.wf(),
            op.is_moves(),
        ensures
            final(self).wf(),
            final(bus).wf(),
            final(bus)@.devices.len() == old(bus)@.devices.len(),
            yields(r, final(self)@, final(bus)@, old(self)@.execute(old(bus)@, op)),
    {
        reveal(CpuModel::execute);
        match op {
            Operation::Ld(dest, src) => {
                self.ld(bus, dest, src)?;
                Ok(false)
            },
            Operation::Ld16(dest, src) => {
                self.ld_16(bus, dest, src)?;
                Ok(false)
            },
            Operation::Add16(r) => {
                self.add_16(bus, r)?;
                Ok(false)
            },
            Operation::AddSp => {
                self.add_sp(bus)?;
                Ok(false)
            },
            Operation::LdSp => {
                self.ld_sp(bus)?;
                Ok(false)
            },
            Operation::Inc16(r) => {
                self.inc_16(bus, r)?;
                Ok(false)
            },
            Operation::Dec16(r) => {
                self.dec_16(bus, r)?;
                Ok(false)
            },
            Operation::Inc(r) => {
                self.inc(bus, r)?;
                Ok(false)
            },
            Operation::Dec(r) => {
                self.dec(bus, r)?;
                Ok(false)
            },
            _ => Ok(false),
        }
    }

    /// Carries out an operation of the accumulator.
    fn execute_arithmetic(&mut self, bus: &mut Bus, op: Operation) -> (r: Result<bool, Fault>)
        requires
            old(self).wf(),
            old(bus).wf(),
            op.wf(),
            op.is_arithmetic(),
        ensures
            final(self).wf(),
            final(bus).wf(),
            final(bus)@.devices.len() == old(bus)@.devices.len(),
            yields(r, final(self)@, final(bus)@, old(self)@.execute(old(bus)@, op)),
    {
        reveal(CpuModel::execute);
        match op {
            Operation::Add(r, with_carry) => {
                self.add(bus, r, with_carry)?;
                Ok(false)
            },
            Operation::Sub(r, with_carry) => {
                self.sub(bus, r, with_carry)?;
                Ok(false)
            },
            Operation::And(r) => {
                self.and(bus, r)?;
                Ok(false)
            },
            Operation::Or(r) => {
                self.or(bus, r)?;
                Ok(false)
            },
            Operation::Xor(r) => {
                self.xor(bus, r)?;
                Ok(false)
            },
            Operation::Cp(r) => {
                self.cp(bus, r)?;
                Ok(false)
            },
            Operation::Cpl => {
                self.cpl();
                Ok(false)
            },
            Operation::Ccf => {
                self.ccf();
                Ok(false)
            },
            Operation::Scf => {
                self.scf();
                Ok(false)
            },
            Operation::Daa => {
                self.daa();
                Ok(false)
            },
            _ => Ok(false),
        }
    }

    /// Carries out a rotation, a shift, an exchange or an operation on one bit.
    fn execute_bits(&mut self, bus: &mut Bus, op: Operation) -> (r: Result<bool, Fault>)
        requires
            old(self).wf(),
            old(bus).wf(),
            op.wf(),
            op.is_bits(),
        ensures
            final(self).wf(),
            final(bus).wf(),
            final(bus)@.devices.len() == old(bus)@.devices.len(),
            yields(r, final(self)@, final(bus)@, old(self)@.execute(old(bus)@, op)),
    {
        reveal(CpuModel::execute);
        match op {
            Operation::Rotate(r, direction, with_carry, with_zero) => {
                self.rotate(bus, r, direction, with_carry, with_zero)?;
                Ok(false)
            },
            Operation::Shift(r, direction, arithmetic_shift) => {
                self.shift(bus, r, direction, arithmetic_shift)?;
                Ok(false)
            },
            Operation::Swap(r) => {
                self.swap(bus, r)?;
                Ok(false)
            },
            Operation::TestBit(r, bit) => {
                self.test_bit(bus, r, bit)?;
                Ok(false)
            },
            Operation::SetBit(r, bit) => {
                self.set_bit(bus, r, bit)?;
                Ok(false)
            },
            Operation::ClearBit(r, bit) => {
                self.clear_bit(bus, r, bit)?;
                Ok(false)
            },
            _ => Ok(false),
        }
    }

    /// Carries out one operation.
    pub fn execute(&mut self, bus: &mut Bus, op: Operation) -> (r: Result<bool, Fault>)
        requires
            old(self).wf(),
            old(bus).wf(),
            op.wf(),
        ensures
            final(self).wf(),
            final(bus).wf(),
            final(bus)@.devices.len() == old(bus)@.devices.len(),
            yields(r, final(self)@, final(bus)@, old(self)@.execute(old(bus)@, op)),
    {
        match op {
            Operation::Nop | Operation::Prefix | Operation::Halt | Operation::DisableInterrupts | Operation::EnableInterrupts | Operation::JumpHl | Operation::Jp(..) | Operation::Jr(..) | Operation::Call(..) | Operation::Ret(..) | Operation::Rst(..) | Operation::Push(..) | Operation::Pop(..) => self.execute_flow(bus, op),
            Operation::Ld(..) | Operation::Ld16(..) | Operation::Add16(..) | Operation::AddSp | Operation::LdSp | Operation::Inc16(..) | Operation::Dec16(..) | Operation::Inc(..) | Operation::Dec(..) => self.execute_moves(bus, op),
            Operation::Add(..) | Operation::Sub(..) | Operation::And(..) | Operation::Or(..) | Operation::Xor(..) | Operation::Cp(..) | Operation::Cpl | Operation::Ccf | Operation::Scf | Operation::Daa => self.execute_arithmetic(bus, op),
            Operation::Rotate(..) | Operation::Shift(..) | Operation::Swap(..) | Operation::TestBit(..) | Operation::SetBit(..) | Operation::ClearBit(..) => self.execute_bits(bus, op),
        }
    }

    /// Runs the instruction that follows the prefix `0xCB`, and returns the
    /// cost that its table gives.
    pub fn cb(&mut self, bus: &mut Bus) -> (r: Result<u8, Fault>)
        requires
            old(self).wf(),
            old(bus).wf(),
        ensures
            final(self).wf(),
            final(bus).wf(),
            final(bus)@.devices.len() == old(bus)@.devices.len(),
            yields(r, final(self)@, final(bus)@, old(self)@.cb(old(bus)@)),
            r matches Ok(cycles) ==> cycles <= 4,
    {
        let opcode = self.read_byte(bus, ByteDescriptor::Immediate)?;
        let entry = decode_cb(opcode);
        let taken = self.execute(bus, entry.op)?;
        Ok(if taken {
            entry.taken
        } else {
            entry.cycles
        })
    }

    /// Runs the instruction at the program counter and returns its cost in
    /// machine cycles.
    pub fn step_instruction(&mut self, bus: &mut Bus) -> (r: Result<u8, Fault>)
        requires
            old(self).wf(),
            old(bus).wf(),
        ensures
            final(self).wf(),
            final(bus).wf(),
            final(bus)@.devices.len() == old(bus)@.devices.len(),
            yields(r, final(self)@, final(bus)@, old(self)@.step_instruction(old(bus)@)),
    {
        let address = self.pc();
        let opcode = self.read_byte(bus, ByteDescriptor::Immediate)?;
        match decode(opcode) {
            None => Err(Fault::IllegalOpcode(opcode, address)),
            Some(entry) => match entry.op {
                Operation::Prefix => {
                    let cycles = self.cb(bus)?;
                    Ok(cycles + 1)
                },
                op => {
                    let taken = self.execute(bus, op)?;
                    Ok(if taken {
                        entry.taken
                    } else {
                        entry.cycles
                    })
                },
            },
        }
    }

    /// Takes the pending interrupt of the highest priority, if interrupts
    /// are switched on and there is one; else runs one instruction. Returns
    /// the cost in machine cycles.
    pub fn step(&mut self, bus: &mut Bus) -> (r: Result<u8, Fault>)
        requires
            old(self).wf(),
            old(bus).wf(),
        ensures
            final(self).wf(),
            final(bus).wf(),
            final(bus)@.devices.len() == old(bus)@.devices.len(),
            yields(r, final(self)@, final(bus)@, old(self)@.step(old(bus)@)),
    {
        let mut registers = bus.interrupts();
        if registers.master_enable {
            match registers.highest() {
                Some(source) => {
                    registers.acknowledge(source);
                    bus.set_interrupts(registers);
                    self.rst(bus, source.address())?;
                    return Ok(5);
                },
                None => {},
            }
        }
        self.step_instruction(bus)
    }
}


impl CpuModel {
    /// Whether the next step runs an instruction rather than taking an
    /// interrupt.
    pub open spec fn undisturbed(self, bus: BusModel) -> bool {
        !bus.interrupts.master_enable || bus.interrupts.next() is None
    }

    /// The CPU with a register pair, or for the fourth the stack pointer,
    /// set to a word.
    pub open spec fn with_pair(self, index: int, value: Word) -> CpuModel {
        if index == 0 {
            self.with_bc(value)
        } else if index == 1 {
            self.with_de(value)
        } else if index == 2 {
            self.with_hl(value)
        } else {
            CpuModel { sp: value, ..self }
        }
    }

    /// The CPU with its program counter at an address.
    pub open spec fn at(self, pc: Word) -> CpuModel {
        CpuModel { pc, ..self }
    }

    /// A register pair, or for the fourth the stack pointer.
    pub open spec fn pair(self, index: int) -> Word {
        if index == 0 {
            self.bc()
        } else if index == 1 {
            self.de()
        } else if index == 2 {
            self.hl()
        } else {
            self.sp
        }
    }

    /// A step at one of the opcodes `0x01`, `0x11`, `0x21` and `0x31` puts
    /// the word that follows the opcode into BC, DE, HL or the stack
    /// pointer, moves the program counter on by three, costs three cycles
    /// and changes nothing else.
    pub proof fn law_load_immediate_word(self, bus: BusModel, index: int, value: Word)
        requires
            0 <= index < 4,
            self.undisturbed(bus),
            bus.read_byte(self.pc) == Ok::<Byte, Fault>((0x01 + 0x10 * index) as u8),
            bus.read_word(next_address(self.pc)) == Ok::<Word, Fault>(value),
        ensures
            self.step(bus) == done(
                self.at(next_address(next_address(next_address(self.pc)))).with_pair(index, value),
                bus,
                3u8,
            ),
            self.at(next_address(next_address(next_address(self.pc)))).with_pair(index, value).pair(index) == value,
    {
        reveal(CpuModel::execute);
        reveal(CpuModel::ld_16);
        let opcode = (0x01 + 0x10 * index) as u8;
        let fetched = self.at(next_address(self.pc));
        let read = fetched.at(next_address(next_address(fetched.pc)));
        let target = crate::cpu::opcodes::pair(index);
        assert(self.fetch(bus) == (fetched, Ok::<u8, Fault>(opcode)));
        assert(decode_spec(opcode) == crate::cpu::opcodes::flat(
            Operation::Ld16(target, WordDescriptor::Immediate),
            3,
        ));
        assert(fetched.read_word(bus, WordDescriptor::Immediate) == (read, Ok::<u16, Fault>(value)));
        assert(read.write_word(bus, target, value) == done(read.with_pair(index, value), bus, ()));
        assert(fetched.ld_16(bus, target, WordDescriptor::Immediate) == done(read.with_pair(index, value), bus, ()));
        assert(self.step_instruction(bus) == done(read.with_pair(index, value), bus, 3u8));
    }

    /// A step at one of the opcodes `0x02` and `0x12`, with BC or DE holding
    /// an address of work RAM, writes the accumulator to that address: it is
    /// read back from there afterwards. The step costs two cycles.
    pub proof fn law_store_through_pair(self, bus: BusModel, index: int, handle: usize)
        requires
            index == 0 || index == 1,
            bus.wf(),
            self.undisturbed(bus),
            bus.read_byte(self.pc) == Ok::<Byte, Fault>((0x02 + 0x10 * index) as u8),
            0xC000 <= self.pair(index) <= 0xFDFF,
            bus.route(self.pair(index)) == Target::Device(handle),
            bus.devices[handle as int] is Ram,
        ensures
            self.step(bus).result == Ok::<u8, Fault>(2u8),
            self.step(bus).bus.read_byte(self.pair(index)) == Ok::<Byte, Fault>(self.a),
            self.step(bus).cpu == self.at(next_address(self.pc)),
    {
        reveal(CpuModel::execute);
        reveal(CpuModel::ld);
        bus.law_ram_keeps(self.pair(index), self.a, handle);
        let fetched = self.at(next_address(self.pc));
        let address = self.pair(index);
        let written = bus.write_byte(address, self.a)->Ok_0;
        assert(self.fetch(bus) == (fetched, Ok::<u8, Fault>((0x02 + 0x10 * index) as u8)));
        assert(fetched.store(bus, address, self.a) == done(fetched, written, ()));
        assert(self.step_instruction(bus) == done(fetched, written, 2u8));
    }

    /// A step at an opcode that is no instruction ends in the fault that
    /// names the opcode and its address. The program counter has moved
    /// past the opcode; no other register and nothing on the bus has
    /// changed.
    pub proof fn law_illegal_opcode(self, bus: BusModel, opcode: u8)
        requires
            self.undisturbed(bus),
            bus.read_byte(self.pc) == Ok::<Byte, Fault>(opcode),
            decode_spec(opcode) is None,
        ensures
            self.step(bus) == failed::<u8>(self.at(next_address(self.pc)), bus, Fault::IllegalOpcode(opcode, self.pc)),
    {
    }

    /// Adding a register other than the accumulator to the accumulator and
    /// then taking it away again gives the accumulator back.
    pub proof fn law_add_then_sub(self, bus: BusModel, register: ByteDescriptor)
        requires
            register == ByteDescriptor::B || register == ByteDescriptor::C || register == ByteDescriptor::D
                || register == ByteDescriptor::E || register == ByteDescriptor::H || register
                == ByteDescriptor::L,
        ensures
            self.add(bus, register, false).result is Ok,
            self.add(bus, register, false).bus == bus,
            self.add(bus, register, false).cpu.sub(bus, register, false).result is Ok,
            self.add(bus, register, false).cpu.sub(bus, register, false).bus == bus,
            self.add(bus, register, false).cpu.sub(bus, register, false).cpu.a == self.a,
    {
        reveal(CpuModel::add);
        reveal(CpuModel::sub);
        let v = self.read_byte(bus, register).1->Ok_0;
        crate::cpu::alu::law_add_sub_round_trip(self.a, v);
    }
}

} // verus!
