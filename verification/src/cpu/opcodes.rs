//! The two opcode tables: for each opcode, the operation it stands for and
//! what it costs.

use vstd::prelude::*;
use crate::bus::Address;
use crate::cpu::flag::Flag;
use crate::cpu::{ByteDescriptor, Direction, WordDescriptor};

verus! {

/// The flag that a conditional instruction tests, and the value that it
/// must have; `None` for an unconditional instruction.
pub type Condition = Option<(Flag, bool)>;

/// What an instruction does, with its operands.
#[derive(Clone, Copy, Debug)]
pub enum Operation {
    Nop,
    Halt,
    DisableInterrupts,
    EnableInterrupts,
    /// Jumps to the address in HL.
    JumpHl,
    /// Hands over to the second table.
    Prefix,
    Ld(ByteDescriptor, ByteDescriptor),
    Ld16(WordDescriptor, WordDescriptor),
    Jp(Condition),
    Jr(Condition),
    Call(Condition),
    Ret(Condition),
    Rst(Address),
    Push(WordDescriptor),
    Pop(WordDescriptor),
    Add(ByteDescriptor, bool),
    Sub(ByteDescriptor, bool),
    And(ByteDescriptor),
    Or(ByteDescriptor),
    Xor(ByteDescriptor),
    Cp(ByteDescriptor),
    Add16(WordDescriptor),
    AddSp,
    LdSp,
    Inc(ByteDescriptor),
    Dec(ByteDescriptor),
    Inc16(WordDescriptor),
    Dec16(WordDescriptor),
    Cpl,
    Ccf,
    Scf,
    Daa,
    Rotate(ByteDescriptor, Direction, bool, bool),
    Shift(ByteDescriptor, Direction, bool),
    Swap(ByteDescriptor),
    TestBit(ByteDescriptor, u8),
    SetBit(ByteDescriptor, u8),
    ClearBit(ByteDescriptor, u8),
}

impl Operation {
    /// Whether the operation is one of the group of flow.
    pub open spec fn is_flow(self) -> bool {
        self is Nop || self is Prefix || self is Halt || self is DisableInterrupts || self is EnableInterrupts || self is JumpHl || self is Jp || self is Jr || self is Call || self is Ret || self is Rst || self is Push || self is Pop
    }

    /// Whether the operation is one of the group of moves.
    pub open spec fn is_moves(self) -> bool {
        self is Ld || self is Ld16 || self is Add16 || self is AddSp || self is LdSp || self is Inc16 || self is Dec16 || self is Inc || self is Dec
    }

    /// Whether the operation is one of the group of arithmetic.
    pub open spec fn is_arithmetic(self) -> bool {
        self is Add || self is Sub || self is And || self is Or || self is Xor || self is Cp || self is Cpl || self is Ccf || self is Scf || self is Daa
    }

    /// Whether the operation is one of the group of bits.
    pub open spec fn is_bits(self) -> bool {
        self is Rotate || self is Shift || self is Swap || self is TestBit || self is SetBit || self is ClearBit
    }

    /// An operation on one bit names a bit that a byte has.
    pub open spec fn wf(self) -> bool {
        match self {
            Operation::TestBit(_, bit) => bit < 8,
            Operation::SetBit(_, bit) => bit < 8,
            Operation::ClearBit(_, bit) => bit < 8,
            _ => true,
        }
    }
}

/// An entry of an opcode table: the operation, what it costs in machine
/// cycles, and what it costs when it is a conditional branch that is taken.
#[derive(Clone, Copy, Debug)]
pub struct Entry {
    pub op: Operation,
    pub cycles: u8,
    pub taken: u8,
}

/// An entry for an operation that costs the same whatever happens.
pub open spec fn flat(op: Operation, cycles: u8) -> Option<Entry> {
    Some(Entry { op, cycles, taken: cycles })
}

/// The operand that three bits of an opcode select.
pub open spec fn operand(index: int) -> ByteDescriptor {
    if index == 0 {
        ByteDescriptor::B
    } else if index == 1 {
        ByteDescriptor::C
    } else if index == 2 {
        ByteDescriptor::D
    } else if index == 3 {
        ByteDescriptor::E
    } else if index == 4 {
        ByteDescriptor::H
    } else if index == 5 {
        ByteDescriptor::L
    } else if index == 6 {
        ByteDescriptor::HL
    } else {
        ByteDescriptor::A
    }
}

/// The register pair that two bits of an opcode select, with the stack
/// pointer as the fourth.
pub open spec fn pair(index: int) -> WordDescriptor {
    if index == 0 {
        WordDescriptor::BC
    } else if index == 1 {
        WordDescriptor::DE
    } else if index == 2 {
        WordDescriptor::HL
    } else {
        WordDescriptor::SP
    }
}

/// The register pair that two bits of a push or pop select, with AF as the
/// fourth.
pub open spec fn stacked(index: int) -> WordDescriptor {
    if index == 3 {
        WordDescriptor::AF
    } else {
        pair(index)
    }
}

/// The pointer that two bits of a load through a register pair select.
pub open spec fn pointer(index: int) -> ByteDescriptor {
    if index == 0 {
        ByteDescriptor::BC
    } else if index == 1 {
        ByteDescriptor::DE
    } else if index == 2 {
        ByteDescriptor::HLi
    } else {
        ByteDescriptor::HLd
    }
}

/// The condition that two bits of an opcode select: not zero, zero, no
/// carry, carry.
pub open spec fn condition(index: int) -> Condition {
    if index == 0 {
        Some((Flag::Zero, false))
    } else if index == 1 {
        Some((Flag::Zero, true))
    } else if index == 2 {
        Some((Flag::Carry, false))
    } else {
        Some((Flag::Carry, true))
    }
}

/// The arithmetic or logic operation that three bits of an opcode select.
pub open spec fn arithmetic(index: int, r: ByteDescriptor) -> Operation {
    if index == 0 {
        Operation::Add(r, false)
    } else if index == 1 {
        Operation::Add(r, true)
    } else if index == 2 {
        Operation::Sub(r, false)
    } else if index == 3 {
        Operation::Sub(r, true)
    } else if index == 4 {
        Operation::And(r)
    } else if index == 5 {
        Operation::Xor(r)
    } else if index == 6 {
        Operation::Or(r)
    } else {
        Operation::Cp(r)
    }
}

/// The first quarter of the table, `0x00..=0x3F`, by the low three bits of
/// the opcode and the three above them. `0x10` is no instruction.
pub open spec fn decode_low(row: int, column: int) -> Option<Entry> {
    if column == 0 {
        if row == 0 {
            flat(Operation::Nop, 1)
        } else if row == 1 {
            flat(Operation::Ld16(WordDescriptor::Indirect, WordDescriptor::SP), 5)
        } else if row == 2 {
            None
        } else if row == 3 {
            flat(Operation::Jr(None), 3)
        } else {
            Some(Entry { op: Operation::Jr(condition(row - 4)), cycles: 2, taken: 3 })
        }
    } else if column == 1 {
        if row % 2 == 0 {
            flat(Operation::Ld16(pair(row / 2), WordDescriptor::Immediate), 3)
        } else {
            flat(Operation::Add16(pair(row / 2)), 2)
        }
    } else if column == 2 {
        if row % 2 == 0 {
            flat(Operation::Ld(pointer(row / 2), ByteDescriptor::A), 2)
        } else {
            flat(Operation::Ld(ByteDescriptor::A, pointer(row / 2)), 2)
        }
    } else if column == 3 {
        if row % 2 == 0 {
            flat(Operation::Inc16(pair(row / 2)), 2)
        } else {
            flat(Operation::Dec16(pair(row / 2)), 2)
        }
    } else if column == 4 {
        flat(Operation::Inc(operand(row)), 1)
    } else if column == 5 {
        flat(Operation::Dec(operand(row)), 1)
    } else if column == 6 {
        flat(Operation::Ld(operand(row), ByteDescriptor::Immediate), 2)
    } else {
        if row == 0 {
            flat(Operation::Rotate(ByteDescriptor::A, Direction::Left, true, false), 1)
        } else if row == 1 {
            flat(Operation::Rotate(ByteDescriptor::A, Direction::Right, true, false), 1)
        } else if row == 2 {
            flat(Operation::Rotate(ByteDescriptor::A, Direction::Left, false, false), 1)
        } else if row == 3 {
            flat(Operation::Rotate(ByteDescriptor::A, Direction::Right, false, false), 1)
        } else if row == 4 {
            flat(Operation::Daa, 1)
        } else if row == 5 {
            flat(Operation::Cpl, 1)
        } else if row == 6 {
            flat(Operation::Scf, 1)
        } else {
            flat(Operation::Ccf, 1)
        }
    }
}

/// The last quarter of the table, `0xC0..=0xFF`, by the low three bits of
/// the opcode and the three above them. Both `0xC9` and `0xD9` are plain
/// returns, and the restart at `0xF7` shares its target with the one at
/// `0xE7`.
pub open spec fn decode_high(row: int, column: int) -> Option<Entry> {
    if column == 0 {
        if row < 4 {
            Some(Entry { op: Operation::Ret(condition(row)), cycles: 2, taken: 4 })
        } else if row == 4 {
            flat(Operation::Ld(ByteDescriptor::HighAddress, ByteDescriptor::A), 3)
        } else if row == 5 {
            flat(Operation::AddSp, 4)
        } else if row == 6 {
            flat(Operation::Ld(ByteDescriptor::A, ByteDescriptor::HighAddress), 3)
        } else {
            flat(Operation::LdSp, 3)
        }
    } else if column == 1 {
        if row % 2 == 0 {
            flat(Operation::Pop(stacked(row / 2)), 3)
        } else if row == 1 || row == 3 {
            flat(Operation::Ret(None), 4)
        } else if row == 5 {
            flat(Operation::JumpHl, 1)
        } else {
            flat(Operation::Ld16(WordDescriptor::SP, WordDescriptor::HL), 2)
        }
    } else if column == 2 {
        if row < 4 {
            Some(Entry { op: Operation::Jp(condition(row)), cycles: 3, taken: 4 })
        } else if row == 4 {
            flat(Operation::Ld(ByteDescriptor::HighAddressC, ByteDescriptor::A), 2)
        } else if row == 5 {
            flat(Operation::Ld(ByteDescriptor::Indirect, ByteDescriptor::A), 4)
        } else if row == 6 {
            flat(Operation::Ld(ByteDescriptor::A, ByteDescriptor::HighAddressC), 2)
        } else {
            flat(Operation::Ld(ByteDescriptor::A, ByteDescriptor::Indirect), 4)
        }
    } else if column == 3 {
        if row == 0 {
            flat(Operation::Jp(None), 4)
        } else if row == 1 {
            flat(Operation::Prefix, 1)
        } else if row == 6 {
            flat(Operation::DisableInterrupts, 1)
        } else if row == 7 {
            flat(Operation::EnableInterrupts, 1)
        } else {
            None
        }
    } else if column == 4 {
        if row < 4 {
            Some(Entry { op: Operation::Call(condition(row)), cycles: 3, taken: 6 })
        } else {
            None
        }
    } else if column == 5 {
        if row % 2 == 0 {
            flat(Operation::Push(stacked(row / 2)), 4)
        } else if row == 1 {
            flat(Operation::Call(None), 6)
        } else {
            None
        }
    } else if column == 6 {
        flat(arithmetic(row, ByteDescriptor::Immediate), 2)
    } else {
        if row == 6 {
            flat(Operation::Rst(0x20), 4)
        } else {
            flat(Operation::Rst((row * 8) as Address), 4)
        }
    }
}

/// The table of the opcodes without a prefix, by the structure of the
/// opcode. `None` stands for an opcode that is not an instruction.
///
/// In the two middle quarters the low three bits select the operand; an
/// instruction that reads its operand through HL costs a cycle more.
pub open spec fn decode_spec(opcode: u8) -> Option<Entry> {
    let row = (opcode / 8) % 8;
    let column = opcode % 8;
    if opcode < 0x40 {
        decode_low(row as int, column as int)
    } else if opcode == 0x76 {
        flat(Operation::Halt, 1)
    } else if opcode < 0x80 {
        flat(Operation::Ld(operand(row as int), operand(column as int)), if column == 6 {
            2
        } else {
            1
        })
    } else if opcode < 0xC0 {
        flat(arithmetic(row as int, operand(column as int)), if column == 6 {
            2
        } else {
            1
        })
    } else {
        decode_high(row as int, column as int)
    }
}

/// The table of the opcodes after the prefix `0xCB`, by the structure of the
/// opcode: rotations and shifts in the first quarter, then the test, the
/// clearing and the setting of the bit that bits 3 to 5 name. The low three
/// bits select the operand; through HL an instruction costs more.
pub open spec fn decode_cb_spec(opcode: u8) -> Entry {
    let row = ((opcode / 8) % 8) as u8;
    let column = opcode % 8;
    let r = operand(column as int);
    let memory = column == 6;
    let cost: u8 = if memory {
        4
    } else {
        2
    };
    if opcode < 0x40 {
        let op = if row == 0 {
            Operation::Rotate(r, Direction::Left, true, true)
        } else if row == 1 {
            Operation::Rotate(r, Direction::Right, true, true)
        } else if row == 2 {
            Operation::Rotate(r, Direction::Left, false, true)
        } else if row == 3 {
            Operation::Rotate(r, Direction::Right, false, true)
        } else if row == 4 {
            Operation::Shift(r, Direction::Left, false)
        } else if row == 5 {
            Operation::Shift(r, Direction::Right, false)
        } else if row == 6 {
            Operation::Swap(r)
        } else {
            Operation::Shift(r, Direction::Right, true)
        };
        Entry { op, cycles: cost, taken: cost }
    } else if opcode < 0x80 {
        let cost: u8 = if memory {
            3
        } else {
            2
        };
        Entry { op: Operation::TestBit(r, row), cycles: cost, taken: cost }
    } else if opcode < 0xC0 {
        Entry { op: Operation::ClearBit(r, row), cycles: cost, taken: cost }
    } else {
        Entry { op: Operation::SetBit(r, row), cycles: cost, taken: cost }
    }
}

/// Looks an opcode up in the first table.
pub fn decode(opcode: u8) -> (r: Option<Entry>)
    ensures
        r == decode_spec(opcode),
        r matches Some(e) ==> e.op.wf(),
{
    match opcode {
        0x00 => Some(Entry { op: Operation::Nop, cycles: 1, taken: 1 }),
        0x01 => Some(Entry { op: Operation::Ld16(WordDescriptor::BC, WordDescriptor::Immediate), cycles: 3, taken: 3 }),
        0x02 => Some(Entry { op: Operation::Ld(ByteDescriptor::BC, ByteDescriptor::A), cycles: 2, taken: 2 }),
        0x03 => Some(Entry { op: Operation::Inc16(WordDescriptor::BC), cycles: 2, taken: 2 }),
        0x04 => Some(Entry { op: Operation::Inc(ByteDescriptor::B), cycles: 1, taken: 1 }),
        0x05 => Some(Entry { op: Operation::Dec(ByteDescriptor::B), cycles: 1, taken: 1 }),
        0x06 => Some(Entry { op: Operation::Ld(ByteDescriptor::B, ByteDescriptor::Immediate), cycles: 2, taken: 2 }),
        0x07 => Some(Entry { op: Operation::Rotate(ByteDescriptor::A, Direction::Left, true, false), cycles: 1, taken: 1 }),
        0x08 => Some(Entry { op: Operation::Ld16(WordDescriptor::Indirect, WordDescriptor::SP), cycles: 5, taken: 5 }),
        0x09 => Some(Entry { op: Operation::Add16(WordDescriptor::BC), cycles: 2, taken: 2 }),
        0x0A => Some(Entry { op: Operation::Ld(ByteDescriptor::A, ByteDescriptor::BC), cycles: 2, taken: 2 }),
        0x0B => Some(Entry { op: Operation::Dec16(WordDescriptor::BC), cycles: 2, taken: 2 }),
        0x0C => Some(Entry { op: Operation::Inc(ByteDescriptor::C), cycles: 1, taken: 1 }),
        0x0D => Some(Entry { op: Operation::Dec(ByteDescriptor::C), cycles: 1, taken: 1 }),
        0x0E => Some(Entry { op: Operation::Ld(ByteDescriptor::C, ByteDescriptor::Immediate), cycles: 2, taken: 2 }),
        0x0F => Some(Entry { op: Operation::Rotate(ByteDescriptor::A, Direction::Right, true, false), cycles: 1, taken: 1 }),
        0x11 => Some(Entry { op: Operation::Ld16(WordDescriptor::DE, WordDescriptor::Immediate), cycles: 3, taken: 3 }),
        0x12 => Some(Entry { op: Operation::Ld(ByteDescriptor::DE, ByteDescriptor::A), cycles: 2, taken: 2 }),
        0x13 => Some(Entry { op: Operation::Inc16(WordDescriptor::DE), cycles: 2, taken: 2 }),
        0x14 => Some(Entry { op: Operation::Inc(ByteDescriptor::D), cycles: 1, taken: 1 }),
        0x15 => Some(Entry { op: Operation::Dec(ByteDescriptor::D), cycles: 1, taken: 1 }),
        0x16 => Some(Entry { op: Operation::Ld(ByteDescriptor::D, ByteDescriptor::Immediate), cycles: 2, taken: 2 }),
        0x17 => Some(Entry { op: Operation::Rotate(ByteDescriptor::A, Direction::Left, false, false), cycles: 1, taken: 1 }),
        0x18 => Some(Entry { op: Operation::Jr(None), cycles: 3, taken: 3 }),
        0x19 => Some(Entry { op: Operation::Add16(WordDescriptor::DE), cycles: 2, taken: 2 }),
        0x1A => Some(Entry { op: Operation::Ld(ByteDescriptor::A, ByteDescriptor::DE), cycles: 2, taken: 2 }),
        0x1B => Some(Entry { op: Operation::Dec16(WordDescriptor::DE), cycles: 2, taken: 2 }),
        0x1C => Some(Entry { op: Operation::Inc(ByteDescriptor::E), cycles: 1, taken: 1 }),
        0x1D => Some(Entry { op: Operation::Dec(ByteDescriptor::E), cycles: 1, taken: 1 }),
        0x1E => Some(Entry { op: Operation::Ld(ByteDescriptor::E, ByteDescriptor::Immediate), cycles: 2, taken: 2 }),
        0x1F => Some(Entry { op: Operation::Rotate(ByteDescriptor::A, Direction::Right, false, false), cycles: 1, taken: 1 }),
        0x20 => Some(Entry { op: Operation::Jr(Some((Flag::Zero, false))), cycles: 2, taken: 3 }),
        0x21 => Some(Entry { op: Operation::Ld16(WordDescriptor::HL, WordDescriptor::Immediate), cycles: 3, taken: 3 }),
        0x22 => Some(Entry { op: Operation::Ld(ByteDescriptor::HLi, ByteDescriptor::A), cycles: 2, taken: 2 }),
        0x23 => Some(Entry { op: Operation::Inc16(WordDescriptor::HL), cycles: 2, taken: 2 }),
        0x24 => Some(Entry { op: Operation::Inc(ByteDescriptor::H), cycles: 1, taken: 1 }),
        0x25 => Some(Entry { op: Operation::Dec(ByteDescriptor::H), cycles: 1, taken: 1 }),
        0x26 => Some(Entry { op: Operation::Ld(ByteDescriptor::H, ByteDescriptor::Immediate), cycles: 2, taken: 2 }),
        0x27 => Some(Entry { op: Operation::Daa, cycles: 1, taken: 1 }),
        0x28 => Some(Entry { op: Operation::Jr(Some((Flag::Zero, true))), cycles: 2, taken: 3 }),
        0x29 => Some(Entry { op: Operation::Add16(WordDescriptor::HL), cycles: 2, taken: 2 }),
        0x2A => Some(Entry { op: Operation::Ld(ByteDescriptor::A, ByteDescriptor::HLi), cycles: 2, taken: 2 }),
        0x2B => Some(Entry { op: Operation::Dec16(WordDescriptor::HL), cycles: 2, taken: 2 }),
        0x2C => Some(Entry { op: Operation::Inc(ByteDescriptor::L), cycles: 1, taken: 1 }),
        0x2D => Some(Entry { op: Operation::Dec(ByteDescriptor::L), cycles: 1, taken: 1 }),
        0x2E => Some(Entry { op: Operation::Ld(ByteDescriptor::L, ByteDescriptor::Immediate), cycles: 2, taken: 2 }),
        0x2F => Some(Entry { op: Operation::Cpl, cycles: 1, taken: 1 }),
        0x30 => Some(Entry { op: Operation::Jr(Some((Flag::Carry, false))), cycles: 2, taken: 3 }),
        0x31 => Some(Entry { op: Operation::Ld16(WordDescriptor::SP, WordDescriptor::Immediate), cycles: 3, taken: 3 }),
        0x32 => Some(Entry { op: Operation::Ld(ByteDescriptor::HLd, ByteDescriptor::A), cycles: 2, taken: 2 }),
        0x33 => Some(Entry { op: Operation::Inc16(WordDescriptor::SP), cycles: 2, taken: 2 }),
        0x34 => Some(Entry { op: Operation::Inc(ByteDescriptor::HL), cycles: 1, taken: 1 }),
        0x35 => Some(Entry { op: Operation::Dec(ByteDescriptor::HL), cycles: 1, taken: 1 }),
        0x36 => Some(Entry { op: Operation::Ld(ByteDescriptor::HL, ByteDescriptor::Immediate), cycles: 2, taken: 2 }),
        0x37 => Some(Entry { op: Operation::Scf, cycles: 1, taken: 1 }),
        0x38 => Some(Entry { op: Operation::Jr(Some((Flag::Carry, true))), cycles: 2, taken: 3 }),
        0x39 => Some(Entry { op: Operation::Add16(WordDescriptor::SP), cycles: 2, taken: 2 }),
        0x3A => Some(Entry { op: Operation::Ld(ByteDescriptor::A, ByteDescriptor::HLd), cycles: 2, taken: 2 }),
        0x3B => Some(Entry { op: Operation::Dec16(WordDescriptor::SP), cycles: 2, taken: 2 }),
        0x3C => Some(Entry { op: Operation::Inc(ByteDescriptor::A), cycles: 1, taken: 1 }),
        0x3D => Some(Entry { op: Operation::Dec(ByteDescriptor::A), cycles: 1, taken: 1 }),
        0x3E => Some(Entry { op: Operation::Ld(ByteDescriptor::A, ByteDescriptor::Immediate), cycles: 2, taken: 2 }),
        0x3F => Some(Entry { op: Operation::Ccf, cycles: 1, taken: 1 }),
        0x40 => Some(Entry { op: Operation::Ld(ByteDescriptor::B, ByteDescriptor::B), cycles: 1, taken: 1 }),
        0x41 => Some(Entry { op: Operation::Ld(ByteDescriptor::B, ByteDescriptor::C), cycles: 1, taken: 1 }),
        0x42 => Some(Entry { op: Operation::Ld(ByteDescriptor::B, ByteDescriptor::D), cycles: 1, taken: 1 }),
        0x43 => Some(Entry { op: Operation::Ld(ByteDescriptor::B, ByteDescriptor::E), cycles: 1, taken: 1 }),
        0x44 => Some(Entry { op: Operation::Ld(ByteDescriptor::B, ByteDescriptor::H), cycles: 1, taken: 1 }),
        0x45 => Some(Entry { op: Operation::Ld(ByteDescriptor::B, ByteDescriptor::L), cycles: 1, taken: 1 }),
        0x46 => Some(Entry { op: Operation::Ld(ByteDescriptor::B, ByteDescriptor::HL), cycles: 2, taken: 2 }),
        0x47 => Some(Entry { op: Operation::Ld(ByteDescriptor::B, ByteDescriptor::A), cycles: 1, taken: 1 }),
        0x48 => Some(Entry { op: Operation::Ld(ByteDescriptor::C, ByteDescriptor::B), cycles: 1, taken: 1 }),
        0x49 => Some(Entry { op: Operation::Ld(ByteDescriptor::C, ByteDescriptor::C), cycles: 1, taken: 1 }),
        0x4A => Some(Entry { op: Operation::Ld(ByteDescriptor::C, ByteDescriptor::D), cycles: 1, taken: 1 }),
        0x4B => Some(Entry { op: Operation::Ld(ByteDescriptor::C, ByteDescriptor::E), cycles: 1, taken: 1 }),
        0x4C => Some(Entry { op: Operation::Ld(ByteDescriptor::C, ByteDescriptor::H), cycles: 1, taken: 1 }),
        0x4D => Some(Entry { op: Operation::Ld(ByteDescriptor::C, ByteDescriptor::L), cycles: 1, taken: 1 }),
        0x4E => Some(Entry { op: Operation::Ld(ByteDescriptor::C, ByteDescriptor::HL), cycles: 2, taken: 2 }),
        0x4F => Some(Entry { op: Operation::Ld(ByteDescriptor::C, ByteDescriptor::A), cycles: 1, taken: 1 }),
        0x50 => Some(Entry { op: Operation::Ld(ByteDescriptor::D, ByteDescriptor::B), cycles: 1, taken: 1 }),
        0x51 => Some(Entry { op: Operation::Ld(ByteDescriptor::D, ByteDescriptor::C), cycles: 1, taken: 1 }),
        0x52 => Some(Entry { op: Operation::Ld(ByteDescriptor::D, ByteDescriptor::D), cycles: 1, taken: 1 }),
        0x53 => Some(Entry { op: Operation::Ld(ByteDescriptor::D, ByteDescriptor::E), cycles: 1, taken: 1 }),
        0x54 => Some(Entry { op: Operation::Ld(ByteDescriptor::D, ByteDescriptor::H), cycles: 1, taken: 1 }),
        0x55 => Some(Entry { op: Operation::Ld(ByteDescriptor::D, ByteDescriptor::L), cycles: 1, taken: 1 }),
        0x56 => Some(Entry { op: Operation::Ld(ByteDescriptor::D, ByteDescriptor::HL), cycles: 2, taken: 2 }),
        0x57 => Some(Entry { op: Operation::Ld(ByteDescriptor::D, ByteDescriptor::A), cycles: 1, taken: 1 }),
        0x58 => Some(Entry { op: Operation::Ld(ByteDescriptor::E, ByteDescriptor::B), cycles: 1, taken: 1 }),
        0x59 => Some(Entry { op: Operation::Ld(ByteDescriptor::E, ByteDescriptor::C), cycles: 1, taken: 1 }),
        0x5A => Some(Entry { op: Operation::Ld(ByteDescriptor::E, ByteDescriptor::D), cycles: 1, taken: 1 }),
        0x5B => Some(Entry { op: Operation::Ld(ByteDescriptor::E, ByteDescriptor::E), cycles: 1, taken: 1 }),
        0x5C => Some(Entry { op: Operation::Ld(ByteDescriptor::E, ByteDescriptor::H), cycles: 1, taken: 1 }),
        0x5D => Some(Entry { op: Operation::Ld(ByteDescriptor::E, ByteDescriptor::L), cycles: 1, taken: 1 }),
        0x5E => Some(Entry { op: Operation::Ld(ByteDescriptor::E, ByteDescriptor::HL), cycles: 2, taken: 2 }),
        0x5F => Some(Entry { op: Operation::Ld(ByteDescriptor::E, ByteDescriptor::A), cycles: 1, taken: 1 }),
        0x60 => Some(Entry { op: Operation::Ld(ByteDescriptor::H, ByteDescriptor::B), cycles: 1, taken: 1 }),
        0x61 => Some(Entry { op: Operation::Ld(ByteDescriptor::H, ByteDescriptor::C), cycles: 1, taken: 1 }),
        0x62 => Some(Entry { op: Operation::Ld(ByteDescriptor::H, ByteDescriptor::D), cycles: 1, taken: 1 }),
        0x63 => Some(Entry { op: Operation::Ld(ByteDescriptor::H, ByteDescriptor::E), cycles: 1, taken: 1 }),
        0x64 => Some(Entry { op: Operation::Ld(ByteDescriptor::H, ByteDescriptor::H), cycles: 1, taken: 1 }),
        0x65 => Some(Entry { op: Operation::Ld(ByteDescriptor::H, ByteDescriptor::L), cycles: 1, taken: 1 }),
        0x66 => Some(Entry { op: Operation::Ld(ByteDescriptor::H, ByteDescriptor::HL), cycles: 2, taken: 2 }),
        0x67 => Some(Entry { op: Operation::Ld(ByteDescriptor::H, ByteDescriptor::A), cycles: 1, taken: 1 }),
        0x68 => Some(Entry { op: Operation::Ld(ByteDescriptor::L, ByteDescriptor::B), cycles: 1, taken: 1 }),
        0x69 => Some(Entry { op: Operation::Ld(ByteDescriptor::L, ByteDescriptor::C), cycles: 1, taken: 1 }),
        0x6A => Some(Entry { op: Operation::Ld(ByteDescriptor::L, ByteDescriptor::D), cycles: 1, taken: 1 }),
        0x6B => Some(Entry { op: Operation::Ld(ByteDescriptor::L, ByteDescriptor::E), cycles: 1, taken: 1 }),
        0x6C => Some(Entry { op: Operation::Ld(ByteDescriptor::L, ByteDescriptor::H), cycles: 1, taken: 1 }),
        0x6D => Some(Entry { op: Operation::Ld(ByteDescriptor::L, ByteDescriptor::L), cycles: 1, taken: 1 }),
        0x6E => Some(Entry { op: Operation::Ld(ByteDescriptor::L, ByteDescriptor::HL), cycles: 2, taken: 2 }),
        0x6F => Some(Entry { op: Operation::Ld(ByteDescriptor::L, ByteDescriptor::A), cycles: 1, taken: 1 }),
        0x70 => Some(Entry { op: Operation::Ld(ByteDescriptor::HL, ByteDescriptor::B), cycles: 1, taken: 1 }),
        0x71 => Some(Entry { op: Operation::Ld(ByteDescriptor::HL, ByteDescriptor::C), cycles: 1, taken: 1 }),
        0x72 => Some(Entry { op: Operation::Ld(ByteDescriptor::HL, ByteDescriptor::D), cycles: 1, taken: 1 }),
        0x73 => Some(Entry { op: Operation::Ld(ByteDescriptor::HL, ByteDescriptor::E), cycles: 1, taken: 1 }),
        0x74 => Some(Entry { op: Operation::Ld(ByteDescriptor::HL, ByteDescriptor::H), cycles: 1, taken: 1 }),
        0x75 => Some(Entry { op: Operation::Ld(ByteDescriptor::HL, ByteDescriptor::L), cycles: 1, taken: 1 }),
        0x76 => Some(Entry { op: Operation::Halt, cycles: 1, taken: 1 }),
        0x77 => Some(Entry { op: Operation::Ld(ByteDescriptor::HL, ByteDescriptor::A), cycles: 1, taken: 1 }),
        0x78 => Some(Entry { op: Operation::Ld(ByteDescriptor::A, ByteDescriptor::B), cycles: 1, taken: 1 }),
        0x79 => Some(Entry { op: Operation::Ld(ByteDescriptor::A, ByteDescriptor::C), cycles: 1, taken: 1 }),
        0x7A => Some(Entry { op: Operation::Ld(ByteDescriptor::A, ByteDescriptor::D), cycles: 1, taken: 1 }),
        0x7B => Some(Entry { op: Operation::Ld(ByteDescriptor::A, ByteDescriptor::E), cycles: 1, taken: 1 }),
        0x7C => Some(Entry { op: Operation::Ld(ByteDescriptor::A, ByteDescriptor::H), cycles: 1, taken: 1 }),
        0x7D => Some(Entry { op: Operation::Ld(ByteDescriptor::A, ByteDescriptor::L), cycles: 1, taken: 1 }),
        0x7E => Some(Entry { op: Operation::Ld(ByteDescriptor::A, ByteDescriptor::HL), cycles: 2, taken: 2 }),
        0x7F => Some(Entry { op: Operation::Ld(ByteDescriptor::A, ByteDescriptor::A), cycles: 1, taken: 1 }),
        0x80 => Some(Entry { op: Operation::Add(ByteDescriptor::B, false), cycles: 1, taken: 1 }),
        0x81 => Some(Entry { op: Operation::Add(ByteDescriptor::C, false), cycles: 1, taken: 1 }),
        0x82 => Some(Entry { op: Operation::Add(ByteDescriptor::D, false), cycles: 1, taken: 1 }),
        0x83 => Some(Entry { op: Operation::Add(ByteDescriptor::E, false), cycles: 1, taken: 1 }),
        0x84 => Some(Entry { op: Operation::Add(ByteDescriptor::H, false), cycles: 1, taken: 1 }),
        0x85 => Some(Entry { op: Operation::Add(ByteDescriptor::L, false), cycles: 1, taken: 1 }),
        0x86 => Some(Entry { op: Operation::Add(ByteDescriptor::HL, false), cycles: 2, taken: 2 }),
        0x87 => Some(Entry { op: Operation::Add(ByteDescriptor::A, false), cycles: 1, taken: 1 }),
        0x88 => Some(Entry { op: Operation::Add(ByteDescriptor::B, true), cycles: 1, taken: 1 }),
        0x89 => Some(Entry { op: Operation::Add(ByteDescriptor::C, true), cycles: 1, taken: 1 }),
        0x8A => Some(Entry { op: Operation::Add(ByteDescriptor::D, true), cycles: 1, taken: 1 }),
        0x8B => Some(Entry { op: Operation::Add(ByteDescriptor::E, true), cycles: 1, taken: 1 }),
        0x8C => Some(Entry { op: Operation::Add(ByteDescriptor::H, true), cycles: 1, taken: 1 }),
        0x8D => Some(Entry { op: Operation::Add(ByteDescriptor::L, true), cycles: 1, taken: 1 }),
        0x8E => Some(Entry { op: Operation::Add(ByteDescriptor::HL, true), cycles: 2, taken: 2 }),
        0x8F => Some(Entry { op: Operation::Add(ByteDescriptor::A, true), cycles: 1, taken: 1 }),
        0x90 => Some(Entry { op: Operation::Sub(ByteDescriptor::B, false), cycles: 1, taken: 1 }),
        0x91 => Some(Entry { op: Operation::Sub(ByteDescriptor::C, false), cycles: 1, taken: 1 }),
        0x92 => Some(Entry { op: Operation::Sub(ByteDescriptor::D, false), cycles: 1, taken: 1 }),
        0x93 => Some(Entry { op: Operation::Sub(ByteDescriptor::E, false), cycles: 1, taken: 1 }),
        0x94 => Some(Entry { op: Operation::Sub(ByteDescriptor::H, false), cycles: 1, taken: 1 }),
        0x95 => Some(Entry { op: Operation::Sub(ByteDescriptor::L, false), cycles: 1, taken: 1 }),
        0x96 => Some(Entry { op: Operation::Sub(ByteDescriptor::HL, false), cycles: 2, taken: 2 }),
        0x97 => Some(Entry { op: Operation::Sub(ByteDescriptor::A, false), cycles: 1, taken: 1 }),
        0x98 => Some(Entry { op: Operation::Sub(ByteDescriptor::B, true), cycles: 1, taken: 1 }),
        0x99 => Some(Entry { op: Operation::Sub(ByteDescriptor::C, true), cycles: 1, taken: 1 }),
        0x9A => Some(Entry { op: Operation::Sub(ByteDescriptor::D, true), cycles: 1, taken: 1 }),
        0x9B => Some(Entry { op: Operation::Sub(ByteDescriptor::E, true), cycles: 1, taken: 1 }),
        0x9C => Some(Entry { op: Operation::Sub(ByteDescriptor::H, true), cycles: 1, taken: 1 }),
        0x9D => Some(Entry { op: Operation::Sub(ByteDescriptor::L, true), cycles: 1, taken: 1 }),
        0x9E => Some(Entry { op: Operation::Sub(ByteDescriptor::HL, true), cycles: 2, taken: 2 }),
        0x9F => Some(Entry { op: Operation::Sub(ByteDescriptor::A, true), cycles: 1, taken: 1 }),
        0xA0 => Some(Entry { op: Operation::And(ByteDescriptor::B), cycles: 1, taken: 1 }),
        0xA1 => Some(Entry { op: Operation::And(ByteDescriptor::C), cycles: 1, taken: 1 }),
        0xA2 => Some(Entry { op: Operation::And(ByteDescriptor::D), cycles: 1, taken: 1 }),
        0xA3 => Some(Entry { op: Operation::And(ByteDescriptor::E), cycles: 1, taken: 1 }),
        0xA4 => Some(Entry { op: Operation::And(ByteDescriptor::H), cycles: 1, taken: 1 }),
        0xA5 => Some(Entry { op: Operation::And(ByteDescriptor::L), cycles: 1, taken: 1 }),
        0xA6 => Some(Entry { op: Operation::And(ByteDescriptor::HL), cycles: 2, taken: 2 }),
        0xA7 => Some(Entry { op: Operation::And(ByteDescriptor::A), cycles: 1, taken: 1 }),
        0xA8 => Some(Entry { op: Operation::Xor(ByteDescriptor::B), cycles: 1, taken: 1 }),
        0xA9 => Some(Entry { op: Operation::Xor(ByteDescriptor::C), cycles: 1, taken: 1 }),
        0xAA => Some(Entry { op: Operation::Xor(ByteDescriptor::D), cycles: 1, taken: 1 }),
        0xAB => Some(Entry { op: Operation::Xor(ByteDescriptor::E), cycles: 1, taken: 1 }),
        0xAC => Some(Entry { op: Operation::Xor(ByteDescriptor::H), cycles: 1, taken: 1 }),
        0xAD => Some(Entry { op: Operation::Xor(ByteDescriptor::L), cycles: 1, taken: 1 }),
        0xAE => Some(Entry { op: Operation::Xor(ByteDescriptor::HL), cycles: 2, taken: 2 }),
        0xAF => Some(Entry { op: Operation::Xor(ByteDescriptor::A), cycles: 1, taken: 1 }),
        0xB0 => Some(Entry { op: Operation::Or(ByteDescriptor::B), cycles: 1, taken: 1 }),
        0xB1 => Some(Entry { op: Operation::Or(ByteDescriptor::C), cycles: 1, taken: 1 }),
        0xB2 => Some(Entry { op: Operation::Or(ByteDescriptor::D), cycles: 1, taken: 1 }),
        0xB3 => Some(Entry { op: Operation::Or(ByteDescriptor::E), cycles: 1, taken: 1 }),
        0xB4 => Some(Entry { op: Operation::Or(ByteDescriptor::H), cycles: 1, taken: 1 }),
        0xB5 => Some(Entry { op: Operation::Or(ByteDescriptor::L), cycles: 1, taken: 1 }),
        0xB6 => Some(Entry { op: Operation::Or(ByteDescriptor::HL), cycles: 2, taken: 2 }),
        0xB7 => Some(Entry { op: Operation::Or(ByteDescriptor::A), cycles: 1, taken: 1 }),
        0xB8 => Some(Entry { op: Operation::Cp(ByteDescriptor::B), cycles: 1, taken: 1 }),
        0xB9 => Some(Entry { op: Operation::Cp(ByteDescriptor::C), cycles: 1, taken: 1 }),
        0xBA => Some(Entry { op: Operation::Cp(ByteDescriptor::D), cycles: 1, taken: 1 }),
        0xBB => Some(Entry { op: Operation::Cp(ByteDescriptor::E), cycles: 1, taken: 1 }),
        0xBC => Some(Entry { op: Operation::Cp(ByteDescriptor::H), cycles: 1, taken: 1 }),
        0xBD => Some(Entry { op: Operation::Cp(ByteDescriptor::L), cycles: 1, taken: 1 }),
        0xBE => Some(Entry { op: Operation::Cp(ByteDescriptor::HL), cycles: 2, taken: 2 }),
        0xBF => Some(Entry { op: Operation::Cp(ByteDescriptor::A), cycles: 1, taken: 1 }),
        0xC0 => Some(Entry { op: Operation::Ret(Some((Flag::Zero, false))), cycles: 2, taken: 4 }),
        0xC1 => Some(Entry { op: Operation::Pop(WordDescriptor::BC), cycles: 3, taken: 3 }),
        0xC2 => Some(Entry { op: Operation::Jp(Some((Flag::Zero, false))), cycles: 3, taken: 4 }),
        0xC3 => Some(Entry { op: Operation::Jp(None), cycles: 4, taken: 4 }),
        0xC4 => Some(Entry { op: Operation::Call(Some((Flag::Zero, false))), cycles: 3, taken: 6 }),
        0xC5 => Some(Entry { op: Operation::Push(WordDescriptor::BC), cycles: 4, taken: 4 }),
        0xC6 => Some(Entry { op: Operation::Add(ByteDescriptor::Immediate, false), cycles: 2, taken: 2 }),
        0xC7 => Some(Entry { op: Operation::Rst(0x00), cycles: 4, taken: 4 }),
        0xC8 => Some(Entry { op: Operation::Ret(Some((Flag::Zero, true))), cycles: 2, taken: 4 }),
        0xC9 => Some(Entry { op: Operation::Ret(None), cycles: 4, taken: 4 }),
        0xCA => Some(Entry { op: Operation::Jp(Some((Flag::Zero, true))), cycles: 3, taken: 4 }),
        0xCB => Some(Entry { op: Operation::Prefix, cycles: 1, taken: 1 }),
        0xCC => Some(Entry { op: Operation::Call(Some((Flag::Zero, true))), cycles: 3, taken: 6 }),
        0xCD => Some(Entry { op: Operation::Call(None), cycles: 6, taken: 6 }),
        0xCE => Some(Entry { op: Operation::Add(ByteDescriptor::Immediate, true), cycles: 2, taken: 2 }),
        0xCF => Some(Entry { op: Operation::Rst(0x08), cycles: 4, taken: 4 }),
        0xD0 => Some(Entry { op: Operation::Ret(Some((Flag::Carry, false))), cycles: 2, taken: 4 }),
        0xD1 => Some(Entry { op: Operation::Pop(WordDescriptor::DE), cycles: 3, taken: 3 }),
        0xD2 => Some(Entry { op: Operation::Jp(Some((Flag::Carry, false))), cycles: 3, taken: 4 }),
        0xD4 => Some(Entry { op: Operation::Call(Some((Flag::Carry, false))), cycles: 3, taken: 6 }),
        0xD5 => Some(Entry { op: Operation::Push(WordDescriptor::DE), cycles: 4, taken: 4 }),
        0xD6 => Some(Entry { op: Operation::Sub(ByteDescriptor::Immediate, false), cycles: 2, taken: 2 }),
        0xD7 => Some(Entry { op: Operation::Rst(0x10), cycles: 4, taken: 4 }),
        0xD8 => Some(Entry { op: Operation::Ret(Some((Flag::Carry, true))), cycles: 2, taken: 4 }),
        0xD9 => Some(Entry { op: Operation::Ret(None), cycles: 4, taken: 4 }),
        0xDA => Some(Entry { op: Operation::Jp(Some((Flag::Carry, true))), cycles: 3, taken: 4 }),
        0xDC => Some(Entry { op: Operation::Call(Some((Flag::Carry, true))), cycles: 3, taken: 6 }),
        0xDE => Some(Entry { op: Operation::Sub(ByteDescriptor::Immediate, true), cycles: 2, taken: 2 }),
        0xDF => Some(Entry { op: Operation::Rst(0x18), cycles: 4, taken: 4 }),
        0xE0 => Some(Entry { op: Operation::Ld(ByteDescriptor::HighAddress, ByteDescriptor::A), cycles: 3, taken: 3 }),
        0xE1 => Some(Entry { op: Operation::Pop(WordDescriptor::HL), cycles: 3, taken: 3 }),
        0xE2 => Some(Entry { op: Operation::Ld(ByteDescriptor::HighAddressC, ByteDescriptor::A), cycles: 2, taken: 2 }),
        0xE5 => Some(Entry { op: Operation::Push(WordDescriptor::HL), cycles: 4, taken: 4 }),
        0xE6 => Some(Entry { op: Operation::And(ByteDescriptor::Immediate), cycles: 2, taken: 2 }),
        0xE7 => Some(Entry { op: Operation::Rst(0x20), cycles: 4, taken: 4 }),
        0xE8 => Some(Entry { op: Operation::AddSp, cycles: 4, taken: 4 }),
        0xE9 => Some(Entry { op: Operation::JumpHl, cycles: 1, taken: 1 }),
        0xEA => Some(Entry { op: Operation::Ld(ByteDescriptor::Indirect, ByteDescriptor::A), cycles: 4, taken: 4 }),
        0xEE => Some(Entry { op: Operation::Xor(ByteDescriptor::Immediate), cycles: 2, taken: 2 }),
        0xEF => Some(Entry { op: Operation::Rst(0x28), cycles: 4, taken: 4 }),
        0xF0 => Some(Entry { op: Operation::Ld(ByteDescriptor::A, ByteDescriptor::HighAddress), cycles: 3, taken: 3 }),
        0xF1 => Some(Entry { op: Operation::Pop(WordDescriptor::AF), cycles: 3, taken: 3 }),
        0xF2 => Some(Entry { op: Operation::Ld(ByteDescriptor::A, ByteDescriptor::HighAddressC), cycles: 2, taken: 2 }),
        0xF3 => Some(Entry { op: Operation::DisableInterrupts, cycles: 1, taken: 1 }),
        0xF5 => Some(Entry { op: Operation::Push(WordDescriptor::AF), cycles: 4, taken: 4 }),
        0xF6 => Some(Entry { op: Operation::Or(ByteDescriptor::Immediate), cycles: 2, taken: 2 }),
        0xF7 => Some(Entry { op: Operation::Rst(0x20), cycles: 4, taken: 4 }),
        0xF8 => Some(Entry { op: Operation::LdSp, cycles: 3, taken: 3 }),
        0xF9 => Some(Entry { op: Operation::Ld16(WordDescriptor::SP, WordDescriptor::HL), cycles: 2, taken: 2 }),
        0xFA => Some(Entry { op: Operation::Ld(ByteDescriptor::A, ByteDescriptor::Indirect), cycles: 4, taken: 4 }),
        0xFB => Some(Entry { op: Operation::EnableInterrupts, cycles: 1, taken: 1 }),
        0xFE => Some(Entry { op: Operation::Cp(ByteDescriptor::Immediate), cycles: 2, taken: 2 }),
        0xFF => Some(Entry { op: Operation::Rst(0x38), cycles: 4, taken: 4 }),
        _ => None,
    }
}

/// Looks an opcode up in the table that follows the prefix.
pub fn decode_cb(opcode: u8) -> (r: Entry)
    ensures
        r == decode_cb_spec(opcode),
        r.op.wf(),
{
    match opcode {
        0x00 => Entry { op: Operation::Rotate(ByteDescriptor::B, Direction::Left, true, true), cycles: 2, taken: 2 },
        0x01 => Entry { op: Operation::Rotate(ByteDescriptor::C, Direction::Left, true, true), cycles: 2, taken: 2 },
        0x02 => Entry { op: Operation::Rotate(ByteDescriptor::D, Direction::Left, true, true), cycles: 2, taken: 2 },
        0x03 => Entry { op: Operation::Rotate(ByteDescriptor::E, Direction::Left, true, true), cycles: 2, taken: 2 },
        0x04 => Entry { op: Operation::Rotate(ByteDescriptor::H, Direction::Left, true, true), cycles: 2, taken: 2 },
        0x05 => Entry { op: Operation::Rotate(ByteDescriptor::L, Direction::Left, true, true), cycles: 2, taken: 2 },
        0x06 => Entry { op: Operation::Rotate(ByteDescriptor::HL, Direction::Left, true, true), cycles: 4, taken: 4 },
        0x07 => Entry { op: Operation::Rotate(ByteDescriptor::A, Direction::Left, true, true), cycles: 2, taken: 2 },
        0x08 => Entry { op: Operation::Rotate(ByteDescriptor::B, Direction::Right, true, true), cycles: 2, taken: 2 },
        0x09 => Entry { op: Operation::Rotate(ByteDescriptor::C, Direction::Right, true, true), cycles: 2, taken: 2 },
        0x0A => Entry { op: Operation::Rotate(ByteDescriptor::D, Direction::Right, true, true), cycles: 2, taken: 2 },
        0x0B => Entry { op: Operation::Rotate(ByteDescriptor::E, Direction::Right, true, true), cycles: 2, taken: 2 },
        0x0C => Entry { op: Operation::Rotate(ByteDescriptor::H, Direction::Right, true, true), cycles: 2, taken: 2 },
        0x0D => Entry { op: Operation::Rotate(ByteDescriptor::L, Direction::Right, true, true), cycles: 2, taken: 2 },
        0x0E => Entry { op: Operation::Rotate(ByteDescriptor::HL, Direction::Right, true, true), cycles: 4, taken: 4 },
        0x0F => Entry { op: Operation::Rotate(ByteDescriptor::A, Direction::Right, true, true), cycles: 2, taken: 2 },
        0x10 => Entry { op: Operation::Rotate(ByteDescriptor::B, Direction::Left, false, true), cycles: 2, taken: 2 },
        0x11 => Entry { op: Operation::Rotate(ByteDescriptor::C, Direction::Left, false, true), cycles: 2, taken: 2 },
        0x12 => Entry { op: Operation::Rotate(ByteDescriptor::D, Direction::Left, false, true), cycles: 2, taken: 2 },
        0x13 => Entry { op: Operation::Rotate(ByteDescriptor::E, Direction::Left, false, true), cycles: 2, taken: 2 },
        0x14 => Entry { op: Operation::Rotate(ByteDescriptor::H, Direction::Left, false, true), cycles: 2, taken: 2 },
        0x15 => Entry { op: Operation::Rotate(ByteDescriptor::L, Direction::Left, false, true), cycles: 2, taken: 2 },
        0x16 => Entry { op: Operation::Rotate(ByteDescriptor::HL, Direction::Left, false, true), cycles: 4, taken: 4 },
        0x17 => Entry { op: Operation::Rotate(ByteDescriptor::A, Direction::Left, false, true), cycles: 2, taken: 2 },
        0x18 => Entry { op: Operation::Rotate(ByteDescriptor::B, Direction::Right, false, true), cycles: 2, taken: 2 },
        0x19 => Entry { op: Operation::Rotate(ByteDescriptor::C, Direction::Right, false, true), cycles: 2, taken: 2 },
        0x1A => Entry { op: Operation::Rotate(ByteDescriptor::D, Direction::Right, false, true), cycles: 2, taken: 2 },
        0x1B => Entry { op: Operation::Rotate(ByteDescriptor::E, Direction::Right, false, true), cycles: 2, taken: 2 },
        0x1C => Entry { op: Operation::Rotate(ByteDescriptor::H, Direction::Right, false, true), cycles: 2, taken: 2 },
        0x1D => Entry { op: Operation::Rotate(ByteDescriptor::L, Direction::Right, false, true), cycles: 2, taken: 2 },
        0x1E => Entry { op: Operation::Rotate(ByteDescriptor::HL, Direction::Right, false, true), cycles: 4, taken: 4 },
        0x1F => Entry { op: Operation::Rotate(ByteDescriptor::A, Direction::Right, false, true), cycles: 2, taken: 2 },
        0x20 => Entry { op: Operation::Shift(ByteDescriptor::B, Direction::Left, false), cycles: 2, taken: 2 },
        0x21 => Entry { op: Operation::Shift(ByteDescriptor::C, Direction::Left, false), cycles: 2, taken: 2 },
        0x22 => Entry { op: Operation::Shift(ByteDescriptor::D, Direction::Left, false), cycles: 2, taken: 2 },
        0x23 => Entry { op: Operation::Shift(ByteDescriptor::E, Direction::Left, false), cycles: 2, taken: 2 },
        0x24 => Entry { op: Operation::Shift(ByteDescriptor::H, Direction::Left, false), cycles: 2, taken: 2 },
        0x25 => Entry { op: Operation::Shift(ByteDescriptor::L, Direction::Left, false), cycles: 2, taken: 2 },
        0x26 => Entry { op: Operation::Shift(ByteDescriptor::HL, Direction::Left, false), cycles: 4, taken: 4 },
        0x27 => Entry { op: Operation::Shift(ByteDescriptor::A, Direction::Left, false), cycles: 2, taken: 2 },
        0x28 => Entry { op: Operation::Shift(ByteDescriptor::B, Direction::Right, false), cycles: 2, taken: 2 },
        0x29 => Entry { op: Operation::Shift(ByteDescriptor::C, Direction::Right, false), cycles: 2, taken: 2 },
        0x2A => Entry { op: Operation::Shift(ByteDescriptor::D, Direction::Right, false), cycles: 2, taken: 2 },
        0x2B => Entry { op: Operation::Shift(ByteDescriptor::E, Direction::Right, false), cycles: 2, taken: 2 },
        0x2C => Entry { op: Operation::Shift(ByteDescriptor::H, Direction::Right, false), cycles: 2, taken: 2 },
        0x2D => Entry { op: Operation::Shift(ByteDescriptor::L, Direction::Right, false), cycles: 2, taken: 2 },
        0x2E => Entry { op: Operation::Shift(ByteDescriptor::HL, Direction::Right, false), cycles: 4, taken: 4 },
        0x2F => Entry { op: Operation::Shift(ByteDescriptor::A, Direction::Right, false), cycles: 2, taken: 2 },
        0x30 => Entry { op: Operation::Swap(ByteDescriptor::B), cycles: 2, taken: 2 },
        0x31 => Entry { op: Operation::Swap(ByteDescriptor::C), cycles: 2, taken: 2 },
        0x32 => Entry { op: Operation::Swap(ByteDescriptor::D), cycles: 2, taken: 2 },
        0x33 => Entry { op: Operation::Swap(ByteDescriptor::E), cycles: 2, taken: 2 },
        0x34 => Entry { op: Operation::Swap(ByteDescriptor::H), cycles: 2, taken: 2 },
        0x35 => Entry { op: Operation::Swap(ByteDescriptor::L), cycles: 2, taken: 2 },
        0x36 => Entry { op: Operation::Swap(ByteDescriptor::HL), cycles: 4, taken: 4 },
        0x37 => Entry { op: Operation::Swap(ByteDescriptor::A), cycles: 2, taken: 2 },
        0x38 => Entry { op: Operation::Shift(ByteDescriptor::B, Direction::Right, true), cycles: 2, taken: 2 },
        0x39 => Entry { op: Operation::Shift(ByteDescriptor::C, Direction::Right, true), cycles: 2, taken: 2 },
        0x3A => Entry { op: Operation::Shift(ByteDescriptor::D, Direction::Right, true), cycles: 2, taken: 2 },
        0x3B => Entry { op: Operation::Shift(ByteDescriptor::E, Direction::Right, true), cycles: 2, taken: 2 },
        0x3C => Entry { op: Operation::Shift(ByteDescriptor::H, Direction::Right, true), cycles: 2, taken: 2 },
        0x3D => Entry { op: Operation::Shift(ByteDescriptor::L, Direction::Right, true), cycles: 2, taken: 2 },
        0x3E => Entry { op: Operation::Shift(ByteDescriptor::HL, Direction::Right, true), cycles: 4, taken: 4 },
        0x3F => Entry { op: Operation::Shift(ByteDescriptor::A, Direction::Right, true), cycles: 2, taken: 2 },
        0x40 => Entry { op: Operation::TestBit(ByteDescriptor::B, 0), cycles: 2, taken: 2 },
        0x41 => Entry { op: Operation::TestBit(ByteDescriptor::C, 0), cycles: 2, taken: 2 },
        0x42 => Entry { op: Operation::TestBit(ByteDescriptor::D, 0), cycles: 2, taken: 2 },
        0x43 => Entry { op: Operation::TestBit(ByteDescriptor::E, 0), cycles: 2, taken: 2 },
        0x44 => Entry { op: Operation::TestBit(ByteDescriptor::H, 0), cycles: 2, taken: 2 },
        0x45 => Entry { op: Operation::TestBit(ByteDescriptor::L, 0), cycles: 2, taken: 2 },
        0x46 => Entry { op: Operation::TestBit(ByteDescriptor::HL, 0), cycles: 3, taken: 3 },
        0x47 => Entry { op: Operation::TestBit(ByteDescriptor::A, 0), cycles: 2, taken: 2 },
        0x48 => Entry { op: Operation::TestBit(ByteDescriptor::B, 1), cycles: 2, taken: 2 },
        0x49 => Entry { op: Operation::TestBit(ByteDescriptor::C, 1), cycles: 2, taken: 2 },
        0x4A => Entry { op: Operation::TestBit(ByteDescriptor::D, 1), cycles: 2, taken: 2 },
        0x4B => Entry { op: Operation::TestBit(ByteDescriptor::E, 1), cycles: 2, taken: 2 },
        0x4C => Entry { op: Operation::TestBit(ByteDescriptor::H, 1), cycles: 2, taken: 2 },
        0x4D => Entry { op: Operation::TestBit(ByteDescriptor::L, 1), cycles: 2, taken: 2 },
        0x4E => Entry { op: Operation::TestBit(ByteDescriptor::HL, 1), cycles: 3, taken: 3 },
        0x4F => Entry { op: Operation::TestBit(ByteDescriptor::A, 1), cycles: 2, taken: 2 },
        0x50 => Entry { op: Operation::TestBit(ByteDescriptor::B, 2), cycles: 2, taken: 2 },
        0x51 => Entry { op: Operation::TestBit(ByteDescriptor::C, 2), cycles: 2, taken: 2 },
        0x52 => Entry { op: Operation::TestBit(ByteDescriptor::D, 2), cycles: 2, taken: 2 },
        0x53 => Entry { op: Operation::TestBit(ByteDescriptor::E, 2), cycles: 2, taken: 2 },
        0x54 => Entry { op: Operation::TestBit(ByteDescriptor::H, 2), cycles: 2, taken: 2 },
        0x55 => Entry { op: Operation::TestBit(ByteDescriptor::L, 2), cycles: 2, taken: 2 },
        0x56 => Entry { op: Operation::TestBit(ByteDescriptor::HL, 2), cycles: 3, taken: 3 },
        0x57 => Entry { op: Operation::TestBit(ByteDescriptor::A, 2), cycles: 2, taken: 2 },
        0x58 => Entry { op: Operation::TestBit(ByteDescriptor::B, 3), cycles: 2, taken: 2 },
        0x59 => Entry { op: Operation::TestBit(ByteDescriptor::C, 3), cycles: 2, taken: 2 },
        0x5A => Entry { op: Operation::TestBit(ByteDescriptor::D, 3), cycles: 2, taken: 2 },
        0x5B => Entry { op: Operation::TestBit(ByteDescriptor::E, 3), cycles: 2, taken: 2 },
        0x5C => Entry { op: Operation::TestBit(ByteDescriptor::H, 3), cycles: 2, taken: 2 },
        0x5D => Entry { op: Operation::TestBit(ByteDescriptor::L, 3), cycles: 2, taken: 2 },
        0x5E => Entry { op: Operation::TestBit(ByteDescriptor::HL, 3), cycles: 3, taken: 3 },
        0x5F => Entry { op: Operation::TestBit(ByteDescriptor::A, 3), cycles: 2, taken: 2 },
        0x60 => Entry { op: Operation::TestBit(ByteDescriptor::B, 4), cycles: 2, taken: 2 },
        0x61 => Entry { op: Operation::TestBit(ByteDescriptor::C, 4), cycles: 2, taken: 2 },
        0x62 => Entry { op: Operation::TestBit(ByteDescriptor::D, 4), cycles: 2, taken: 2 },
        0x63 => Entry { op: Operation::TestBit(ByteDescriptor::E, 4), cycles: 2, taken: 2 },
        0x64 => Entry { op: Operation::TestBit(ByteDescriptor::H, 4), cycles: 2, taken: 2 },
        0x65 => Entry { op: Operation::TestBit(ByteDescriptor::L, 4), cycles: 2, taken: 2 },
        0x66 => Entry { op: Operation::TestBit(ByteDescriptor::HL, 4), cycles: 3, taken: 3 },
        0x67 => Entry { op: Operation::TestBit(ByteDescriptor::A, 4), cycles: 2, taken: 2 },
        0x68 => Entry { op: Operation::TestBit(ByteDescriptor::B, 5), cycles: 2, taken: 2 },
        0x69 => Entry { op: Operation::TestBit(ByteDescriptor::C, 5), cycles: 2, taken: 2 },
        0x6A => Entry { op: Operation::TestBit(ByteDescriptor::D, 5), cycles: 2, taken: 2 },
        0x6B => Entry { op: Operation::TestBit(ByteDescriptor::E, 5), cycles: 2, taken: 2 },
        0x6C => Entry { op: Operation::TestBit(ByteDescriptor::H, 5), cycles: 2, taken: 2 },
        0x6D => Entry { op: Operation::TestBit(ByteDescriptor::L, 5), cycles: 2, taken: 2 },
        0x6E => Entry { op: Operation::TestBit(ByteDescriptor::HL, 5), cycles: 3, taken: 3 },
        0x6F => Entry { op: Operation::TestBit(ByteDescriptor::A, 5), cycles: 2, taken: 2 },
        0x70 => Entry { op: Operation::TestBit(ByteDescriptor::B, 6), cycles: 2, taken: 2 },
        0x71 => Entry { op: Operation::TestBit(ByteDescriptor::C, 6), cycles: 2, taken: 2 },
        0x72 => Entry { op: Operation::TestBit(ByteDescriptor::D, 6), cycles: 2, taken: 2 },
        0x73 => Entry { op: Operation::TestBit(ByteDescriptor::E, 6), cycles: 2, taken: 2 },
        0x74 => Entry { op: Operation::TestBit(ByteDescriptor::H, 6), cycles: 2, taken: 2 },
        0x75 => Entry { op: Operation::TestBit(ByteDescriptor::L, 6), cycles: 2, taken: 2 },
        0x76 => Entry { op: Operation::TestBit(ByteDescriptor::HL, 6), cycles: 3, taken: 3 },
        0x77 => Entry { op: Operation::TestBit(ByteDescriptor::A, 6), cycles: 2, taken: 2 },
        0x78 => Entry { op: Operation::TestBit(ByteDescriptor::B, 7), cycles: 2, taken: 2 },
        0x79 => Entry { op: Operation::TestBit(ByteDescriptor::C, 7), cycles: 2, taken: 2 },
        0x7A => Entry { op: Operation::TestBit(ByteDescriptor::D, 7), cycles: 2, taken: 2 },
        0x7B => Entry { op: Operation::TestBit(ByteDescriptor::E, 7), cycles: 2, taken: 2 },
        0x7C => Entry { op: Operation::TestBit(ByteDescriptor::H, 7), cycles: 2, taken: 2 },
        0x7D => Entry { op: Operation::TestBit(ByteDescriptor::L, 7), cycles: 2, taken: 2 },
        0x7E => Entry { op: Operation::TestBit(ByteDescriptor::HL, 7), cycles: 3, taken: 3 },
        0x7F => Entry { op: Operation::TestBit(ByteDescriptor::A, 7), cycles: 2, taken: 2 },
        0x80 => Entry { op: Operation::ClearBit(ByteDescriptor::B, 0), cycles: 2, taken: 2 },
        0x81 => Entry { op: Operation::ClearBit(ByteDescriptor::C, 0), cycles: 2, taken: 2 },
        0x82 => Entry { op: Operation::ClearBit(ByteDescriptor::D, 0), cycles: 2, taken: 2 },
        0x83 => Entry { op: Operation::ClearBit(ByteDescriptor::E, 0), cycles: 2, taken: 2 },
        0x84 => Entry { op: Operation::ClearBit(ByteDescriptor::H, 0), cycles: 2, taken: 2 },
        0x85 => Entry { op: Operation::ClearBit(ByteDescriptor::L, 0), cycles: 2, taken: 2 },
        0x86 => Entry { op: Operation::ClearBit(ByteDescriptor::HL, 0), cycles: 4, taken: 4 },
        0x87 => Entry { op: Operation::ClearBit(ByteDescriptor::A, 0), cycles: 2, taken: 2 },
        0x88 => Entry { op: Operation::ClearBit(ByteDescriptor::B, 1), cycles: 2, taken: 2 },
        0x89 => Entry { op: Operation::ClearBit(ByteDescriptor::C, 1), cycles: 2, taken: 2 },
        0x8A => Entry { op: Operation::ClearBit(ByteDescriptor::D, 1), cycles: 2, taken: 2 },
        0x8B => Entry { op: Operation::ClearBit(ByteDescriptor::E, 1), cycles: 2, taken: 2 },
        0x8C => Entry { op: Operation::ClearBit(ByteDescriptor::H, 1), cycles: 2, taken: 2 },
        0x8D => Entry { op: Operation::ClearBit(ByteDescriptor::L, 1), cycles: 2, taken: 2 },
        0x8E => Entry { op: Operation::ClearBit(ByteDescriptor::HL, 1), cycles: 4, taken: 4 },
        0x8F => Entry { op: Operation::ClearBit(ByteDescriptor::A, 1), cycles: 2, taken: 2 },
        0x90 => Entry { op: Operation::ClearBit(ByteDescriptor::B, 2), cycles: 2, taken: 2 },
        0x91 => Entry { op: Operation::ClearBit(ByteDescriptor::C, 2), cycles: 2, taken: 2 },
        0x92 => Entry { op: Operation::ClearBit(ByteDescriptor::D, 2), cycles: 2, taken: 2 },
        0x93 => Entry { op: Operation::ClearBit(ByteDescriptor::E, 2), cycles: 2, taken: 2 },
        0x94 => Entry { op: Operation::ClearBit(ByteDescriptor::H, 2), cycles: 2, taken: 2 },
        0x95 => Entry { op: Operation::ClearBit(ByteDescriptor::L, 2), cycles: 2, taken: 2 },
        0x96 => Entry { op: Operation::ClearBit(ByteDescriptor::HL, 2), cycles: 4, taken: 4 },
        0x97 => Entry { op: Operation::ClearBit(ByteDescriptor::A, 2), cycles: 2, taken: 2 },
        0x98 => Entry { op: Operation::ClearBit(ByteDescriptor::B, 3), cycles: 2, taken: 2 },
        0x99 => Entry { op: Operation::ClearBit(ByteDescriptor::C, 3), cycles: 2, taken: 2 },
        0x9A => Entry { op: Operation::ClearBit(ByteDescriptor::D, 3), cycles: 2, taken: 2 },
        0x9B => Entry { op: Operation::ClearBit(ByteDescriptor::E, 3), cycles: 2, taken: 2 },
        0x9C => Entry { op: Operation::ClearBit(ByteDescriptor::H, 3), cycles: 2, taken: 2 },
        0x9D => Entry { op: Operation::ClearBit(ByteDescriptor::L, 3), cycles: 2, taken: 2 },
        0x9E => Entry { op: Operation::ClearBit(ByteDescriptor::HL, 3), cycles: 4, taken: 4 },
        0x9F => Entry { op: Operation::ClearBit(ByteDescriptor::A, 3), cycles: 2, taken: 2 },
        0xA0 => Entry { op: Operation::ClearBit(ByteDescriptor::B, 4), cycles: 2, taken: 2 },
        0xA1 => Entry { op: Operation::ClearBit(ByteDescriptor::C, 4), cycles: 2, taken: 2 },
        0xA2 => Entry { op: Operation::ClearBit(ByteDescriptor::D, 4), cycles: 2, taken: 2 },
        0xA3 => Entry { op: Operation::ClearBit(ByteDescriptor::E, 4), cycles: 2, taken: 2 },
        0xA4 => Entry { op: Operation::ClearBit(ByteDescriptor::H, 4), cycles: 2, taken: 2 },
        0xA5 => Entry { op: Operation::ClearBit(ByteDescriptor::L, 4), cycles: 2, taken: 2 },
        0xA6 => Entry { op: Operation::ClearBit(ByteDescriptor::HL, 4), cycles: 4, taken: 4 },
        0xA7 => Entry { op: Operation::ClearBit(ByteDescriptor::A, 4), cycles: 2, taken: 2 },
        0xA8 => Entry { op: Operation::ClearBit(ByteDescriptor::B, 5), cycles: 2, taken: 2 },
        0xA9 => Entry { op: Operation::ClearBit(ByteDescriptor::C, 5), cycles: 2, taken: 2 },
        0xAA => Entry { op: Operation::ClearBit(ByteDescriptor::D, 5), cycles: 2, taken: 2 },
        0xAB => Entry { op: Operation::ClearBit(ByteDescriptor::E, 5), cycles: 2, taken: 2 },
        0xAC => Entry { op: Operation::ClearBit(ByteDescriptor::H, 5), cycles: 2, taken: 2 },
        0xAD => Entry { op: Operation::ClearBit(ByteDescriptor::L, 5), cycles: 2, taken: 2 },
        0xAE => Entry { op: Operation::ClearBit(ByteDescriptor::HL, 5), cycles: 4, taken: 4 },
        0xAF => Entry { op: Operation::ClearBit(ByteDescriptor::A, 5), cycles: 2, taken: 2 },
        0xB0 => Entry { op: Operation::ClearBit(ByteDescriptor::B, 6), cycles: 2, taken: 2 },
        0xB1 => Entry { op: Operation::ClearBit(ByteDescriptor::C, 6), cycles: 2, taken: 2 },
        0xB2 => Entry { op: Operation::ClearBit(ByteDescriptor::D, 6), cycles: 2, taken: 2 },
        0xB3 => Entry { op: Operation::ClearBit(ByteDescriptor::E, 6), cycles: 2, taken: 2 },
        0xB4 => Entry { op: Operation::ClearBit(ByteDescriptor::H, 6), cycles: 2, taken: 2 },
        0xB5 => Entry { op: Operation::ClearBit(ByteDescriptor::L, 6), cycles: 2, taken: 2 },
        0xB6 => Entry { op: Operation::ClearBit(ByteDescriptor::HL, 6), cycles: 4, taken: 4 },
        0xB7 => Entry { op: Operation::ClearBit(ByteDescriptor::A, 6), cycles: 2, taken: 2 },
        0xB8 => Entry { op: Operation::ClearBit(ByteDescriptor::B, 7), cycles: 2, taken: 2 },
        0xB9 => Entry { op: Operation::ClearBit(ByteDescriptor::C, 7), cycles: 2, taken: 2 },
        0xBA => Entry { op: Operation::ClearBit(ByteDescriptor::D, 7), cycles: 2, taken: 2 },
        0xBB => Entry { op: Operation::ClearBit(ByteDescriptor::E, 7), cycles: 2, taken: 2 },
        0xBC => Entry { op: Operation::ClearBit(ByteDescriptor::H, 7), cycles: 2, taken: 2 },
        0xBD => Entry { op: Operation::ClearBit(ByteDescriptor::L, 7), cycles: 2, taken: 2 },
        0xBE => Entry { op: Operation::ClearBit(ByteDescriptor::HL, 7), cycles: 4, taken: 4 },
        0xBF => Entry { op: Operation::ClearBit(ByteDescriptor::A, 7), cycles: 2, taken: 2 },
        0xC0 => Entry { op: Operation::SetBit(ByteDescriptor::B, 0), cycles: 2, taken: 2 },
        0xC1 => Entry { op: Operation::SetBit(ByteDescriptor::C, 0), cycles: 2, taken: 2 },
        0xC2 => Entry { op: Operation::SetBit(ByteDescriptor::D, 0), cycles: 2, taken: 2 },
        0xC3 => Entry { op: Operation::SetBit(ByteDescriptor::E, 0), cycles: 2, taken: 2 },
        0xC4 => Entry { op: Operation::SetBit(ByteDescriptor::H, 0), cycles: 2, taken: 2 },
        0xC5 => Entry { op: Operation::SetBit(ByteDescriptor::L, 0), cycles: 2, taken: 2 },
        0xC6 => Entry { op: Operation::SetBit(ByteDescriptor::HL, 0), cycles: 4, taken: 4 },
        0xC7 => Entry { op: Operation::SetBit(ByteDescriptor::A, 0), cycles: 2, taken: 2 },
        0xC8 => Entry { op: Operation::SetBit(ByteDescriptor::B, 1), cycles: 2, taken: 2 },
        0xC9 => Entry { op: Operation::SetBit(ByteDescriptor::C, 1), cycles: 2, taken: 2 },
        0xCA => Entry { op: Operation::SetBit(ByteDescriptor::D, 1), cycles: 2, taken: 2 },
        0xCB => Entry { op: Operation::SetBit(ByteDescriptor::E, 1), cycles: 2, taken: 2 },
        0xCC => Entry { op: Operation::SetBit(ByteDescriptor::H, 1), cycles: 2, taken: 2 },
        0xCD => Entry { op: Operation::SetBit(ByteDescriptor::L, 1), cycles: 2, taken: 2 },
        0xCE => Entry { op: Operation::SetBit(ByteDescriptor::HL, 1), cycles: 4, taken: 4 },
        0xCF => Entry { op: Operation::SetBit(ByteDescriptor::A, 1), cycles: 2, taken: 2 },
        0xD0 => Entry { op: Operation::SetBit(ByteDescriptor::B, 2), cycles: 2, taken: 2 },
        0xD1 => Entry { op: Operation::SetBit(ByteDescriptor::C, 2), cycles: 2, taken: 2 },
        0xD2 => Entry { op: Operation::SetBit(ByteDescriptor::D, 2), cycles: 2, taken: 2 },
        0xD3 => Entry { op: Operation::SetBit(ByteDescriptor::E, 2), cycles: 2, taken: 2 },
        0xD4 => Entry { op: Operation::SetBit(ByteDescriptor::H, 2), cycles: 2, taken: 2 },
        0xD5 => Entry { op: Operation::SetBit(ByteDescriptor::L, 2), cycles: 2, taken: 2 },
        0xD6 => Entry { op: Operation::SetBit(ByteDescriptor::HL, 2), cycles: 4, taken: 4 },
        0xD7 => Entry { op: Operation::SetBit(ByteDescriptor::A, 2), cycles: 2, taken: 2 },
        0xD8 => Entry { op: Operation::SetBit(ByteDescriptor::B, 3), cycles: 2, taken: 2 },
        0xD9 => Entry { op: Operation::SetBit(ByteDescriptor::C, 3), cycles: 2, taken: 2 },
        0xDA => Entry { op: Operation::SetBit(ByteDescriptor::D, 3), cycles: 2, taken: 2 },
        0xDB => Entry { op: Operation::SetBit(ByteDescriptor::E, 3), cycles: 2, taken: 2 },
        0xDC => Entry { op: Operation::SetBit(ByteDescriptor::H, 3), cycles: 2, taken: 2 },
        0xDD => Entry { op: Operation::SetBit(ByteDescriptor::L, 3), cycles: 2, taken: 2 },
        0xDE => Entry { op: Operation::SetBit(ByteDescriptor::HL, 3), cycles: 4, taken: 4 },
        0xDF => Entry { op: Operation::SetBit(ByteDescriptor::A, 3), cycles: 2, taken: 2 },
        0xE0 => Entry { op: Operation::SetBit(ByteDescriptor::B, 4), cycles: 2, taken: 2 },
        0xE1 => Entry { op: Operation::SetBit(ByteDescriptor::C, 4), cycles: 2, taken: 2 },
        0xE2 => Entry { op: Operation::SetBit(ByteDescriptor::D, 4), cycles: 2, taken: 2 },
        0xE3 => Entry { op: Operation::SetBit(ByteDescriptor::E, 4), cycles: 2, taken: 2 },
        0xE4 => Entry { op: Operation::SetBit(ByteDescriptor::H, 4), cycles: 2, taken: 2 },
        0xE5 => Entry { op: Operation::SetBit(ByteDescriptor::L, 4), cycles: 2, taken: 2 },
        0xE6 => Entry { op: Operation::SetBit(ByteDescriptor::HL, 4), cycles: 4, taken: 4 },
        0xE7 => Entry { op: Operation::SetBit(ByteDescriptor::A, 4), cycles: 2, taken: 2 },
        0xE8 => Entry { op: Operation::SetBit(ByteDescriptor::B, 5), cycles: 2, taken: 2 },
        0xE9 => Entry { op: Operation::SetBit(ByteDescriptor::C, 5), cycles: 2, taken: 2 },
        0xEA => Entry { op: Operation::SetBit(ByteDescriptor::D, 5), cycles: 2, taken: 2 },
        0xEB => Entry { op: Operation::SetBit(ByteDescriptor::E, 5), cycles: 2, taken: 2 },
        0xEC => Entry { op: Operation::SetBit(ByteDescriptor::H, 5), cycles: 2, taken: 2 },
        0xED => Entry { op: Operation::SetBit(ByteDescriptor::L, 5), cycles: 2, taken: 2 },
        0xEE => Entry { op: Operation::SetBit(ByteDescriptor::HL, 5), cycles: 4, taken: 4 },
        0xEF => Entry { op: Operation::SetBit(ByteDescriptor::A, 5), cycles: 2, taken: 2 },
        0xF0 => Entry { op: Operation::SetBit(ByteDescriptor::B, 6), cycles: 2, taken: 2 },
        0xF1 => Entry { op: Operation::SetBit(ByteDescriptor::C, 6), cycles: 2, taken: 2 },
        0xF2 => Entry { op: Operation::SetBit(ByteDescriptor::D, 6), cycles: 2, taken: 2 },
        0xF3 => Entry { op: Operation::SetBit(ByteDescriptor::E, 6), cycles: 2, taken: 2 },
        0xF4 => Entry { op: Operation::SetBit(ByteDescriptor::H, 6), cycles: 2, taken: 2 },
        0xF5 => Entry { op: Operation::SetBit(ByteDescriptor::L, 6), cycles: 2, taken: 2 },
        0xF6 => Entry { op: Operation::SetBit(ByteDescriptor::HL, 6), cycles: 4, taken: 4 },
        0xF7 => Entry { op: Operation::SetBit(ByteDescriptor::A, 6), cycles: 2, taken: 2 },
        0xF8 => Entry { op: Operation::SetBit(ByteDescriptor::B, 7), cycles: 2, taken: 2 },
        0xF9 => Entry { op: Operation::SetBit(ByteDescriptor::C, 7), cycles: 2, taken: 2 },
        0xFA => Entry { op: Operation::SetBit(ByteDescriptor::D, 7), cycles: 2, taken: 2 },
        0xFB => Entry { op: Operation::SetBit(ByteDescriptor::E, 7), cycles: 2, taken: 2 },
        0xFC => Entry { op: Operation::SetBit(ByteDescriptor::H, 7), cycles: 2, taken: 2 },
        0xFD => Entry { op: Operation::SetBit(ByteDescriptor::L, 7), cycles: 2, taken: 2 },
        0xFE => Entry { op: Operation::SetBit(ByteDescriptor::HL, 7), cycles: 4, taken: 4 },
        0xFF => Entry { op: Operation::SetBit(ByteDescriptor::A, 7), cycles: 2, taken: 2 },
    }
}

} // verus!
