//! The arithmetic of the instruction set, on plain values: what each
//! operation computes and which carries it reports.

use vstd::prelude::*;
use crate::cpu::Direction;

verus! {

/// 1 for a carry that is taken into account, else 0.
pub open spec fn carry_in(with_carry: bool, carry: bool) -> int {
    if with_carry && carry {
        1
    } else {
        0
    }
}

/// The sum of two bytes and a carry: the result modulo 256, the carry out of
/// bit 3 and the carry out of bit 7.
pub open spec fn add8_spec(a: u8, v: u8, c: int) -> (u8, bool, bool) {
    (((a + v + c) % 256) as u8, a % 16 + v % 16 + c > 15, a + v + c > 255)
}

/// The difference of two bytes, less a borrow: the result modulo 256, the
/// borrow into bit 3 and the borrow into bit 7.
pub open spec fn sub8_spec(a: u8, v: u8, c: int) -> (u8, bool, bool) {
    (((a - v - c) % 256) as u8, a % 16 < v % 16 + c, a < v + c)
}

/// The sum of two words: the result modulo 65536, the carry out of bit 11
/// and the carry out of bit 15.
pub open spec fn add16_spec(x: u16, v: u16) -> (u16, bool, bool) {
    (((x + v) % 0x10000) as u16, x % 0x1000 + v % 0x1000 > 0xFFF, x + v > 0xFFFF)
}

/// A word moved by a signed byte. Forwards, the carries are those out of
/// bit 3 and bit 15 of the sum. Backwards, the second component says that the
/// low nibble did not grow, and the third that the word wrapped below zero.
pub open spec fn offset_spec(x: u16, offset: u8) -> (u16, bool, bool) {
    if offset < 128 {
        (((x + offset) % 0x10000) as u16, x % 16 + offset % 16 > 15, x + offset > 0xFFFF)
    } else {
        let m = 256 - offset;
        let r = (x - m) % 0x10000;
        (r as u16, r % 16 <= x % 16, x < m)
    }
}

/// The target of a relative jump from `pc`: forwards by the offset, or, for
/// an offset with its sign bit set, backwards by one more than its
/// magnitude; modulo 65536.
pub open spec fn jump_spec(pc: u16, offset: u8) -> u16 {
    if offset < 128 {
        ((pc + offset) % 0x10000) as u16
    } else {
        ((pc - (256 - offset) - 1) % 0x10000) as u16
    }
}

/// A rotation by one bit: the result and the bit that left the byte. The bit
/// that enters is the old carry when `with_carry` holds, else the bit that
/// left.
pub open spec fn rotate_spec(v: u8, direction: Direction, with_carry: bool, carry: bool) -> (u8, bool) {
    match direction {
        Direction::Left => {
            let out = v >= 128;
            let enters = if with_carry {
                carry
            } else {
                out
            };
            (((v % 128) * 2 + (if enters {
                1int
            } else {
                0
            })) as u8, out)
        },
        Direction::Right => {
            let out = v % 2 == 1;
            let enters = if with_carry {
                carry
            } else {
                out
            };
            ((v / 2 + (if enters {
                128int
            } else {
                0
            })) as u8, out)
        },
    }
}

/// A shift by one bit: the result and the bit that left the byte. To the
/// right, an arithmetic shift keeps the top bit as it was.
pub open spec fn shift_spec(v: u8, direction: Direction, arithmetic: bool) -> (u8, bool) {
    match direction {
        Direction::Left => (((v % 128) * 2) as u8, v >= 128),
        Direction::Right => ((v / 2 + (if arithmetic && v >= 128 {
            128int
        } else {
            0
        })) as u8, v % 2 == 1),
    }
}

/// The decimal adjustment of an accumulator after an addition or a
/// subtraction of packed decimals: the adjusted byte and the new carry.
pub open spec fn daa_spec(a: u8, subtract: bool, half_carry: bool, carry: bool) -> (u8, bool) {
    if subtract {
        let v1 = if carry {
            (a - 0x60) % 256
        } else {
            a as int
        };
        let v2 = if half_carry {
            (v1 - 0x06) % 256
        } else {
            v1
        };
        (v2 as u8, carry)
    } else {
        let high = carry || a > 0x99;
        let v1 = if high {
            (a + 0x60) % 256
        } else {
            a as int
        };
        let v2 = if half_carry || v1 % 16 > 9 {
            (v1 + 0x06) % 256
        } else {
            v1
        };
        (v2 as u8, high)
    }
}

/// Adds with the half carry found as bit 4 of `a ^ v ^ result`.
pub fn add8(a: u8, v: u8, carry: bool) -> (r: (u8, bool, bool))
    ensures
        r == add8_spec(a, v, if carry { 1 } else { 0 }),
{
    let c: u16 = if carry {
        1
    } else {
        0
    };
    let x: u16 = a as u16;
    let y: u16 = v as u16;
    let sum: u16 = x + y + c;
    let result: u16 = sum % 256;
    assert(((x ^ y ^ result) & 0x10 != 0) == (x % 16 + y % 16 + c > 15)) by (bit_vector)
        requires
            c <= 1,
            x < 256,
            y < 256,
            result == ((x + y + c) as u16) % 256,
    ;
    (result as u8, (x ^ y ^ result) & 0x10 != 0, sum > 0xFF)
}

/// Subtracts with the half carry found as bit 4 of `a ^ v ^ result`.
pub fn sub8(a: u8, v: u8, carry: bool) -> (r: (u8, bool, bool))
    ensures
        r == sub8_spec(a, v, if carry { 1 } else { 0 }),
{
    let c: u16 = if carry {
        1
    } else {
        0
    };
    let x: u16 = a as u16;
    let y: u16 = v as u16;
    let difference: u16 = 0x100 + x - y - c;
    let result: u16 = difference % 256;
    assert(((x ^ y ^ result) & 0x10 != 0) == (x % 16 < y % 16 + c)) by (bit_vector)
        requires
            c <= 1,
            x < 256,
            y < 256,
            result == (0x100 + x - y - c) as u16 % 256,
    ;
    (result as u8, (x ^ y ^ result) & 0x10 != 0, difference < 0x100)
}

/// Adds two words with the half carry found as bit 12 of `x ^ v ^ result`.
pub fn add16(x: u16, v: u16) -> (r: (u16, bool, bool))
    ensures
        r == add16_spec(x, v),
{
    let a: u32 = x as u32;
    let b: u32 = v as u32;
    let sum: u32 = a + b;
    let result: u32 = sum % 0x10000;
    assert(((a ^ b ^ result) & 0x1000 != 0) == (a % 0x1000 + b % 0x1000 > 0xFFF)) by (bit_vector)
        requires
            a < 0x10000,
            b < 0x10000,
            result == ((a + b) as u32) % 0x10000,
    ;
    (result as u16, (a ^ b ^ result) & 0x1000 != 0, sum > 0xFFFF)
}

/// Moves a word by a signed byte.
pub fn offset16(x: u16, offset: u8) -> (r: (u16, bool, bool))
    ensures
        r == offset_spec(x, offset),
{
    let a: u32 = x as u32;
    if offset < 128 {
        let b: u32 = offset as u32;
        let sum: u32 = a + b;
        let result: u32 = sum % 0x10000;
        assert(((a ^ b ^ result) & 0x10 != 0) == (a % 16 + b % 16 > 15)) by (bit_vector)
            requires
                a < 0x10000,
                b < 128,
                result == ((a + b) as u32) % 0x10000,
        ;
        (result as u16, (a ^ b ^ result) & 0x10 != 0, sum > 0xFFFF)
    } else {
        let m: u32 = 256 - offset as u32;
        let difference: u32 = 0x10000 + a - m;
        let result: u32 = difference % 0x10000;
        (result as u16, result % 16 <= a % 16, difference < 0x10000)
    }
}

/// The target of a relative jump.
pub fn jump16(pc: u16, offset: u8) -> (r: u16)
    ensures
        r == jump_spec(pc, offset),
{
    if offset < 128 {
        ((pc as u32 + offset as u32) % 0x10000) as u16
    } else {
        ((0x10000 + pc as u32 - (256 - offset as u32) - 1) % 0x10000) as u16
    }
}

pub fn rotate8(v: u8, direction: Direction, with_carry: bool, carry: bool) -> (r: (u8, bool))
    ensures
        r == rotate_spec(v, direction, with_carry, carry),
{
    match direction {
        Direction::Left => {
            let out = v >= 128;
            let enters = if with_carry {
                carry
            } else {
                out
            };
            let shifted: u8 = (v % 128) * 2;
            (if enters {
                shifted + 1
            } else {
                shifted
            }, out)
        },
        Direction::Right => {
            let out = v % 2 == 1;
            let enters = if with_carry {
                carry
            } else {
                out
            };
            let shifted: u8 = v / 2;
            (if enters {
                shifted + 128
            } else {
                shifted
            }, out)
        },
    }
}

pub fn shift8(v: u8, direction: Direction, arithmetic: bool) -> (r: (u8, bool))
    ensures
        r == shift_spec(v, direction, arithmetic),
{
    match direction {
        Direction::Left => ((v % 128) * 2, v >= 128),
        Direction::Right => (if arithmetic && v >= 128 {
            v / 2 + 128
        } else {
            v / 2
        }, v % 2 == 1),
    }
}

pub fn daa8(a: u8, subtract: bool, half_carry: bool, carry: bool) -> (r: (u8, bool))
    ensures
        r == daa_spec(a, subtract, half_carry, carry),
{
    let mut value: u16 = a as u16;
    let mut high = carry;
    if subtract {
        if carry {
            value = (value + 0x100 - 0x60) % 256;
        }
        if half_carry {
            value = (value + 0x100 - 0x06) % 256;
        }
    } else {
        if carry || value > 0x99 {
            value = (value + 0x60) % 256;
            high = true;
        }
        if half_carry || value % 16 > 9 {
            value = (value + 0x06) % 256;
        }
    }
    (value as u8, high)
}

/// Adding a byte and then taking it away again gives the first byte back.
pub proof fn law_add_sub_round_trip(a: u8, v: u8)
    ensures
        sub8_spec(add8_spec(a, v, 0).0, v, 0).0 == a,
{
}

/// The sum of two decimal digits, adjusted, is their sum in packed decimal,
/// with no carry and no half carry to report.
pub proof fn law_daa_digits(a: u8, b: u8)
    requires
        a <= 9,
        b <= 9,
    ensures
        ({
            let sum = add8_spec(a, b, 0);
            let adjusted = daa_spec(sum.0, false, sum.1, sum.2);
            &&& adjusted.0 == ((a + b) / 10) * 16 + (a + b) % 10
            &&& !adjusted.1
        }),
{
}

} // verus!
