//! The four condition flags, kept in the high nibble of the F register.

use vstd::prelude::*;
use crate::text::string_of;

verus! {

#[derive(Clone, Copy, Debug, PartialEq, Eq, Structural)]
pub enum Flag {
    Zero,
    Subtract,
    HalfCarry,
    Carry,
}

/// The four flags as truth values.
pub struct Flags {
    pub zero: bool,
    pub subtract: bool,
    pub half_carry: bool,
    pub carry: bool,
}

impl Flags {
    pub open spec fn get(self, flag: Flag) -> bool {
        match flag {
            Flag::Zero => self.zero,
            Flag::Subtract => self.subtract,
            Flag::HalfCarry => self.half_carry,
            Flag::Carry => self.carry,
        }
    }

    pub open spec fn with(self, flag: Flag, value: bool) -> Flags {
        match flag {
            Flag::Zero => Flags { zero: value, ..self },
            Flag::Subtract => Flags { subtract: value, ..self },
            Flag::HalfCarry => Flags { half_carry: value, ..self },
            Flag::Carry => Flags { carry: value, ..self },
        }
    }

    pub open spec fn none() -> Flags {
        Flags { zero: false, subtract: false, half_carry: false, carry: false }
    }
}

/// The flags that a value of the F register holds. Its low nibble holds
/// nothing.
pub open spec fn unpack(f: u8) -> Flags {
    Flags {
        zero: f & 0x80 != 0,
        subtract: f & 0x40 != 0,
        half_carry: f & 0x20 != 0,
        carry: f & 0x10 != 0,
    }
}

/// The value of the F register that holds these flags.
pub open spec fn pack(flags: Flags) -> u8 {
    ((if flags.zero {
        0x80int
    } else {
        0
    }) + (if flags.subtract {
        0x40int
    } else {
        0
    }) + (if flags.half_carry {
        0x20int
    } else {
        0
    }) + (if flags.carry {
        0x10int
    } else {
        0
    })) as u8
}

/// A value of F with an empty low nibble is the packing of the flags it
/// holds.
pub proof fn lemma_pack_unpack(f: u8)
    requires
        f & 0x0F == 0,
    ensures
        pack(unpack(f)) == f,
{
    assert(f == (if f & 0x80 != 0 {
        0x80u8
    } else {
        0
    }) + (if f & 0x40 != 0 {
        0x40u8
    } else {
        0
    }) + (if f & 0x20 != 0 {
        0x20u8
    } else {
        0
    }) + (if f & 0x10 != 0 {
        0x10u8
    } else {
        0
    })) by (bit_vector)
        requires
            f & 0x0F == 0,
    ;
}

/// Packing flags and unpacking them gives them back, and leaves the low
/// nibble empty.
pub proof fn lemma_unpack_pack(flags: Flags)
    ensures
        unpack(pack(flags)) == flags,
        pack(flags) & 0x0F == 0,
{
    let f = pack(flags);
    let z = flags.zero;
    let n = flags.subtract;
    let h = flags.half_carry;
    let c = flags.carry;
    assert(f & 0x0F == 0 && (f & 0x80 != 0) == z && (f & 0x40 != 0) == n && (f & 0x20 != 0) == h && (f & 0x10 != 0)
        == c) by (bit_vector)
        requires
            f == (if z {
                0x80u8
            } else {
                0
            }) + (if n {
                0x40u8
            } else {
                0
            }) + (if h {
                0x20u8
            } else {
                0
            }) + (if c {
                0x10u8
            } else {
                0
            }),
    ;
}

/// Unpacking looks at the high nibble only.
pub proof fn lemma_unpack_high_nibble(f: u8)
    ensures
        unpack(f & 0xF0) == unpack(f),
        (f & 0xF0) & 0x0F == 0,
{
    assert((f & 0xF0) & 0x80 == f & 0x80 && (f & 0xF0) & 0x40 == f & 0x40 && (f & 0xF0) & 0x20 == f & 0x20 && (f
        & 0xF0) & 0x10 == f & 0x10 && (f & 0xF0) & 0x0F == 0) by (bit_vector);
}

impl Flag {
    /// The flag's bit in the F register.
    pub open spec fn mask(self) -> u8 {
        match self {
            Flag::Zero => 0x80,
            Flag::Subtract => 0x40,
            Flag::HalfCarry => 0x20,
            Flag::Carry => 0x10,
        }
    }

    pub fn bit(self) -> (r: u8)
        ensures
            r == self.mask(),
    {
        match self {
            Flag::Zero => 0x80,
            Flag::Subtract => 0x40,
            Flag::HalfCarry => 0x20,
            Flag::Carry => 0x10,
        }
    }

    /// Sets one flag and leaves the rest of the register as it is.
    pub fn set(flags: &mut u8, flag: Flag)
        ensures
            unpack(*final(flags)) == unpack(*old(flags)).with(flag, true),
            *final(flags) & 0x0F == *old(flags) & 0x0F,
    {
        let m = flag.bit();
        let f = *flags;
        assert(((f | m) & m != 0) && (m != 0x80 ==> (f | m) & 0x80 == f & 0x80) && (m != 0x40 ==> (f | m) & 0x40 == f
            & 0x40) && (m != 0x20 ==> (f | m) & 0x20 == f & 0x20) && (m != 0x10 ==> (f | m) & 0x10 == f & 0x10)
            && (f | m) & 0x0F == f & 0x0F) by (bit_vector)
            requires
                m == 0x80 || m == 0x40 || m == 0x20 || m == 0x10,
        ;
        *flags = f | m;
    }

    /// Clears one flag and leaves the rest of the register as it is.
    pub fn clear(flags: &mut u8, flag: Flag)
        ensures
            unpack(*final(flags)) == unpack(*old(flags)).with(flag, false),
            *final(flags) & 0x0F == *old(flags) & 0x0F,
    {
        let m = flag.bit();
        let f = *flags;
        assert(((f & !m) & m == 0) && (m != 0x80 ==> (f & !m) & 0x80 == f & 0x80) && (m != 0x40 ==> (f & !m) & 0x40
            == f & 0x40) && (m != 0x20 ==> (f & !m) & 0x20 == f & 0x20) && (m != 0x10 ==> (f & !m) & 0x10 == f
            & 0x10) && (f & !m) & 0x0F == f & 0x0F) by (bit_vector)
            requires
                m == 0x80 || m == 0x40 || m == 0x20 || m == 0x10,
        ;
        *flags = f & !m;
    }

    pub fn test(flags: &u8, flag: Flag) -> (r: bool)
        ensures
            r == unpack(*flags).get(flag),
    {
        *flags & flag.bit() != 0
    }
}


/// The flags in four characters: a letter for each flag that is set, in the
/// order Z, N, H, C, and a dash for each that is not.
pub open spec fn flags_text(flags: Flags) -> Seq<char> {
    seq![
        if flags.zero {
            'Z'
        } else {
            '-'
        },
        if flags.subtract {
            'N'
        } else {
            '-'
        },
        if flags.half_carry {
            'H'
        } else {
            '-'
        },
        if flags.carry {
            'C'
        } else {
            '-'
        },
    ]
}

impl Flag {
    /// Writes the flags of a value of the F register in four characters.
    pub fn fmt(flags: u8) -> (s: String)
        ensures
            s@ == flags_text(unpack(flags)),
    {
        let z = if Flag::test(&flags, Flag::Zero) {
            'Z'
        } else {
            '-'
        };
        let n = if Flag::test(&flags, Flag::Subtract) {
            'N'
        } else {
            '-'
        };
        let h = if Flag::test(&flags, Flag::HalfCarry) {
            'H'
        } else {
            '-'
        };
        let c = if Flag::test(&flags, Flag::Carry) {
            'C'
        } else {
            '-'
        };
        let out = vec![z, n, h, c];
        string_of(&out)
    }
}

} // verus!
