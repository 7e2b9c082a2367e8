//! Strings, which the library builds through the standard library.

use vstd::prelude::*;
use vstd::utf8::{decode_utf8, valid_utf8};

verus! {

/// `String::from_iter` of the standard library, over characters: the string
/// made of the characters in their order.
#[verifier::external_body]
pub(crate) fn string_of(chars: &Vec<char>) -> (s: String)
    ensures
        s@ == chars@,
{
    String::from_iter(chars.iter().copied())
}

/// `String::from_utf8` of the standard library: the string that some bytes
/// encode, if they are valid UTF-8, else nothing.
#[verifier::external_body]
pub(crate) fn string_from_utf8(bytes: Vec<u8>) -> (r: Option<String>)
    ensures
        match r {
            Some(s) => valid_utf8(bytes@) && s@ == decode_utf8(bytes@),
            None => !valid_utf8(bytes@),
        },
{
    match String::from_utf8(bytes) {
        Ok(s) => Some(s),
        Err(_) => None,
    }
}

/// The digit that stands for a number below 16 in hexadecimal, in upper
/// case.
pub open spec fn hex_digit(nibble: int) -> char {
    if nibble == 0 {
        '0'
    } else if nibble == 1 {
        '1'
    } else if nibble == 2 {
        '2'
    } else if nibble == 3 {
        '3'
    } else if nibble == 4 {
        '4'
    } else if nibble == 5 {
        '5'
    } else if nibble == 6 {
        '6'
    } else if nibble == 7 {
        '7'
    } else if nibble == 8 {
        '8'
    } else if nibble == 9 {
        '9'
    } else if nibble == 10 {
        'A'
    } else if nibble == 11 {
        'B'
    } else if nibble == 12 {
        'C'
    } else if nibble == 13 {
        'D'
    } else if nibble == 14 {
        'E'
    } else {
        'F'
    }
}

pub fn digit_of(nibble: u16) -> (c: char)
    ensures
        c == hex_digit(nibble as int),
{
    if nibble == 0 {
        '0'
    } else if nibble == 1 {
        '1'
    } else if nibble == 2 {
        '2'
    } else if nibble == 3 {
        '3'
    } else if nibble == 4 {
        '4'
    } else if nibble == 5 {
        '5'
    } else if nibble == 6 {
        '6'
    } else if nibble == 7 {
        '7'
    } else if nibble == 8 {
        '8'
    } else if nibble == 9 {
        '9'
    } else if nibble == 10 {
        'A'
    } else if nibble == 11 {
        'B'
    } else if nibble == 12 {
        'C'
    } else if nibble == 13 {
        'D'
    } else if nibble == 14 {
        'E'
    } else {
        'F'
    }
}

/// A word in four hexadecimal digits.
pub open spec fn hex_word(word: u16) -> Seq<char> {
    seq![
        hex_digit((word / 0x1000) as int),
        hex_digit(((word / 0x100) % 16) as int),
        hex_digit(((word / 0x10) % 16) as int),
        hex_digit((word % 16) as int),
    ]
}

/// Writes a word in four hexadecimal digits.
pub fn format_word(word: u16) -> (s: String)
    ensures
        s@ == hex_word(word),
{
    let chars = vec![
        digit_of(word / 0x1000),
        digit_of((word / 0x100) % 16),
        digit_of((word / 0x10) % 16),
        digit_of(word % 16),
    ];
    string_of(&chars)
}

/// The number that a hexadecimal digit stands for, in either case.
pub open spec fn digit_value(byte: u8) -> Option<int> {
    if 0x30 <= byte <= 0x39 {
        Some(byte - 0x30)
    } else if 0x41 <= byte <= 0x46 {
        Some(byte - 0x41 + 10)
    } else if 0x61 <= byte <= 0x66 {
        Some(byte - 0x61 + 10)
    } else {
        None
    }
}

/// Why some text is no word in hexadecimal.
#[derive(Clone, Copy, Debug, PartialEq, Eq, Structural)]
pub enum WordError {
    /// There is no text at all.
    Empty,
    /// A character that is no hexadecimal digit, or a sign without digits.
    InvalidDigit,
    /// A number above `0xFFFF`.
    TooLarge,
}

/// The number that the first `n` bytes stand for as hexadecimal digits, read
/// from the left. Reading ends at the first byte before which the number is
/// already too large to take another digit, or which is no digit.
pub open spec fn hex_value(bytes: Seq<u8>, n: nat) -> Result<int, WordError>
    decreases n,
{
    if n == 0 {
        Ok(0)
    } else {
        match hex_value(bytes, (n - 1) as nat) {
            Ok(v) => if v * 16 > 0xFFFF {
                Err(WordError::TooLarge)
            } else {
                match digit_value(bytes[n - 1]) {
                    Some(d) => Ok(v * 16 + d),
                    None => Err(WordError::InvalidDigit),
                }
            },
            Err(e) => Err(e),
        }
    }
}

/// Where reading has ended, more bytes change nothing.
pub proof fn lemma_hex_value_ends(bytes: Seq<u8>, n: nat, m: nat)
    requires
        n <= m,
        hex_value(bytes, n) is Err,
    ensures
        hex_value(bytes, m) == hex_value(bytes, n),
    decreases m,
{
    if n < m {
        lemma_hex_value_ends(bytes, n, (m - 1) as nat);
    }
}

/// The word that some text stands for in hexadecimal: one digit at least,
/// after an optional `+`, and no more than `0xFFFF`.
pub open spec fn parsed_word(bytes: Seq<u8>) -> Result<u16, WordError> {
    let digits = if bytes.len() > 0 && bytes[0] == 0x2B {
        bytes.drop_first()
    } else {
        bytes
    };
    if bytes.len() == 0 {
        Err(WordError::Empty)
    } else if digits.len() == 0 {
        Err(WordError::InvalidDigit)
    } else {
        match hex_value(digits, digits.len()) {
            Ok(v) => Ok(v as u16),
            Err(e) => Err(e),
        }
    }
}

/// Reads a word in hexadecimal.
pub fn parse_word(bytes: &[u8]) -> (r: Result<u16, WordError>)
    ensures
        r == parsed_word(bytes@),
{
    if bytes.len() == 0 {
        return Err(WordError::Empty);
    }
    let start: usize = if bytes[0] == 0x2B {
        1
    } else {
        0
    };
    let ghost digits = if start == 1 {
        bytes@.drop_first()
    } else {
        bytes@
    };
    if bytes.len() == start {
        return Err(WordError::InvalidDigit);
    }
    let mut value: u32 = 0;
    let mut i: usize = start;
    while i < bytes.len()
        invariant
            start <= i <= bytes.len(),
            start <= 1,
            bytes.len() > 0,
            digits == (if bytes@.len() > 0 && bytes@[0] == 0x2B {
                bytes@.drop_first()
            } else {
                bytes@
            }),
            digits.len() == bytes.len() - start,
            forall|k: int| 0 <= k < digits.len() ==> digits[k] == bytes@[k + start],
            hex_value(digits, (i - start) as nat) == Ok::<int, WordError>(value as int),
            value <= 0xFFFF,
        decreases bytes.len() - i,
    {
        if value * 16 > 0xFFFF {
            proof {
                lemma_hex_value_ends(digits, (i - start + 1) as nat, digits.len());
            }
            return Err(WordError::TooLarge);
        }
        let byte = bytes[i];
        let digit: u32 = if 0x30 <= byte && byte <= 0x39 {
            (byte - 0x30) as u32
        } else if 0x41 <= byte && byte <= 0x46 {
            (byte - 0x41) as u32 + 10
        } else if 0x61 <= byte && byte <= 0x66 {
            (byte - 0x61) as u32 + 10
        } else {
            proof {
                lemma_hex_value_ends(digits, (i - start + 1) as nat, digits.len());
            }
            return Err(WordError::InvalidDigit);
        };
        value = value * 16 + digit;
        i += 1;
    }
    Ok(value as u16)
}

} // verus!
