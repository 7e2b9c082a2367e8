//! A 16-bit register that can also be used as two 8-bit halves.

use vstd::prelude::*;
use crate::bus::Word;
use crate::text::{format_word, hex_word};

verus! {

pub struct Register {
    word: u16,
}

impl Register {
    /// The 16-bit value held.
    pub closed spec fn view(&self) -> u16 {
        self.word
    }

    pub fn new(word: Word) -> (r: Self)
        ensures
            r@ == word,
    {
        Register { word }
    }

    /// The low byte.
    pub fn right(&self) -> (r: u8)
        ensures
            r == self@ % 256,
    {
        (self.word % 256) as u8
    }

    /// The high byte.
    pub fn left(&self) -> (r: u8)
        ensures
            r == self@ / 256,
    {
        (self.word / 256) as u8
    }

    pub fn word(&self) -> (r: u16)
        ensures
            r == self@,
    {
        self.word
    }

    pub fn value(&self) -> (r: u16)
        ensures
            r == self@,
    {
        self.word
    }

    pub fn set_right(&mut self, value: u8)
        ensures
            final(self)@ == (old(self)@ / 256) * 256 + value,
    {
        self.word = (self.word / 256) * 256 + (value as u16);
    }

    pub fn set_left(&mut self, value: u8)
        ensures
            final(self)@ == value * 256 + old(self)@ % 256,
    {
        self.word = (value as u16) * 256 + self.word % 256;
    }

    pub fn set_word(&mut self, value: u16)
        ensures
            final(self)@ == value,
    {
        self.word = value;
    }

    /// Adds one; `0xFFFF` becomes 0.
    pub fn inc_word(&mut self)
        ensures
            final(self)@ == (if old(self)@ == 0xFFFF {
                0
            } else {
                old(self)@ + 1
            }),
    {
        if self.word == 0xFFFF {
            self.word = 0;
        } else {
            self.word += 1;
        }
    }

    /// Takes one away; 0 becomes `0xFFFF`.
    pub fn dec_word(&mut self)
        ensures
            final(self)@ == (if old(self)@ == 0 {
                0xFFFF
            } else {
                old(self)@ - 1
            }),
    {
        if self.word == 0 {
            self.word = 0xFFFF;
        } else {
            self.word -= 1;
        }
    }

    /// Writes the word in four hexadecimal digits.
    pub fn fmt(&self) -> (s: String)
        ensures
            s@ == hex_word(self@),
    {
        format_word(self.word)
    }
}

} // verus!
