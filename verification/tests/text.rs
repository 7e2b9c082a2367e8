use emerald::cpu::flag::Flag;
use emerald::cpu::registers::Register;
use emerald::text::{digit_of, format_word, parse_word, WordError};

#[test]
fn flags_are_written_as_four_characters() {
    assert_eq!(Flag::fmt(0x00), "----");
    assert_eq!(Flag::fmt(0xF0), "ZNHC");
    assert_eq!(Flag::fmt(0x80), "Z---");
    assert_eq!(Flag::fmt(0x40), "-N--");
    assert_eq!(Flag::fmt(0x20), "--H-");
    assert_eq!(Flag::fmt(0x10), "---C");
    assert_eq!(Flag::fmt(0xBF), "Z-HC");
}

#[test]
fn flags_are_bits_of_a_byte() {
    let mut flags = 0x00u8;
    Flag::set(&mut flags, Flag::Zero);
    Flag::set(&mut flags, Flag::Carry);
    assert_eq!(flags, 0x90);
    assert!(Flag::test(&flags, Flag::Zero));
    assert!(!Flag::test(&flags, Flag::Subtract));
    Flag::clear(&mut flags, Flag::Zero);
    Flag::set(&mut flags, Flag::HalfCarry);
    Flag::set(&mut flags, Flag::Subtract);
    assert_eq!(flags, 0x70);
    let mut untouched = 0x0Fu8;
    Flag::clear(&mut untouched, Flag::Carry);
    assert_eq!(untouched, 0x0F);
    assert_eq!([Flag::Zero.bit(), Flag::Subtract.bit(), Flag::HalfCarry.bit(), Flag::Carry.bit()], [0x80, 0x40, 0x20, 0x10]);
}

#[test]
fn registers_are_written_in_four_digits() {
    assert_eq!(Register::new(0x0000).fmt(), "0000");
    assert_eq!(Register::new(0x01B0).fmt(), "01B0");
    assert_eq!(Register::new(0xFFFF).fmt(), "FFFF");
    assert_eq!(format_word(0x9ABC), "9ABC");
    assert_eq!(format_word(0x000A), "000A");
    assert_eq!(digit_of(11), 'B');
}

#[test]
fn a_register_is_a_word_and_two_bytes() {
    let mut register = Register::new(0x1234);
    assert_eq!((register.left(), register.right(), register.word(), register.value()), (0x12, 0x34, 0x1234, 0x1234));
    register.set_left(0xAB);
    assert_eq!(register.word(), 0xAB34);
    register.set_right(0xCD);
    assert_eq!(register.word(), 0xABCD);
    register.set_word(0xFFFF);
    register.inc_word();
    assert_eq!(register.word(), 0x0000);
    register.dec_word();
    assert_eq!(register.word(), 0xFFFF);
    register.dec_word();
    assert_eq!(register.word(), 0xFFFE);
    register.inc_word();
    assert_eq!(register.word(), 0xFFFF);
}

#[test]
fn words_are_read_in_hexadecimal() {
    assert_eq!(parse_word(b"1f"), Ok(0x001F));
    assert_eq!(parse_word(b"+FFFF"), Ok(0xFFFF));
    assert_eq!(parse_word(b"0000000FFFF"), Ok(0xFFFF));
    assert_eq!(parse_word(b"10000"), Err(WordError::TooLarge));
    assert_eq!(parse_word(b""), Err(WordError::Empty));
    assert_eq!(parse_word(b"+"), Err(WordError::InvalidDigit));
    for text in [&b"1g"[..], b"@", b"`", b"/", b":", b"G", b"-1"] {
        assert_eq!(parse_word(text), Err(WordError::InvalidDigit));
    }
}
