use emerald::cpu::alu::{add16, add8, daa8, jump16, offset16, rotate8, shift8, sub8};
use emerald::cpu::Direction;

#[test]
fn add8_reports_half_carry_and_carry() {
    assert_eq!(add8(0x0F, 0x01, false), (0x10, true, false));
    assert_eq!(add8(0xFF, 0x01, false), (0x00, true, true));
    assert_eq!(add8(0x12, 0x34, false), (0x46, false, false));
    assert_eq!(add8(0xF0, 0x20, false), (0x10, false, true));
}

#[test]
fn add8_takes_the_carry_in() {
    assert_eq!(add8(0x0F, 0x00, true), (0x10, true, false));
    assert_eq!(add8(0xFF, 0xFF, true), (0xFF, true, true));
    assert_eq!(add8(0x00, 0xFF, true), (0x00, true, true));
}

#[test]
fn sub8_reports_borrows() {
    assert_eq!(sub8(0x10, 0x01, false), (0x0F, true, false));
    assert_eq!(sub8(0x00, 0x01, false), (0xFF, true, true));
    assert_eq!(sub8(0x46, 0x12, false), (0x34, false, false));
    assert_eq!(sub8(0x00, 0xFF, true), (0x00, true, true));
    assert_eq!(sub8(0x05, 0x05, false), (0x00, false, false));
}

#[test]
fn add_then_sub_restores_every_accumulator() {
    for a in 0..=255u8 {
        for v in 0..=255u8 {
            let sum = add8(a, v, false).0;
            assert_eq!(sub8(sum, v, false).0, a);
        }
    }
}

#[test]
fn add16_uses_bit_12_for_the_half_carry() {
    assert_eq!(add16(0x0FFF, 0x0001), (0x1000, true, false));
    assert_eq!(add16(0xFFFF, 0x0001), (0x0000, true, true));
    assert_eq!(add16(0x00FF, 0x0001), (0x0100, false, false));
    assert_eq!(add16(0x8000, 0x8000), (0x0000, false, true));
}

#[test]
fn offset16_moves_both_ways() {
    assert_eq!(offset16(0xFFF8, 0x08), (0x0000, true, true));
    assert_eq!(offset16(0x0005, 0xFE), (0x0003, true, false));
    assert_eq!(offset16(0x0001, 0xFE), (0xFFFF, false, true));
    assert_eq!(offset16(0x1000, 0x7F), (0x107F, false, false));
    assert_eq!(offset16(0x1000, 0x80), (0x0F80, true, false));
}

#[test]
fn jump16_goes_back_one_more_than_a_negative_offset() {
    assert_eq!(jump16(0x0100, 0x05), 0x0105);
    assert_eq!(jump16(0x0100, 0xFE), 0x00FD);
    assert_eq!(jump16(0x0000, 0x80), 0xFF7F);
    assert_eq!(jump16(0xFFFF, 0x01), 0x0000);
}

#[test]
fn rotate8_through_carry_and_around() {
    assert_eq!(rotate8(0x80, Direction::Left, false, false), (0x01, true));
    assert_eq!(rotate8(0x80, Direction::Left, true, false), (0x00, true));
    assert_eq!(rotate8(0x40, Direction::Left, true, true), (0x81, false));
    assert_eq!(rotate8(0x01, Direction::Right, true, true), (0x80, true));
    assert_eq!(rotate8(0x01, Direction::Right, false, false), (0x80, true));
    assert_eq!(rotate8(0x02, Direction::Right, true, false), (0x01, false));
}

#[test]
fn shift8_reports_the_bit_that_left() {
    assert_eq!(shift8(0x81, Direction::Left, false), (0x02, true));
    assert_eq!(shift8(0x80, Direction::Left, false), (0x00, true));
    assert_eq!(shift8(0x41, Direction::Left, true), (0x82, false));
    assert_eq!(shift8(0x81, Direction::Right, false), (0x40, true));
    assert_eq!(shift8(0x02, Direction::Right, false), (0x01, false));
}

#[test]
fn shift8_keeps_the_top_bit_when_arithmetic() {
    assert_eq!(shift8(0x82, Direction::Right, true), (0xC1, false));
    assert_eq!(shift8(0x81, Direction::Right, true), (0xC0, true));
    assert_eq!(shift8(0x02, Direction::Right, true), (0x01, false));
    assert_eq!(shift8(0x01, Direction::Right, true), (0x00, true));
    assert_eq!(shift8(0xFF, Direction::Right, true), (0xFF, true));
}

#[test]
fn daa8_adjusts_after_addition_and_subtraction() {
    assert_eq!(daa8(0x0A, false, false, false), (0x10, false));
    assert_eq!(daa8(0x9A, false, false, false), (0x00, true));
    assert_eq!(daa8(0x12, false, true, false), (0x18, false));
    assert_eq!(daa8(0x0F, true, true, false), (0x09, false));
    assert_eq!(daa8(0x70, true, false, true), (0x10, true));
}

#[test]
fn daa8_gives_the_decimal_sum_of_two_digits() {
    for a in 0..=9u8 {
        for b in 0..=9u8 {
            let (sum, half, carry) = add8(a, b, false);
            let expected = ((a + b) / 10) * 16 + (a + b) % 10;
            assert_eq!(daa8(sum, false, half, carry), (expected, false));
        }
    }
}
