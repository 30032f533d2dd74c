use nes_emulator::addressing::{branch_to, index_by, indirect_high, Operand};
use nes_emulator::bits::{check_bit, high_u8, low_u8, mask_of, same_page, two_u8_to_u16};
use nes_emulator::status::{normalized, status_to_push, status_with};

#[test]
fn joins_high_and_low_byte() {
    assert_eq!(two_u8_to_u16(0x12, 0x34), 0x1234);
    assert_eq!(two_u8_to_u16(0x00, 0x00), 0x0000);
    assert_eq!(two_u8_to_u16(0xFF, 0xFF), 0xFFFF);
    assert_eq!(two_u8_to_u16(0x80, 0x00), 0x8000);
    assert_eq!(two_u8_to_u16(0x00, 0xFF), 0x00FF);
}

#[test]
fn splits_a_word() {
    assert_eq!(high_u8(0x1234), 0x12);
    assert_eq!(low_u8(0x1234), 0x34);
    assert_eq!(two_u8_to_u16(high_u8(0xBEEF), low_u8(0xBEEF)), 0xBEEF);
}

#[test]
fn mask_is_a_power_of_two() {
    let expected: [u8; 8] = [1, 2, 4, 8, 16, 32, 64, 128];
    for pos in 0..8 {
        assert_eq!(mask_of(pos), expected[pos]);
    }
}

#[test]
fn check_bit_reads_each_position() {
    for pos in 0..8 {
        assert!(check_bit(0xFF, pos));
        assert!(!check_bit(0x00, pos));
    }
    assert!(check_bit(0b1010_0101, 0));
    assert!(!check_bit(0b1010_0101, 1));
    assert!(check_bit(0b1010_0101, 2));
    assert!(!check_bit(0b1010_0101, 3));
    assert!(!check_bit(0b1010_0101, 4));
    assert!(check_bit(0b1010_0101, 5));
    assert!(!check_bit(0b1010_0101, 6));
    assert!(check_bit(0b1010_0101, 7));
}

#[test]
fn same_page_compares_high_bytes() {
    assert!(same_page(0x1000, 0x10FF));
    assert!(!same_page(0x10FF, 0x1100));
    assert!(same_page(0x0000, 0x0001));
    assert!(!same_page(0xFFFF, 0x0000));
}

#[test]
fn status_normal_form_forces_bit_five_and_drops_bit_four() {
    assert_eq!(normalized(0x00), 0x20);
    assert_eq!(normalized(0xFF), 0xEF);
    assert_eq!(normalized(0x10), 0x20);
    assert_eq!(normalized(0x24), 0x24);
    assert_eq!(normalized(0x34), 0x24);
}

#[test]
fn pushed_status_carries_the_break_marker_as_asked() {
    assert_eq!(status_to_push(0x24, true), 0x34);
    assert_eq!(status_to_push(0x24, false), 0x24);
    assert_eq!(status_to_push(0xEF, true), 0xFF);
    assert_eq!(status_to_push(0xEF, false), 0xEF);
}

#[test]
fn status_with_sets_and_clears_one_flag() {
    assert_eq!(status_with(0x24, 0, true), 0x25);
    assert_eq!(status_with(0x25, 0, false), 0x24);
    assert_eq!(status_with(0x24, 7, true), 0xA4);
    assert_eq!(status_with(0x24, 2, false), 0x20);
    assert_eq!(status_with(0x24, 6, true), 0x64);
}

#[test]
fn status_with_cannot_touch_bits_four_and_five() {
    assert_eq!(status_with(0x24, 4, true), 0x24);
    assert_eq!(status_with(0x24, 5, false), 0x24);
}

#[test]
fn branch_offset_is_signed() {
    // A branch at 1000 has its offset at 1001; the next instruction is at 1002.
    assert_eq!(branch_to(0x1002, 0x80), 0x0F82);
    assert_eq!(branch_to(0x1002, 0x7F), 0x1081);
    assert_eq!(branch_to(0x1002, 0x00), 0x1002);
    assert_eq!(branch_to(0x1002, 0xFF), 0x1001);
    assert_eq!(branch_to(0x1002, 0xFE), 0x1000);
}

#[test]
fn branch_wraps_at_the_ends_of_the_address_space() {
    assert_eq!(branch_to(0x0010, 0x80), 0xFF90);
    assert_eq!(branch_to(0xFFF0, 0x7F), 0x006F);
}

#[test]
fn indirect_pointer_wraps_inside_its_page() {
    assert_eq!(indirect_high(0x30FF), 0x3000);
    assert_eq!(indirect_high(0x3000), 0x3001);
    assert_eq!(indirect_high(0x30FE), 0x30FF);
    assert_eq!(indirect_high(0xFFFF), 0xFF00);
    assert_eq!(indirect_high(0x00FF), 0x0000);
}

#[test]
fn indexing_reports_a_crossed_page() {
    let r = index_by(0x10FF, 1);
    assert_eq!(r.operand, Operand::Address(0x1100));
    assert!(r.crossed);
    let r = index_by(0x10FE, 1);
    assert_eq!(r.operand, Operand::Address(0x10FF));
    assert!(!r.crossed);
    let r = index_by(0xFFFF, 2);
    assert_eq!(r.operand, Operand::Address(0x0001));
    assert!(r.crossed);
}
