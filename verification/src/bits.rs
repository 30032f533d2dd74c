//! Byte and word helpers shared by the bus, the loader and the processor.

use vstd::prelude::*;

verus! {

/// The 16-bit word whose high byte is `hi` and whose low byte is `lo`.
pub open spec fn word(hi: u8, lo: u8) -> u16 {
    (hi as int * 256 + lo as int) as u16
}

/// The low byte of a word.
pub open spec fn low_byte(w: u16) -> u8 {
    (w % 256) as u8
}

/// The high byte of a word.
pub open spec fn high_byte(w: u16) -> u8 {
    (w / 256) as u8
}

/// The 256-byte page an address lies in.
pub open spec fn page_of(addr: u16) -> int {
    addr as int / 256
}

/// The mask with only bit `pos` set, bit 0 being the least significant.
pub open spec fn bit_mask(pos: usize) -> u8 {
    if pos == 0 {
        0x01
    } else if pos == 1 {
        0x02
    } else if pos == 2 {
        0x04
    } else if pos == 3 {
        0x08
    } else if pos == 4 {
        0x10
    } else if pos == 5 {
        0x20
    } else if pos == 6 {
        0x40
    } else {
        0x80
    }
}

/// Whether bit `pos` of `val` is set.
pub open spec fn bit_is_set(val: u8, pos: usize) -> bool {
    val & bit_mask(pos) == bit_mask(pos)
}

/// `val` with bit `pos` set to `on` and every other bit kept.
pub open spec fn with_bit(val: u8, pos: usize, on: bool) -> u8 {
    if on {
        val | bit_mask(pos)
    } else {
        val & !bit_mask(pos)
    }
}

/// Joins two bytes into a word: `a` is the high byte, `b` the low byte.
pub fn two_u8_to_u16(a: u8, b: u8) -> (w: u16)
    ensures
        w == word(a, b),
        w == a * 256 + b,
{
    (a as u16) * 256 + (b as u16)
}

/// The low byte of `w`.
pub fn low_u8(w: u16) -> (b: u8)
    ensures
        b == low_byte(w),
{
    (w % 256) as u8
}

/// The high byte of `w`.
pub fn high_u8(w: u16) -> (b: u8)
    ensures
        b == high_byte(w),
{
    (w / 256) as u8
}

/// The mask that selects bit `pos`.
pub fn mask_of(pos: usize) -> (m: u8)
    requires
        pos < 8,
    ensures
        m == bit_mask(pos),
{
    let positions: [u8; 8] = [0x01, 0x02, 0x04, 0x08, 0x10, 0x20, 0x40, 0x80];
    positions[pos]
}

/// Tests bit `pos` of `val`.
pub fn check_bit(val: u8, pos: usize) -> (set: bool)
    requires
        pos < 8,
    ensures
        set == bit_is_set(val, pos),
{
    let m = mask_of(pos);
    val & m == m
}

/// Whether two addresses lie in the same page.
pub fn same_page(a: u16, b: u16) -> (same: bool)
    ensures
        same == (page_of(a) == page_of(b)),
{
    a / 256 == b / 256
}

/// Splitting a word and joining the halves gives the word back, and the
/// halves of a joined word are the bytes it was joined from.
pub proof fn lemma_word_round_trip(w: u16, hi: u8, lo: u8)
    ensures
        word(high_byte(w), low_byte(w)) == w,
        high_byte(word(hi, lo)) == hi,
        low_byte(word(hi, lo)) == lo,
{
}

/// Masking and arithmetic say the same: the low byte of a word is the word
/// modulo 256, its page is what remains above the low byte, the RAM mirror
/// mask is reduction modulo 2 KiB, and a byte or-ed into an empty low byte
/// is added.
pub proof fn lemma_mask_forms(w: u16, b: u8)
    ensures
        w & 0x00FF == w % 256,
        w & 0xFF00 == (w / 256) * 256,
        w & 0x07FF == w % 0x0800,
        (w & 0xFF00) | (b as u16) == (w / 256) * 256 + b,
        0x0100u16 | (b as u16) == 0x0100 + b,
{
    assert(w & 0x00FF == w % 256 && w & 0xFF00 == (w / 256) * 256 && w & 0x07FF == w % 0x0800)
        by (bit_vector);
    assert((w & 0xFF00) | (b as u16) == (w / 256) * 256 + b && 0x0100u16 | (b as u16) == 0x0100
        + b) by (bit_vector);
}

/// The mask of a position is two to the power of that position, so a bit is
/// set exactly when the value, shifted right by the position, is odd.
pub proof fn lemma_bit_is_set_arith(val: u8, pos: usize)
    requires
        pos < 8,
    ensures
        bit_is_set(val, pos) == ((val as int / bit_mask(pos) as int) % 2 == 1),
{
    let m = bit_mask(pos);
    assert(m == 1 || m == 2 || m == 4 || m == 8 || m == 16 || m == 32 || m == 64 || m == 128);
    assert((m == 1 || m == 2 || m == 4 || m == 8 || m == 16 || m == 32 || m == 64 || m == 128)
        ==> ((val & m == m) == ((val / m) % 2 == 1))) by (bit_vector);
}

/// Reading back the bit that `with_bit` wrote gives the written value, and
/// every other bit reads as before.
pub proof fn lemma_with_bit(val: u8, pos: usize, on: bool, other: usize)
    requires
        pos < 8,
        other < 8,
    ensures
        bit_is_set(with_bit(val, pos, on), pos) == on,
        other != pos ==> bit_is_set(with_bit(val, pos, on), other) == bit_is_set(val, other),
{
    let m = bit_mask(pos);
    let o = bit_mask(other);
    assert(m == 1 || m == 2 || m == 4 || m == 8 || m == 16 || m == 32 || m == 64 || m == 128);
    assert(o == 1 || o == 2 || o == 4 || o == 8 || o == 16 || o == 32 || o == 64 || o == 128);
    assert(other != pos ==> m != o);
    assert((m == 1 || m == 2 || m == 4 || m == 8 || m == 16 || m == 32 || m == 64 || m == 128)
        ==> ((val | m) & m == m) && ((val & !m) & m != m)) by (bit_vector);
    assert(((m == 1 || m == 2 || m == 4 || m == 8 || m == 16 || m == 32 || m == 64 || m == 128)
        && (o == 1 || o == 2 || o == 4 || o == 8 || o == 16 || o == 32 || o == 64 || o == 128)
        && m != o) ==> (((val | m) & o == o) == (val & o == o)) && (((val & !m) & o == o) == (val
        & o == o))) by (bit_vector);
}

} // verus!
