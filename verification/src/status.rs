//! The processor status byte `P`, laid out `NV-BDIZC`.
//!
//! Bit 5 has no flag behind it and always reads as 1. Bit 4, `B`, exists
//! only in copies of `P` that are pushed on the stack: the register itself
//! never holds it.

use vstd::prelude::*;
use crate::bits::{bit_is_set, bit_mask, lemma_with_bit, mask_of, with_bit};

verus! {

/// Position of the carry flag.
pub const CARRY: usize = 0;

/// Position of the zero flag.
pub const ZERO: usize = 1;

/// Position of the interrupt-disable flag.
pub const INTERRUPT: usize = 2;

/// Position of the decimal flag, which this processor stores and ignores.
pub const DECIMAL: usize = 3;

/// Position of the break marker in pushed copies of the status byte.
pub const BREAK: usize = 4;

/// Position of the bit without a flag.
pub const UNUSED: usize = 5;

/// Position of the overflow flag.
pub const OVERFLOW: usize = 6;

/// Position of the negative flag.
pub const NEGATIVE: usize = 7;

/// The status byte after a reset: interrupts disabled, nothing else set.
pub const RESET_STATUS: u8 = 0x24;

/// `pos` names one of the six flags that the register stores.
pub open spec fn is_flag(pos: usize) -> bool {
    pos < 8 && pos != BREAK && pos != UNUSED
}

/// A byte is a value the status register can hold: bit 5 set, bit 4 clear.
pub open spec fn valid_status(p: u8) -> bool {
    p & 0x30 == 0x20
}

/// The register value that a byte from outside turns into: bit 5 forced
/// to 1, bit 4 dropped, the six flags kept.
pub open spec fn normalize(byte: u8) -> u8 {
    (byte & 0xCF) | 0x20
}

/// The copy of `p` that goes on the stack: `B` as given, bit 5 set.
pub open spec fn pushed_status(p: u8, brk: bool) -> u8 {
    if brk {
        normalize(p) | 0x10
    } else {
        normalize(p)
    }
}

/// The status byte with the bit at `pos` replaced, kept valid.
pub open spec fn set_flag(p: u8, pos: usize, on: bool) -> u8 {
    normalize(with_bit(p, pos, on))
}

/// The status byte after a result `v`: zero flag if `v` is 0, negative
/// flag from bit 7 of `v`.
pub open spec fn with_zn(p: u8, v: u8) -> u8 {
    set_flag(set_flag(p, ZERO, v == 0), NEGATIVE, bit_is_set(v, 7))
}

/// Forces bit 5 and drops bit 4.
pub fn normalized(byte: u8) -> (p: u8)
    ensures
        p == normalize(byte),
        valid_status(p),
{
    proof {
        lemma_normalize(byte);
    }
    (byte & 0xCF) | 0x20
}

/// The copy of `p` to push, with the break marker as given.
pub fn status_to_push(p: u8, brk: bool) -> (byte: u8)
    ensures
        byte == pushed_status(p, brk),
{
    let n = normalized(p);
    if brk {
        n | 0x10
    } else {
        n
    }
}

/// Replaces the bit at `pos` of a status byte.
pub fn status_with(p: u8, pos: usize, on: bool) -> (q: u8)
    requires
        pos < 8,
    ensures
        q == set_flag(p, pos, on),
        valid_status(q),
{
    let m = mask_of(pos);
    if on {
        normalized(p | m)
    } else {
        normalized(p & !m)
    }
}

/// A normalized byte is a valid status, and a valid status is its own
/// normal form.
pub proof fn lemma_normalize(byte: u8)
    ensures
        valid_status(normalize(byte)),
        valid_status(byte) ==> normalize(byte) == byte,
        normalize(normalize(byte)) == normalize(byte),
{
    assert(((byte & 0xCF) | 0x20) & 0x30 == 0x20) by (bit_vector);
    assert(byte & 0x30 == 0x20 ==> (byte & 0xCF) | 0x20 == byte) by (bit_vector);
    assert(((((byte & 0xCF) | 0x20) & 0xCF) | 0x20) == ((byte & 0xCF) | 0x20)) by (bit_vector);
}

/// Whatever byte arrives, its normal form is a valid status; so is the
/// status after a flag was written or a result recorded.
pub proof fn lemma_status_stays_valid()
    ensures
        valid_status(RESET_STATUS),
        forall|byte: u8| valid_status(#[trigger] normalize(byte)),
        forall|p: u8, pos: usize, on: bool| valid_status(#[trigger] set_flag(p, pos, on)),
        forall|p: u8, v: u8| valid_status(#[trigger] with_zn(p, v)),
{
    assert(0x24u8 & 0x30 == 0x20) by (bit_vector);
    assert forall|byte: u8| valid_status(#[trigger] normalize(byte)) by {
        lemma_normalize(byte);
    }
}

/// Normalizing leaves each of the six flags as it was.
pub proof fn lemma_normalize_keeps_flags(byte: u8, pos: usize)
    requires
        is_flag(pos),
    ensures
        bit_is_set(normalize(byte), pos) == bit_is_set(byte, pos),
        bit_is_set(normalize(byte), UNUSED),
        !bit_is_set(normalize(byte), BREAK),
{
    let m = bit_mask(pos);
    assert(m == 1 || m == 2 || m == 4 || m == 8 || m == 64 || m == 128);
    assert((m == 1 || m == 2 || m == 4 || m == 8 || m == 64 || m == 128) ==> ((((byte & 0xCF)
        | 0x20) & m == m) == (byte & m == m))) by (bit_vector);
    assert(((byte & 0xCF) | 0x20) & 0x20 == 0x20 && ((byte & 0xCF) | 0x20) & 0x10 != 0x10)
        by (bit_vector);
}

/// After a flag is set or cleared it reads as written, the other five
/// flags read as before, and the byte is a valid status.
pub proof fn lemma_set_flag(p: u8, pos: usize, on: bool, other: usize)
    requires
        is_flag(pos),
        is_flag(other),
    ensures
        valid_status(set_flag(p, pos, on)),
        bit_is_set(set_flag(p, pos, on), pos) == on,
        other != pos ==> bit_is_set(set_flag(p, pos, on), other) == bit_is_set(p, other),
{
    let q = with_bit(p, pos, on);
    lemma_with_bit(p, pos, on, other);
    lemma_normalize(q);
    lemma_normalize_keeps_flags(q, pos);
    lemma_normalize_keeps_flags(q, other);
}

/// After a result `v` is recorded, the zero flag says whether `v` is 0, the
/// negative flag is bit 7 of `v`, and the other four flags read as before.
pub proof fn lemma_with_zn(p: u8, v: u8, other: usize)
    requires
        is_flag(other),
    ensures
        valid_status(with_zn(p, v)),
        bit_is_set(with_zn(p, v), ZERO) == (v == 0),
        bit_is_set(with_zn(p, v), NEGATIVE) == bit_is_set(v, 7),
        bit_is_set(with_zn(p, v), NEGATIVE) == (v >= 0x80),
        other != ZERO && other != NEGATIVE ==> bit_is_set(with_zn(p, v), other) == bit_is_set(
            p,
            other,
        ),
{
    let q = set_flag(p, ZERO, v == 0);
    lemma_set_flag(p, ZERO, v == 0, other);
    lemma_set_flag(p, ZERO, v == 0, NEGATIVE);
    lemma_set_flag(q, NEGATIVE, bit_is_set(v, 7), other);
    lemma_set_flag(q, NEGATIVE, bit_is_set(v, 7), ZERO);
    assert((v & 0x80 == 0x80) == (v >= 0x80)) by (bit_vector);
}

/// What goes on the stack has bit 5 set and the break marker as asked, and
/// normalizing it gives back the register it was made from.
pub proof fn lemma_pushed_status(p: u8, brk: bool)
    ensures
        bit_is_set(pushed_status(p, brk), UNUSED),
        bit_is_set(pushed_status(p, brk), BREAK) == brk,
        normalize(pushed_status(p, brk)) == normalize(p),
        valid_status(p) ==> normalize(pushed_status(p, brk)) == p,
{
    lemma_normalize(p);
    assert(((normalize(p)) & 0x20 == 0x20) && ((normalize(p)) & 0x10 != 0x10)) by (bit_vector);
    assert((((normalize(p)) | 0x10) & 0x20 == 0x20) && (((normalize(p)) | 0x10) & 0x10 == 0x10))
        by (bit_vector);
    assert(((((normalize(p)) | 0x10) & 0xCF) | 0x20) == normalize(p)) by (bit_vector);
}

} // verus!
