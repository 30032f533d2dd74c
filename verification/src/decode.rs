//! The decoder: the executable form of the instruction set.

use vstd::prelude::*;
use crate::opcode::{
    addresses_memory, can_cross_page, instruction_of, is_branch, is_shift, operand_len,
    reads_operand, writes_memory, AddrMode, Instruction, Mnemonic,
};

verus! {

/// Whether the operation pays for a crossed page.
pub fn is_read(mnemonic: Mnemonic) -> (r: bool)
    ensures
        r == reads_operand(mnemonic),
{
    match mnemonic {
        Mnemonic::Lda
        | Mnemonic::Ldx
        | Mnemonic::Ldy
        | Mnemonic::Eor
        | Mnemonic::And
        | Mnemonic::Ora
        | Mnemonic::Adc
        | Mnemonic::Sbc
        | Mnemonic::Cmp
        | Mnemonic::Lax => true,
        _ => false,
    }
}

/// Whether the mode can leave the page of its base address.
pub fn is_indexed(mode: AddrMode) -> (r: bool)
    ensures
        r == can_cross_page(mode),
{
    match mode {
        AddrMode::AbsoluteX | AddrMode::AbsoluteY | AddrMode::IndirectY => true,
        _ => false,
    }
}

/// Number of operand bytes that follow an opcode with this mode.
pub fn operand_bytes(mode: AddrMode) -> (n: u16)
    ensures
        n == operand_len(mode),
{
    match mode {
        AddrMode::Implied | AddrMode::Accumulator => 0,
        AddrMode::Absolute | AddrMode::AbsoluteX | AddrMode::AbsoluteY | AddrMode::Indirect => 2,
        _ => 1,
    }
}

/// A row of the table; the page penalty follows from operation and mode.
fn row(mnemonic: Mnemonic, mode: AddrMode, cycles: u8) -> (r: Option<Instruction>)
    ensures
        r == Some(
            Instruction {
                mnemonic,
                mode,
                cycles,
                page_penalty: reads_operand(mnemonic) && can_cross_page(mode),
            },
        ),
{
    Some(Instruction { mnemonic, mode, cycles, page_penalty: is_read(mnemonic) && is_indexed(mode) })
}

/// Decodes an opcode byte: `None` for a byte that selects no instruction.
pub fn decode(opcode: u8) -> (r: Option<Instruction>)
    ensures
        r == instruction_of(opcode),
        r matches Some(i) ==> 2 <= i.cycles <= 8,
{
    proof {
        reveal(instruction_of);
    }
    match opcode {
        0x00 => row(Mnemonic::Brk, AddrMode::Implied, 7),
        0x01 => row(Mnemonic::Ora, AddrMode::IndirectX, 6),
        0x02 => row(Mnemonic::Kil, AddrMode::Implied, 2),
        0x03 => row(Mnemonic::Slo, AddrMode::IndirectX, 8),
        0x04 => row(Mnemonic::Nop, AddrMode::ZeroPage, 3),
        0x05 => row(Mnemonic::Ora, AddrMode::ZeroPage, 3),
        0x06 => row(Mnemonic::Asl, AddrMode::ZeroPage, 5),
        0x07 => row(Mnemonic::Slo, AddrMode::ZeroPage, 5),
        0x08 => row(Mnemonic::Php, AddrMode::Implied, 3),
        0x09 => row(Mnemonic::Ora, AddrMode::Immediate, 2),
        0x0A => row(Mnemonic::Asl, AddrMode::Accumulator, 2),
        0x0C => row(Mnemonic::Nop, AddrMode::Absolute, 4),
        0x0D => row(Mnemonic::Ora, AddrMode::Absolute, 4),
        0x0E => row(Mnemonic::Asl, AddrMode::Absolute, 6),
        0x0F => row(Mnemonic::Slo, AddrMode::Absolute, 6),
        0x10 => row(Mnemonic::Bpl, AddrMode::Relative, 2),
        0x11 => row(Mnemonic::Ora, AddrMode::IndirectY, 5),
        0x12 => row(Mnemonic::Kil, AddrMode::Implied, 2),
        0x13 => row(Mnemonic::Slo, AddrMode::IndirectY, 8),
        0x14 => row(Mnemonic::Nop, AddrMode::ZeroPageX, 4),
        0x15 => row(Mnemonic::Ora, AddrMode::ZeroPageX, 4),
        0x16 => row(Mnemonic::Asl, AddrMode::ZeroPageX, 6),
        0x17 => row(Mnemonic::Slo, AddrMode::ZeroPageX, 6),
        0x18 => row(Mnemonic::Clc, AddrMode::Implied, 2),
        0x19 => row(Mnemonic::Ora, AddrMode::AbsoluteY, 4),
        0x1A => row(Mnemonic::Nop, AddrMode::Implied, 2),
        0x1B => row(Mnemonic::Slo, AddrMode::AbsoluteY, 7),
        0x1C => row(Mnemonic::Nop, AddrMode::AbsoluteX, 4),
        0x1D => row(Mnemonic::Ora, AddrMode::AbsoluteX, 4),
        0x1E => row(Mnemonic::Asl, AddrMode::AbsoluteX, 7),
        0x1F => row(Mnemonic::Slo, AddrMode::AbsoluteX, 7),
        0x20 => row(Mnemonic::Jsr, AddrMode::Absolute, 6),
        0x21 => row(Mnemonic::And, AddrMode::IndirectX, 6),
        0x22 => row(Mnemonic::Kil, AddrMode::Implied, 2),
        0x23 => row(Mnemonic::Rla, AddrMode::IndirectX, 8),
        0x24 => row(Mnemonic::Bit, AddrMode::ZeroPage, 3),
        0x25 => row(Mnemonic::And, AddrMode::ZeroPage, 3),
        0x26 => row(Mnemonic::Rol, AddrMode::ZeroPage, 5),
        0x27 => row(Mnemonic::Rla, AddrMode::ZeroPage, 5),
        0x28 => row(Mnemonic::Plp, AddrMode::Implied, 4),
        0x29 => row(Mnemonic::And, AddrMode::Immediate, 2),
        0x2A => row(Mnemonic::Rol, AddrMode::Accumulator, 2),
        0x2C => row(Mnemonic::Bit, AddrMode::Absolute, 4),
        0x2D => row(Mnemonic::And, AddrMode::Absolute, 4),
        0x2E => row(Mnemonic::Rol, AddrMode::Absolute, 6),
        0x2F => row(Mnemonic::Rla, AddrMode::Absolute, 6),
        0x30 => row(Mnemonic::Bmi, AddrMode::Relative, 2),
        0x31 => row(Mnemonic::And, AddrMode::IndirectY, 5),
        0x32 => row(Mnemonic::Kil, AddrMode::Implied, 2),
        0x33 => row(Mnemonic::Rla, AddrMode::IndirectY, 8),
        0x34 => row(Mnemonic::Nop, AddrMode::ZeroPageX, 4),
        0x35 => row(Mnemonic::And, AddrMode::ZeroPageX, 4),
        0x36 => row(Mnemonic::Rol, AddrMode::ZeroPageX, 6),
        0x37 => row(Mnemonic::Rla, AddrMode::ZeroPageX, 6),
        0x38 => row(Mnemonic::Sec, AddrMode::Implied, 2),
        0x39 => row(Mnemonic::And, AddrMode::AbsoluteY, 4),
        0x3A => row(Mnemonic::Nop, AddrMode::Implied, 2),
        0x3B => row(Mnemonic::Rla, AddrMode::AbsoluteY, 7),
        0x3C => row(Mnemonic::Nop, AddrMode::AbsoluteX, 4),
        0x3D => row(Mnemonic::And, AddrMode::AbsoluteX, 4),
        0x3E => row(Mnemonic::Rol, AddrMode::AbsoluteX, 7),
        0x3F => row(Mnemonic::Rla, AddrMode::AbsoluteX, 7),
        0x40 => row(Mnemonic::Rti, AddrMode::Implied, 6),
        0x41 => row(Mnemonic::Eor, AddrMode::IndirectX, 6),
        0x42 => row(Mnemonic::Kil, AddrMode::Implied, 2),
        0x43 => row(Mnemonic::Sre, AddrMode::IndirectX, 8),
        0x44 => row(Mnemonic::Nop, AddrMode::ZeroPage, 3),
        0x45 => row(Mnemonic::Eor, AddrMode::ZeroPage, 3),
        0x46 => row(Mnemonic::Lsr, AddrMode::ZeroPage, 5),
        0x47 => row(Mnemonic::Sre, AddrMode::ZeroPage, 5),
        0x48 => row(Mnemonic::Pha, AddrMode::Implied, 3),
        0x49 => row(Mnemonic::Eor, AddrMode::Immediate, 2),
        0x4A => row(Mnemonic::Lsr, AddrMode::Accumulator, 2),
        0x4C => row(Mnemonic::Jmp, AddrMode::Absolute, 3),
        0x4D => row(Mnemonic::Eor, AddrMode::Absolute, 4),
        0x4E => row(Mnemonic::Lsr, AddrMode::Absolute, 6),
        0x4F => row(Mnemonic::Sre, AddrMode::Absolute, 6),
        0x50 => row(Mnemonic::Bvc, AddrMode::Relative, 2),
        0x51 => row(Mnemonic::Eor, AddrMode::IndirectY, 5),
        0x52 => row(Mnemonic::Kil, AddrMode::Implied, 2),
        0x53 => row(Mnemonic::Sre, AddrMode::IndirectY, 8),
        0x54 => row(Mnemonic::Nop, AddrMode::ZeroPageX, 4),
        0x55 => row(Mnemonic::Eor, AddrMode::ZeroPageX, 4),
        0x56 => row(Mnemonic::Lsr, AddrMode::ZeroPageX, 6),
        0x57 => row(Mnemonic::Sre, AddrMode::ZeroPageX, 6),
        0x58 => row(Mnemonic::Cli, AddrMode::Implied, 2),
        0x59 => row(Mnemonic::Eor, AddrMode::AbsoluteY, 4),
        0x5A => row(Mnemonic::Nop, AddrMode::Implied, 2),
        0x5B => row(Mnemonic::Sre, AddrMode::AbsoluteY, 7),
        0x5C => row(Mnemonic::Nop, AddrMode::AbsoluteX, 4),
        0x5D => row(Mnemonic::Eor, AddrMode::AbsoluteX, 4),
        0x5E => row(Mnemonic::Lsr, AddrMode::AbsoluteX, 7),
        0x5F => row(Mnemonic::Sre, AddrMode::AbsoluteX, 7),
        0x60 => row(Mnemonic::Rts, AddrMode::Implied, 6),
        0x61 => row(Mnemonic::Adc, AddrMode::IndirectX, 6),
        0x62 => row(Mnemonic::Kil, AddrMode::Implied, 2),
        0x63 => row(Mnemonic::Rra, AddrMode::IndirectX, 8),
        0x64 => row(Mnemonic::Nop, AddrMode::ZeroPage, 3),
        0x65 => row(Mnemonic::Adc, AddrMode::ZeroPage, 3),
        0x66 => row(Mnemonic::Ror, AddrMode::ZeroPage, 5),
        0x67 => row(Mnemonic::Rra, AddrMode::ZeroPage, 5),
        0x68 => row(Mnemonic::Pla, AddrMode::Implied, 4),
        0x69 => row(Mnemonic::Adc, AddrMode::Immediate, 2),
        0x6A => row(Mnemonic::Ror, AddrMode::Accumulator, 2),
        0x6C => row(Mnemonic::Jmp, AddrMode::Indirect, 5),
        0x6D => row(Mnemonic::Adc, AddrMode::Absolute, 4),
        0x6E => row(Mnemonic::Ror, AddrMode::Absolute, 6),
        0x6F => row(Mnemonic::Rra, AddrMode::Absolute, 6),
        0x70 => row(Mnemonic::Bvs, AddrMode::Relative, 2),
        0x71 => row(Mnemonic::Adc, AddrMode::IndirectY, 5),
        0x72 => row(Mnemonic::Kil, AddrMode::Implied, 2),
        0x73 => row(Mnemonic::Rra, AddrMode::IndirectY, 8),
        0x74 => row(Mnemonic::Nop, AddrMode::ZeroPageX, 4),
        0x75 => row(Mnemonic::Adc, AddrMode::ZeroPageX, 4),
        0x76 => row(Mnemonic::Ror, AddrMode::ZeroPageX, 6),
        0x77 => row(Mnemonic::Rra, AddrMode::ZeroPageX, 6),
        0x78 => row(Mnemonic::Sei, AddrMode::Implied, 2),
        0x79 => row(Mnemonic::Adc, AddrMode::AbsoluteY, 4),
        0x7A => row(Mnemonic::Nop, AddrMode::Implied, 2),
        0x7B => row(Mnemonic::Rra, AddrMode::AbsoluteY, 7),
        0x7C => row(Mnemonic::Nop, AddrMode::AbsoluteX, 4),
        0x7D => row(Mnemonic::Adc, AddrMode::AbsoluteX, 4),
        0x7E => row(Mnemonic::Ror, AddrMode::AbsoluteX, 7),
        0x7F => row(Mnemonic::Rra, AddrMode::AbsoluteX, 7),
        0x80 => row(Mnemonic::Nop, AddrMode::Immediate, 2),
        0x81 => row(Mnemonic::Sta, AddrMode::IndirectX, 6),
        0x82 => row(Mnemonic::Nop, AddrMode::Immediate, 2),
        0x83 => row(Mnemonic::Sax, AddrMode::IndirectX, 6),
        0x84 => row(Mnemonic::Sty, AddrMode::ZeroPage, 3),
        0x85 => row(Mnemonic::Sta, AddrMode::ZeroPage, 3),
        0x86 => row(Mnemonic::Stx, AddrMode::ZeroPage, 3),
        0x87 => row(Mnemonic::Sax, AddrMode::ZeroPage, 3),
        0x88 => row(Mnemonic::Dey, AddrMode::Implied, 2),
        0x89 => row(Mnemonic::Nop, AddrMode::Immediate, 2),
        0x8A => row(Mnemonic::Txa, AddrMode::Implied, 2),
        0x8C => row(Mnemonic::Sty, AddrMode::Absolute, 4),
        0x8D => row(Mnemonic::Sta, AddrMode::Absolute, 4),
        0x8E => row(Mnemonic::Stx, AddrMode::Absolute, 4),
        0x8F => row(Mnemonic::Sax, AddrMode::Absolute, 4),
        0x90 => row(Mnemonic::Bcc, AddrMode::Relative, 2),
        0x91 => row(Mnemonic::Sta, AddrMode::IndirectY, 6),
        0x92 => row(Mnemonic::Kil, AddrMode::Implied, 2),
        0x94 => row(Mnemonic::Sty, AddrMode::ZeroPageX, 4),
        0x95 => row(Mnemonic::Sta, AddrMode::ZeroPageX, 4),
        0x96 => row(Mnemonic::Stx, AddrMode::ZeroPageY, 4),
        0x97 => row(Mnemonic::Sax, AddrMode::ZeroPageY, 4),
        0x98 => row(Mnemonic::Tya, AddrMode::Implied, 2),
        0x99 => row(Mnemonic::Sta, AddrMode::AbsoluteY, 5),
        0x9A => row(Mnemonic::Txs, AddrMode::Implied, 2),
        0x9D => row(Mnemonic::Sta, AddrMode::AbsoluteX, 5),
        0xA0 => row(Mnemonic::Ldy, AddrMode::Immediate, 2),
        0xA1 => row(Mnemonic::Lda, AddrMode::IndirectX, 6),
        0xA2 => row(Mnemonic::Ldx, AddrMode::Immediate, 2),
        0xA3 => row(Mnemonic::Lax, AddrMode::IndirectX, 6),
        0xA4 => row(Mnemonic::Ldy, AddrMode::ZeroPage, 3),
        0xA5 => row(Mnemonic::Lda, AddrMode::ZeroPage, 3),
        0xA6 => row(Mnemonic::Ldx, AddrMode::ZeroPage, 3),
        0xA7 => row(Mnemonic::Lax, AddrMode::ZeroPage, 3),
        0xA8 => row(Mnemonic::Tay, AddrMode::Implied, 2),
        0xA9 => row(Mnemonic::Lda, AddrMode::Immediate, 2),
        0xAA => row(Mnemonic::Tax, AddrMode::Implied, 2),
        0xAC => row(Mnemonic::Ldy, AddrMode::Absolute, 4),
        0xAD => row(Mnemonic::Lda, AddrMode::Absolute, 4),
        0xAE => row(Mnemonic::Ldx, AddrMode::Absolute, 4),
        0xAF => row(Mnemonic::Lax, AddrMode::Absolute, 4),
        0xB0 => row(Mnemonic::Bcs, AddrMode::Relative, 2),
        0xB1 => row(Mnemonic::Lda, AddrMode::IndirectY, 5),
        0xB2 => row(Mnemonic::Kil, AddrMode::Implied, 2),
        0xB3 => row(Mnemonic::Lax, AddrMode::IndirectY, 5),
        0xB4 => row(Mnemonic::Ldy, AddrMode::ZeroPageX, 4),
        0xB5 => row(Mnemonic::Lda, AddrMode::ZeroPageX, 4),
        0xB6 => row(Mnemonic::Ldx, AddrMode::ZeroPageY, 4),
        0xB7 => row(Mnemonic::Lax, AddrMode::ZeroPageY, 4),
        0xB8 => row(Mnemonic::Clv, AddrMode::Implied, 2),
        0xB9 => row(Mnemonic::Lda, AddrMode::AbsoluteY, 4),
        0xBA => row(Mnemonic::Tsx, AddrMode::Implied, 2),
        0xBC => row(Mnemonic::Ldy, AddrMode::AbsoluteX, 4),
        0xBD => row(Mnemonic::Lda, AddrMode::AbsoluteX, 4),
        0xBE => row(Mnemonic::Ldx, AddrMode::AbsoluteY, 4),
        0xBF => row(Mnemonic::Lax, AddrMode::AbsoluteY, 4),
        0xC0 => row(Mnemonic::Cpy, AddrMode::Immediate, 2),
        0xC1 => row(Mnemonic::Cmp, AddrMode::IndirectX, 6),
        0xC2 => row(Mnemonic::Nop, AddrMode::Immediate, 2),
        0xC3 => row(Mnemonic::Dcp, AddrMode::IndirectX, 8),
        0xC4 => row(Mnemonic::Cpy, AddrMode::ZeroPage, 3),
        0xC5 => row(Mnemonic::Cmp, AddrMode::ZeroPage, 3),
        0xC6 => row(Mnemonic::Dec, AddrMode::ZeroPage, 5),
        0xC7 => row(Mnemonic::Dcp, AddrMode::ZeroPage, 5),
        0xC8 => row(Mnemonic::Iny, AddrMode::Implied, 2),
        0xC9 => row(Mnemonic::Cmp, AddrMode::Immediate, 2),
        0xCA => row(Mnemonic::Dex, AddrMode::Implied, 2),
        0xCC => row(Mnemonic::Cpy, AddrMode::Absolute, 4),
        0xCD => row(Mnemonic::Cmp, AddrMode::Absolute, 4),
        0xCE => row(Mnemonic::Dec, AddrMode::Absolute, 6),
        0xCF => row(Mnemonic::Dcp, AddrMode::Absolute, 6),
        0xD0 => row(Mnemonic::Bne, AddrMode::Relative, 2),
        0xD1 => row(Mnemonic::Cmp, AddrMode::IndirectY, 5),
        0xD2 => row(Mnemonic::Kil, AddrMode::Implied, 2),
        0xD3 => row(Mnemonic::Dcp, AddrMode::IndirectY, 8),
        0xD4 => row(Mnemonic::Nop, AddrMode::ZeroPageX, 4),
        0xD5 => row(Mnemonic::Cmp, AddrMode::ZeroPageX, 4),
        0xD6 => row(Mnemonic::Dec, AddrMode::ZeroPageX, 6),
        0xD7 => row(Mnemonic::Dcp, AddrMode::ZeroPageX, 6),
        0xD8 => row(Mnemonic::Cld, AddrMode::Implied, 2),
        0xD9 => row(Mnemonic::Cmp, AddrMode::AbsoluteY, 4),
        0xDA => row(Mnemonic::Nop, AddrMode::Implied, 2),
        0xDB => row(Mnemonic::Dcp, AddrMode::AbsoluteY, 7),
        0xDC => row(Mnemonic::Nop, AddrMode::AbsoluteX, 4),
        0xDD => row(Mnemonic::Cmp, AddrMode::AbsoluteX, 4),
        0xDE => row(Mnemonic::Dec, AddrMode::AbsoluteX, 7),
        0xDF => row(Mnemonic::Dcp, AddrMode::AbsoluteX, 7),
        0xE0 => row(Mnemonic::Cpx, AddrMode::Immediate, 2),
        0xE1 => row(Mnemonic::Sbc, AddrMode::IndirectX, 6),
        0xE2 => row(Mnemonic::Nop, AddrMode::Immediate, 2),
        0xE3 => row(Mnemonic::Isc, AddrMode::IndirectX, 8),
        0xE4 => row(Mnemonic::Cpx, AddrMode::ZeroPage, 3),
        0xE5 => row(Mnemonic::Sbc, AddrMode::ZeroPage, 3),
        0xE6 => row(Mnemonic::Inc, AddrMode::ZeroPage, 5),
        0xE7 => row(Mnemonic::Isc, AddrMode::ZeroPage, 5),
        0xE8 => row(Mnemonic::Inx, AddrMode::Implied, 2),
        0xE9 => row(Mnemonic::Sbc, AddrMode::Immediate, 2),
        0xEA => row(Mnemonic::Nop, AddrMode::Implied, 2),
        0xEC => row(Mnemonic::Cpx, AddrMode::Absolute, 4),
        0xED => row(Mnemonic::Sbc, AddrMode::Absolute, 4),
        0xEE => row(Mnemonic::Inc, AddrMode::Absolute, 6),
        0xEF => row(Mnemonic::Isc, AddrMode::Absolute, 6),
        0xF0 => row(Mnemonic::Beq, AddrMode::Relative, 2),
        0xF1 => row(Mnemonic::Sbc, AddrMode::IndirectY, 5),
        0xF2 => row(Mnemonic::Kil, AddrMode::Implied, 2),
        0xF3 => row(Mnemonic::Isc, AddrMode::IndirectY, 8),
        0xF4 => row(Mnemonic::Nop, AddrMode::ZeroPageX, 4),
        0xF5 => row(Mnemonic::Sbc, AddrMode::ZeroPageX, 4),
        0xF6 => row(Mnemonic::Inc, AddrMode::ZeroPageX, 6),
        0xF7 => row(Mnemonic::Isc, AddrMode::ZeroPageX, 6),
        0xF8 => row(Mnemonic::Sed, AddrMode::Implied, 2),
        0xF9 => row(Mnemonic::Sbc, AddrMode::AbsoluteY, 4),
        0xFA => row(Mnemonic::Nop, AddrMode::Implied, 2),
        0xFB => row(Mnemonic::Isc, AddrMode::AbsoluteY, 7),
        0xFC => row(Mnemonic::Nop, AddrMode::AbsoluteX, 4),
        0xFD => row(Mnemonic::Sbc, AddrMode::AbsoluteX, 4),
        0xFE => row(Mnemonic::Inc, AddrMode::AbsoluteX, 7),
        0xFF => row(Mnemonic::Isc, AddrMode::AbsoluteX, 7),
        _ => None,
    }
}

/// In every row, a crossed page costs a cycle exactly when the operation
/// only reads its operand and the mode adds an index to a 16-bit base.
/// Stores and read-modify-write operations have a fixed cost.
pub proof fn lemma_page_penalty_rule(opcode: u8)
    ensures
        penalty_follows_rule(opcode),
{
    reveal(instruction_of);
    // One case for each high nibble keeps every query small.
    if opcode < 0x10 {
        assert(penalty_follows_rule(opcode));
    } else if opcode < 0x20 {
        assert(penalty_follows_rule(opcode));
    } else if opcode < 0x30 {
        assert(penalty_follows_rule(opcode));
    } else if opcode < 0x40 {
        assert(penalty_follows_rule(opcode));
    } else if opcode < 0x50 {
        assert(penalty_follows_rule(opcode));
    } else if opcode < 0x60 {
        assert(penalty_follows_rule(opcode));
    } else if opcode < 0x70 {
        assert(penalty_follows_rule(opcode));
    } else if opcode < 0x80 {
        assert(penalty_follows_rule(opcode));
    } else if opcode < 0x90 {
        assert(penalty_follows_rule(opcode));
    } else if opcode < 0xA0 {
        assert(penalty_follows_rule(opcode));
    } else if opcode < 0xB0 {
        assert(penalty_follows_rule(opcode));
    } else if opcode < 0xC0 {
        assert(penalty_follows_rule(opcode));
    } else if opcode < 0xD0 {
        assert(penalty_follows_rule(opcode));
    } else if opcode < 0xE0 {
        assert(penalty_follows_rule(opcode));
    } else if opcode < 0xF0 {
        assert(penalty_follows_rule(opcode));
    } else {
        assert(penalty_follows_rule(opcode));
    }
}

/// The row of `opcode`, if there is one, charges for a crossed page exactly
/// when its operation only reads and its mode is indexed.
pub open spec fn penalty_follows_rule(opcode: u8) -> bool {
    match instruction_of(opcode) {
        Some(i) => i.page_penalty == (reads_operand(i.mnemonic) && can_cross_page(i.mode)),
        None => true,
    }
}

/// Every row costs between two and eight cycles; only branches are
/// relative, only `JMP` is indirect, only shifts work on the accumulator,
/// and the rows that write memory or jump name a place in memory.
pub proof fn lemma_table_shape(opcode: u8)
    ensures
        row_is_sound(opcode),
{
    reveal(instruction_of);
    // One case for each high nibble keeps every query small.
    if opcode < 0x10 {
        assert(row_is_sound(opcode));
    } else if opcode < 0x20 {
        assert(row_is_sound(opcode));
    } else if opcode < 0x30 {
        assert(row_is_sound(opcode));
    } else if opcode < 0x40 {
        assert(row_is_sound(opcode));
    } else if opcode < 0x50 {
        assert(row_is_sound(opcode));
    } else if opcode < 0x60 {
        assert(row_is_sound(opcode));
    } else if opcode < 0x70 {
        assert(row_is_sound(opcode));
    } else if opcode < 0x80 {
        assert(row_is_sound(opcode));
    } else if opcode < 0x90 {
        assert(row_is_sound(opcode));
    } else if opcode < 0xA0 {
        assert(row_is_sound(opcode));
    } else if opcode < 0xB0 {
        assert(row_is_sound(opcode));
    } else if opcode < 0xC0 {
        assert(row_is_sound(opcode));
    } else if opcode < 0xD0 {
        assert(row_is_sound(opcode));
    } else if opcode < 0xE0 {
        assert(row_is_sound(opcode));
    } else if opcode < 0xF0 {
        assert(row_is_sound(opcode));
    } else {
        assert(row_is_sound(opcode));
    }
}

/// The row of `opcode`, if there is one, has a mode that fits its operation.
pub open spec fn row_is_sound(opcode: u8) -> bool {
    match instruction_of(opcode) {
        Some(i) => {
            &&& 2 <= i.cycles <= 8
            &&& (i.mode == AddrMode::Relative) == is_branch(i.mnemonic)
            &&& (i.mode == AddrMode::Indirect ==> i.mnemonic == Mnemonic::Jmp)
            &&& (writes_memory(i.mnemonic) ==> addresses_memory(i.mode) || i.mode
                == AddrMode::Accumulator)
            &&& (i.mode == AddrMode::Accumulator ==> is_shift(i.mnemonic))
            &&& (i.mnemonic == Mnemonic::Jmp || i.mnemonic == Mnemonic::Jsr
                ==> addresses_memory(i.mode))
        },
        None => true,
    }
}

} // verus!
