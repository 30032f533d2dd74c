//! The instruction set: for each of the 256 opcode bytes, the operation it
//! selects, how its operand is addressed, its base cost in cycles, and
//! whether crossing a page while addressing costs one more.
//!
//! Beside the 151 documented opcodes the set holds the undocumented ones
//! that common test programs rely on: the `NOP` variants of one, two and
//! three bytes, `SLO`, `RLA`, `SRE`, `RRA`, `SAX`, `LAX`, `DCP` and `ISC`,
//! and the twelve opcodes that jam the processor (`KIL`). The fourteen
//! remaining bytes select nothing: executing one is an error.

use vstd::prelude::*;

verus! {

/// An operation of the processor.
#[derive(Clone, Copy, Debug, PartialEq, Eq, Structural)]
pub enum Mnemonic {
    Adc,
    And,
    Asl,
    Bcc,
    Bcs,
    Beq,
    Bit,
    Bmi,
    Bne,
    Bpl,
    Brk,
    Bvc,
    Bvs,
    Clc,
    Cld,
    Cli,
    Clv,
    Cmp,
    Cpx,
    Cpy,
    Dec,
    Dex,
    Dey,
    Eor,
    Inc,
    Inx,
    Iny,
    Jmp,
    Jsr,
    Lda,
    Ldx,
    Ldy,
    Lsr,
    Nop,
    Ora,
    Pha,
    Php,
    Pla,
    Plp,
    Rol,
    Ror,
    Rti,
    Rts,
    Sbc,
    Sec,
    Sed,
    Sei,
    Sta,
    Stx,
    Sty,
    Tax,
    Tay,
    Tsx,
    Txa,
    Txs,
    Tya,
    // Undocumented operations.
    Slo,
    Rla,
    Sre,
    Rra,
    Sax,
    Lax,
    Dcp,
    Isc,
    Kil,
}

/// How an instruction finds its operand.
#[derive(Clone, Copy, Debug, PartialEq, Eq, Structural)]
pub enum AddrMode {
    /// No operand.
    Implied,
    /// The accumulator is the operand.
    Accumulator,
    /// The byte after the opcode is the operand.
    Immediate,
    /// The byte after the opcode is an address in page zero.
    ZeroPage,
    /// Page-zero address plus `X`, wrapping inside page zero.
    ZeroPageX,
    /// Page-zero address plus `Y`, wrapping inside page zero.
    ZeroPageY,
    /// The word after the opcode is the address.
    Absolute,
    /// Absolute address plus `X`.
    AbsoluteX,
    /// Absolute address plus `Y`.
    AbsoluteY,
    /// The word after the opcode points at the address (`JMP` only).
    Indirect,
    /// The page-zero byte plus `X` points at the address.
    IndirectX,
    /// The page-zero byte points at a base address, to which `Y` is added.
    IndirectY,
    /// The byte after the opcode is a signed distance from the next
    /// instruction.
    Relative,
}

/// One row of the instruction set.
#[derive(Clone, Copy, Debug, PartialEq, Eq, Structural)]
pub struct Instruction {
    pub mnemonic: Mnemonic,
    pub mode: AddrMode,
    /// Cycles the instruction takes before any penalty.
    pub cycles: u8,
    /// One more cycle is due when addressing crosses a page.
    pub page_penalty: bool,
}

/// A row whose cost does not depend on page crossing.
pub open spec fn entry(mnemonic: Mnemonic, mode: AddrMode, cycles: u8) -> Option<Instruction> {
    Some(Instruction { mnemonic, mode, cycles, page_penalty: false })
}

/// A row that costs one more cycle when addressing crosses a page.
pub open spec fn paged(mnemonic: Mnemonic, mode: AddrMode, cycles: u8) -> Option<Instruction> {
    Some(Instruction { mnemonic, mode, cycles, page_penalty: true })
}

/// The instruction that an opcode byte selects, if any.
#[verifier::opaque]
pub open spec fn instruction_of(opcode: u8) -> Option<Instruction> {
    match opcode {
        0x00 => entry(Mnemonic::Brk, AddrMode::Implied, 7),
        0x01 => entry(Mnemonic::Ora, AddrMode::IndirectX, 6),
        0x02 => entry(Mnemonic::Kil, AddrMode::Implied, 2),
        0x03 => entry(Mnemonic::Slo, AddrMode::IndirectX, 8),
        0x04 => entry(Mnemonic::Nop, AddrMode::ZeroPage, 3),
        0x05 => entry(Mnemonic::Ora, AddrMode::ZeroPage, 3),
        0x06 => entry(Mnemonic::Asl, AddrMode::ZeroPage, 5),
        0x07 => entry(Mnemonic::Slo, AddrMode::ZeroPage, 5),
        0x08 => entry(Mnemonic::Php, AddrMode::Implied, 3),
        0x09 => entry(Mnemonic::Ora, AddrMode::Immediate, 2),
        0x0A => entry(Mnemonic::Asl, AddrMode::Accumulator, 2),
        0x0C => entry(Mnemonic::Nop, AddrMode::Absolute, 4),
        0x0D => entry(Mnemonic::Ora, AddrMode::Absolute, 4),
        0x0E => entry(Mnemonic::Asl, AddrMode::Absolute, 6),
        0x0F => entry(Mnemonic::Slo, AddrMode::Absolute, 6),
        0x10 => entry(Mnemonic::Bpl, AddrMode::Relative, 2),
        0x11 => paged(Mnemonic::Ora, AddrMode::IndirectY, 5),
        0x12 => entry(Mnemonic::Kil, AddrMode::Implied, 2),
        0x13 => entry(Mnemonic::Slo, AddrMode::IndirectY, 8),
        0x14 => entry(Mnemonic::Nop, AddrMode::ZeroPageX, 4),
        0x15 => entry(Mnemonic::Ora, AddrMode::ZeroPageX, 4),
        0x16 => entry(Mnemonic::Asl, AddrMode::ZeroPageX, 6),
        0x17 => entry(Mnemonic::Slo, AddrMode::ZeroPageX, 6),
        0x18 => entry(Mnemonic::Clc, AddrMode::Implied, 2),
        0x19 => paged(Mnemonic::Ora, AddrMode::AbsoluteY, 4),
        0x1A => entry(Mnemonic::Nop, AddrMode::Implied, 2),
        0x1B => entry(Mnemonic::Slo, AddrMode::AbsoluteY, 7),
        0x1C => entry(Mnemonic::Nop, AddrMode::AbsoluteX, 4),
        0x1D => paged(Mnemonic::Ora, AddrMode::AbsoluteX, 4),
        0x1E => entry(Mnemonic::Asl, AddrMode::AbsoluteX, 7),
        0x1F => entry(Mnemonic::Slo, AddrMode::AbsoluteX, 7),
        0x20 => entry(Mnemonic::Jsr, AddrMode::Absolute, 6),
        0x21 => entry(Mnemonic::And, AddrMode::IndirectX, 6),
        0x22 => entry(Mnemonic::Kil, AddrMode::Implied, 2),
        0x23 => entry(Mnemonic::Rla, AddrMode::IndirectX, 8),
        0x24 => entry(Mnemonic::Bit, AddrMode::ZeroPage, 3),
        0x25 => entry(Mnemonic::And, AddrMode::ZeroPage, 3),
        0x26 => entry(Mnemonic::Rol, AddrMode::ZeroPage, 5),
        0x27 => entry(Mnemonic::Rla, AddrMode::ZeroPage, 5),
        0x28 => entry(Mnemonic::Plp, AddrMode::Implied, 4),
        0x29 => entry(Mnemonic::And, AddrMode::Immediate, 2),
        0x2A => entry(Mnemonic::Rol, AddrMode::Accumulator, 2),
        0x2C => entry(Mnemonic::Bit, AddrMode::Absolute, 4),
        0x2D => entry(Mnemonic::And, AddrMode::Absolute, 4),
        0x2E => entry(Mnemonic::Rol, AddrMode::Absolute, 6),
        0x2F => entry(Mnemonic::Rla, AddrMode::Absolute, 6),
        0x30 => entry(Mnemonic::Bmi, AddrMode::Relative, 2),
        0x31 => paged(Mnemonic::And, AddrMode::IndirectY, 5),
        0x32 => entry(Mnemonic::Kil, AddrMode::Implied, 2),
        0x33 => entry(Mnemonic::Rla, AddrMode::IndirectY, 8),
        0x34 => entry(Mnemonic::Nop, AddrMode::ZeroPageX, 4),
        0x35 => entry(Mnemonic::And, AddrMode::ZeroPageX, 4),
        0x36 => entry(Mnemonic::Rol, AddrMode::ZeroPageX, 6),
        0x37 => entry(Mnemonic::Rla, AddrMode::ZeroPageX, 6),
        0x38 => entry(Mnemonic::Sec, AddrMode::Implied, 2),
        0x39 => paged(Mnemonic::And, AddrMode::AbsoluteY, 4),
        0x3A => entry(Mnemonic::Nop, AddrMode::Implied, 2),
        0x3B => entry(Mnemonic::Rla, AddrMode::AbsoluteY, 7),
        0x3C => entry(Mnemonic::Nop, AddrMode::AbsoluteX, 4),
        0x3D => paged(Mnemonic::And, AddrMode::AbsoluteX, 4),
        0x3E => entry(Mnemonic::Rol, AddrMode::AbsoluteX, 7),
        0x3F => entry(Mnemonic::Rla, AddrMode::AbsoluteX, 7),
        0x40 => entry(Mnemonic::Rti, AddrMode::Implied, 6),
        0x41 => entry(Mnemonic::Eor, AddrMode::IndirectX, 6),
        0x42 => entry(Mnemonic::Kil, AddrMode::Implied, 2),
        0x43 => entry(Mnemonic::Sre, AddrMode::IndirectX, 8),
        0x44 => entry(Mnemonic::Nop, AddrMode::ZeroPage, 3),
        0x45 => entry(Mnemonic::Eor, AddrMode::ZeroPage, 3),
        0x46 => entry(Mnemonic::Lsr, AddrMode::ZeroPage, 5),
        0x47 => entry(Mnemonic::Sre, AddrMode::ZeroPage, 5),
        0x48 => entry(Mnemonic::Pha, AddrMode::Implied, 3),
        0x49 => entry(Mnemonic::Eor, AddrMode::Immediate, 2),
        0x4A => entry(Mnemonic::Lsr, AddrMode::Accumulator, 2),
        0x4C => entry(Mnemonic::Jmp, AddrMode::Absolute, 3),
        0x4D => entry(Mnemonic::Eor, AddrMode::Absolute, 4),
        0x4E => entry(Mnemonic::Lsr, AddrMode::Absolute, 6),
        0x4F => entry(Mnemonic::Sre, AddrMode::Absolute, 6),
        0x50 => entry(Mnemonic::Bvc, AddrMode::Relative, 2),
        0x51 => paged(Mnemonic::Eor, AddrMode::IndirectY, 5),
        0x52 => entry(Mnemonic::Kil, AddrMode::Implied, 2),
        0x53 => entry(Mnemonic::Sre, AddrMode::IndirectY, 8),
        0x54 => entry(Mnemonic::Nop, AddrMode::ZeroPageX, 4),
        0x55 => entry(Mnemonic::Eor, AddrMode::ZeroPageX, 4),
        0x56 => entry(Mnemonic::Lsr, AddrMode::ZeroPageX, 6),
        0x57 => entry(Mnemonic::Sre, AddrMode::ZeroPageX, 6),
        0x58 => entry(Mnemonic::Cli, AddrMode::Implied, 2),
        0x59 => paged(Mnemonic::Eor, AddrMode::AbsoluteY, 4),
        0x5A => entry(Mnemonic::Nop, AddrMode::Implied, 2),
        0x5B => entry(Mnemonic::Sre, AddrMode::AbsoluteY, 7),
        0x5C => entry(Mnemonic::Nop, AddrMode::AbsoluteX, 4),
        0x5D => paged(Mnemonic::Eor, AddrMode::AbsoluteX, 4),
        0x5E => entry(Mnemonic::Lsr, AddrMode::AbsoluteX, 7),
        0x5F => entry(Mnemonic::Sre, AddrMode::AbsoluteX, 7),
        0x60 => entry(Mnemonic::Rts, AddrMode::Implied, 6),
        0x61 => entry(Mnemonic::Adc, AddrMode::IndirectX, 6),
        0x62 => entry(Mnemonic::Kil, AddrMode::Implied, 2),
        0x63 => entry(Mnemonic::Rra, AddrMode::IndirectX, 8),
        0x64 => entry(Mnemonic::Nop, AddrMode::ZeroPage, 3),
        0x65 => entry(Mnemonic::Adc, AddrMode::ZeroPage, 3),
        0x66 => entry(Mnemonic::Ror, AddrMode::ZeroPage, 5),
        0x67 => entry(Mnemonic::Rra, AddrMode::ZeroPage, 5),
        0x68 => entry(Mnemonic::Pla, AddrMode::Implied, 4),
        0x69 => entry(Mnemonic::Adc, AddrMode::Immediate, 2),
        0x6A => entry(Mnemonic::Ror, AddrMode::Accumulator, 2),
        0x6C => entry(Mnemonic::Jmp, AddrMode::Indirect, 5),
        0x6D => entry(Mnemonic::Adc, AddrMode::Absolute, 4),
        0x6E => entry(Mnemonic::Ror, AddrMode::Absolute, 6),
        0x6F => entry(Mnemonic::Rra, AddrMode::Absolute, 6),
        0x70 => entry(Mnemonic::Bvs, AddrMode::Relative, 2),
        0x71 => paged(Mnemonic::Adc, AddrMode::IndirectY, 5),
        0x72 => entry(Mnemonic::Kil, AddrMode::Implied, 2),
        0x73 => entry(Mnemonic::Rra, AddrMode::IndirectY, 8),
        0x74 => entry(Mnemonic::Nop, AddrMode::ZeroPageX, 4),
        0x75 => entry(Mnemonic::Adc, AddrMode::ZeroPageX, 4),
        0x76 => entry(Mnemonic::Ror, AddrMode::ZeroPageX, 6),
        0x77 => entry(Mnemonic::Rra, AddrMode::ZeroPageX, 6),
        0x78 => entry(Mnemonic::Sei, AddrMode::Implied, 2),
        0x79 => paged(Mnemonic::Adc, AddrMode::AbsoluteY, 4),
        0x7A => entry(Mnemonic::Nop, AddrMode::Implied, 2),
        0x7B => entry(Mnemonic::Rra, AddrMode::AbsoluteY, 7),
        0x7C => entry(Mnemonic::Nop, AddrMode::AbsoluteX, 4),
        0x7D => paged(Mnemonic::Adc, AddrMode::AbsoluteX, 4),
        0x7E => entry(Mnemonic::Ror, AddrMode::AbsoluteX, 7),
        0x7F => entry(Mnemonic::Rra, AddrMode::AbsoluteX, 7),
        0x80 => entry(Mnemonic::Nop, AddrMode::Immediate, 2),
        0x81 => entry(Mnemonic::Sta, AddrMode::IndirectX, 6),
        0x82 => entry(Mnemonic::Nop, AddrMode::Immediate, 2),
        0x83 => entry(Mnemonic::Sax, AddrMode::IndirectX, 6),
        0x84 => entry(Mnemonic::Sty, AddrMode::ZeroPage, 3),
        0x85 => entry(Mnemonic::Sta, AddrMode::ZeroPage, 3),
        0x86 => entry(Mnemonic::Stx, AddrMode::ZeroPage, 3),
        0x87 => entry(Mnemonic::Sax, AddrMode::ZeroPage, 3),
        0x88 => entry(Mnemonic::Dey, AddrMode::Implied, 2),
        0x89 => entry(Mnemonic::Nop, AddrMode::Immediate, 2),
        0x8A => entry(Mnemonic::Txa, AddrMode::Implied, 2),
        0x8C => entry(Mnemonic::Sty, AddrMode::Absolute, 4),
        0x8D => entry(Mnemonic::Sta, AddrMode::Absolute, 4),
        0x8E => entry(Mnemonic::Stx, AddrMode::Absolute, 4),
        0x8F => entry(Mnemonic::Sax, AddrMode::Absolute, 4),
        0x90 => entry(Mnemonic::Bcc, AddrMode::Relative, 2),
        0x91 => entry(Mnemonic::Sta, AddrMode::IndirectY, 6),
        0x92 => entry(Mnemonic::Kil, AddrMode::Implied, 2),
        0x94 => entry(Mnemonic::Sty, AddrMode::ZeroPageX, 4),
        0x95 => entry(Mnemonic::Sta, AddrMode::ZeroPageX, 4),
        0x96 => entry(Mnemonic::Stx, AddrMode::ZeroPageY, 4),
        0x97 => entry(Mnemonic::Sax, AddrMode::ZeroPageY, 4),
        0x98 => entry(Mnemonic::Tya, AddrMode::Implied, 2),
        0x99 => entry(Mnemonic::Sta, AddrMode::AbsoluteY, 5),
        0x9A => entry(Mnemonic::Txs, AddrMode::Implied, 2),
        0x9D => entry(Mnemonic::Sta, AddrMode::AbsoluteX, 5),
        0xA0 => entry(Mnemonic::Ldy, AddrMode::Immediate, 2),
        0xA1 => entry(Mnemonic::Lda, AddrMode::IndirectX, 6),
        0xA2 => entry(Mnemonic::Ldx, AddrMode::Immediate, 2),
        0xA3 => entry(Mnemonic::Lax, AddrMode::IndirectX, 6),
        0xA4 => entry(Mnemonic::Ldy, AddrMode::ZeroPage, 3),
        0xA5 => entry(Mnemonic::Lda, AddrMode::ZeroPage, 3),
        0xA6 => entry(Mnemonic::Ldx, AddrMode::ZeroPage, 3),
        0xA7 => entry(Mnemonic::Lax, AddrMode::ZeroPage, 3),
        0xA8 => entry(Mnemonic::Tay, AddrMode::Implied, 2),
        0xA9 => entry(Mnemonic::Lda, AddrMode::Immediate, 2),
        0xAA => entry(Mnemonic::Tax, AddrMode::Implied, 2),
        0xAC => entry(Mnemonic::Ldy, AddrMode::Absolute, 4),
        0xAD => entry(Mnemonic::Lda, AddrMode::Absolute, 4),
        0xAE => entry(Mnemonic::Ldx, AddrMode::Absolute, 4),
        0xAF => entry(Mnemonic::Lax, AddrMode::Absolute, 4),
        0xB0 => entry(Mnemonic::Bcs, AddrMode::Relative, 2),
        0xB1 => paged(Mnemonic::Lda, AddrMode::IndirectY, 5),
        0xB2 => entry(Mnemonic::Kil, AddrMode::Implied, 2),
        0xB3 => paged(Mnemonic::Lax, AddrMode::IndirectY, 5),
        0xB4 => entry(Mnemonic::Ldy, AddrMode::ZeroPageX, 4),
        0xB5 => entry(Mnemonic::Lda, AddrMode::ZeroPageX, 4),
        0xB6 => entry(Mnemonic::Ldx, AddrMode::ZeroPageY, 4),
        0xB7 => entry(Mnemonic::Lax, AddrMode::ZeroPageY, 4),
        0xB8 => entry(Mnemonic::Clv, AddrMode::Implied, 2),
        0xB9 => paged(Mnemonic::Lda, AddrMode::AbsoluteY, 4),
        0xBA => entry(Mnemonic::Tsx, AddrMode::Implied, 2),
        0xBC => paged(Mnemonic::Ldy, AddrMode::AbsoluteX, 4),
        0xBD => paged(Mnemonic::Lda, AddrMode::AbsoluteX, 4),
        0xBE => paged(Mnemonic::Ldx, AddrMode::AbsoluteY, 4),
        0xBF => paged(Mnemonic::Lax, AddrMode::AbsoluteY, 4),
        0xC0 => entry(Mnemonic::Cpy, AddrMode::Immediate, 2),
        0xC1 => entry(Mnemonic::Cmp, AddrMode::IndirectX, 6),
        0xC2 => entry(Mnemonic::Nop, AddrMode::Immediate, 2),
        0xC3 => entry(Mnemonic::Dcp, AddrMode::IndirectX, 8),
        0xC4 => entry(Mnemonic::Cpy, AddrMode::ZeroPage, 3),
        0xC5 => entry(Mnemonic::Cmp, AddrMode::ZeroPage, 3),
        0xC6 => entry(Mnemonic::Dec, AddrMode::ZeroPage, 5),
        0xC7 => entry(Mnemonic::Dcp, AddrMode::ZeroPage, 5),
        0xC8 => entry(Mnemonic::Iny, AddrMode::Implied, 2),
        0xC9 => entry(Mnemonic::Cmp, AddrMode::Immediate, 2),
        0xCA => entry(Mnemonic::Dex, AddrMode::Implied, 2),
        0xCC => entry(Mnemonic::Cpy, AddrMode::Absolute, 4),
        0xCD => entry(Mnemonic::Cmp, AddrMode::Absolute, 4),
        0xCE => entry(Mnemonic::Dec, AddrMode::Absolute, 6),
        0xCF => entry(Mnemonic::Dcp, AddrMode::Absolute, 6),
        0xD0 => entry(Mnemonic::Bne, AddrMode::Relative, 2),
        0xD1 => paged(Mnemonic::Cmp, AddrMode::IndirectY, 5),
        0xD2 => entry(Mnemonic::Kil, AddrMode::Implied, 2),
        0xD3 => entry(Mnemonic::Dcp, AddrMode::IndirectY, 8),
        0xD4 => entry(Mnemonic::Nop, AddrMode::ZeroPageX, 4),
        0xD5 => entry(Mnemonic::Cmp, AddrMode::ZeroPageX, 4),
        0xD6 => entry(Mnemonic::Dec, AddrMode::ZeroPageX, 6),
        0xD7 => entry(Mnemonic::Dcp, AddrMode::ZeroPageX, 6),
        0xD8 => entry(Mnemonic::Cld, AddrMode::Implied, 2),
        0xD9 => paged(Mnemonic::Cmp, AddrMode::AbsoluteY, 4),
        0xDA => entry(Mnemonic::Nop, AddrMode::Implied, 2),
        0xDB => entry(Mnemonic::Dcp, AddrMode::AbsoluteY, 7),
        0xDC => entry(Mnemonic::Nop, AddrMode::AbsoluteX, 4),
        0xDD => paged(Mnemonic::Cmp, AddrMode::AbsoluteX, 4),
        0xDE => entry(Mnemonic::Dec, AddrMode::AbsoluteX, 7),
        0xDF => entry(Mnemonic::Dcp, AddrMode::AbsoluteX, 7),
        0xE0 => entry(Mnemonic::Cpx, AddrMode::Immediate, 2),
        0xE1 => entry(Mnemonic::Sbc, AddrMode::IndirectX, 6),
        0xE2 => entry(Mnemonic::Nop, AddrMode::Immediate, 2),
        0xE3 => entry(Mnemonic::Isc, AddrMode::IndirectX, 8),
        0xE4 => entry(Mnemonic::Cpx, AddrMode::ZeroPage, 3),
        0xE5 => entry(Mnemonic::Sbc, AddrMode::ZeroPage, 3),
        0xE6 => entry(Mnemonic::Inc, AddrMode::ZeroPage, 5),
        0xE7 => entry(Mnemonic::Isc, AddrMode::ZeroPage, 5),
        0xE8 => entry(Mnemonic::Inx, AddrMode::Implied, 2),
        0xE9 => entry(Mnemonic::Sbc, AddrMode::Immediate, 2),
        0xEA => entry(Mnemonic::Nop, AddrMode::Implied, 2),
        0xEC => entry(Mnemonic::Cpx, AddrMode::Absolute, 4),
        0xED => entry(Mnemonic::Sbc, AddrMode::Absolute, 4),
        0xEE => entry(Mnemonic::Inc, AddrMode::Absolute, 6),
        0xEF => entry(Mnemonic::Isc, AddrMode::Absolute, 6),
        0xF0 => entry(Mnemonic::Beq, AddrMode::Relative, 2),
        0xF1 => paged(Mnemonic::Sbc, AddrMode::IndirectY, 5),
        0xF2 => entry(Mnemonic::Kil, AddrMode::Implied, 2),
        0xF3 => entry(Mnemonic::Isc, AddrMode::IndirectY, 8),
        0xF4 => entry(Mnemonic::Nop, AddrMode::ZeroPageX, 4),
        0xF5 => entry(Mnemonic::Sbc, AddrMode::ZeroPageX, 4),
        0xF6 => entry(Mnemonic::Inc, AddrMode::ZeroPageX, 6),
        0xF7 => entry(Mnemonic::Isc, AddrMode::ZeroPageX, 6),
        0xF8 => entry(Mnemonic::Sed, AddrMode::Implied, 2),
        0xF9 => paged(Mnemonic::Sbc, AddrMode::AbsoluteY, 4),
        0xFA => entry(Mnemonic::Nop, AddrMode::Implied, 2),
        0xFB => entry(Mnemonic::Isc, AddrMode::AbsoluteY, 7),
        0xFC => entry(Mnemonic::Nop, AddrMode::AbsoluteX, 4),
        0xFD => paged(Mnemonic::Sbc, AddrMode::AbsoluteX, 4),
        0xFE => entry(Mnemonic::Inc, AddrMode::AbsoluteX, 7),
        0xFF => entry(Mnemonic::Isc, AddrMode::AbsoluteX, 7),
        _ => None,
    }
}

/// Number of operand bytes that follow the opcode.
pub open spec fn operand_len(mode: AddrMode) -> int {
    match mode {
        AddrMode::Implied | AddrMode::Accumulator => 0,
        AddrMode::Absolute | AddrMode::AbsoluteX | AddrMode::AbsoluteY | AddrMode::Indirect => 2,
        _ => 1,
    }
}

/// The operation only reads its operand and works on a register: these are
/// the operations that pay for a crossed page.
pub open spec fn reads_operand(mnemonic: Mnemonic) -> bool {
    matches!(
        mnemonic,
        Mnemonic::Lda | Mnemonic::Ldx | Mnemonic::Ldy | Mnemonic::Eor | Mnemonic::And
            | Mnemonic::Ora | Mnemonic::Adc | Mnemonic::Sbc | Mnemonic::Cmp | Mnemonic::Lax
    )
}

/// The mode adds an index register to a 16-bit base, so that the sum can
/// lie in another page than the base.
pub open spec fn can_cross_page(mode: AddrMode) -> bool {
    matches!(mode, AddrMode::AbsoluteX | AddrMode::AbsoluteY | AddrMode::IndirectY)
}

/// The mode names a byte in memory that an instruction can write.
pub open spec fn addresses_memory(mode: AddrMode) -> bool {
    !matches!(
        mode,
        AddrMode::Implied | AddrMode::Accumulator | AddrMode::Immediate | AddrMode::Relative
    )
}

/// The operation is one of the eight conditional branches.
pub open spec fn is_branch(mnemonic: Mnemonic) -> bool {
    matches!(
        mnemonic,
        Mnemonic::Bpl | Mnemonic::Bmi | Mnemonic::Bvc | Mnemonic::Bvs | Mnemonic::Bcc
            | Mnemonic::Bcs | Mnemonic::Bne | Mnemonic::Beq
    )
}

/// The operation is one of the four shifts and rotates.
pub open spec fn is_shift(mnemonic: Mnemonic) -> bool {
    matches!(mnemonic, Mnemonic::Asl | Mnemonic::Lsr | Mnemonic::Rol | Mnemonic::Ror)
}

/// The operation stores to its operand.
pub open spec fn writes_memory(mnemonic: Mnemonic) -> bool {
    matches!(
        mnemonic,
        Mnemonic::Sta | Mnemonic::Stx | Mnemonic::Sty | Mnemonic::Sax | Mnemonic::Inc
            | Mnemonic::Dec | Mnemonic::Asl | Mnemonic::Lsr | Mnemonic::Rol | Mnemonic::Ror
            | Mnemonic::Slo | Mnemonic::Rla | Mnemonic::Sre | Mnemonic::Rra | Mnemonic::Dcp
            | Mnemonic::Isc
    )
}

} // verus!
