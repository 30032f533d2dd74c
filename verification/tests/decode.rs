use nes_emulator::decode::{decode, is_indexed, is_read, operand_bytes};
use nes_emulator::opcode::{AddrMode, Instruction, Mnemonic};

#[test]
fn table_has_242_rows() {
    let rows = (0..=255u8).filter(|op| decode(*op).is_some()).count();
    assert_eq!(rows, 242);
}

#[test]
fn unassigned_opcodes() {
    let unassigned: Vec<u8> = (0..=255u8).filter(|op| decode(*op).is_none()).collect();
    assert_eq!(
        unassigned,
        vec![0x0B, 0x2B, 0x4B, 0x6B, 0x8B, 0x93, 0x9B, 0x9C, 0x9E, 0x9F, 0xAB, 0xBB, 0xCB, 0xEB]
    );
}

#[test]
fn documented_opcodes_number_151() {
    let undocumented = [
        Mnemonic::Slo,
        Mnemonic::Rla,
        Mnemonic::Sre,
        Mnemonic::Rra,
        Mnemonic::Sax,
        Mnemonic::Lax,
        Mnemonic::Dcp,
        Mnemonic::Isc,
        Mnemonic::Kil,
    ];
    let mut documented = 0;
    for op in 0..=255u8 {
        if let Some(i) = decode(op) {
            if undocumented.contains(&i.mnemonic) {
                continue;
            }
            if i.mnemonic == Mnemonic::Nop && op != 0xEA {
                continue;
            }
            documented += 1;
        }
    }
    assert_eq!(documented, 151);
}

#[test]
fn sample_rows() {
    let row = |mnemonic, mode, cycles, page_penalty| {
        Some(Instruction { mnemonic, mode, cycles, page_penalty })
    };
    assert_eq!(decode(0x00), row(Mnemonic::Brk, AddrMode::Implied, 7, false));
    assert_eq!(decode(0xA9), row(Mnemonic::Lda, AddrMode::Immediate, 2, false));
    assert_eq!(decode(0xBD), row(Mnemonic::Lda, AddrMode::AbsoluteX, 4, true));
    assert_eq!(decode(0x9D), row(Mnemonic::Sta, AddrMode::AbsoluteX, 5, false));
    assert_eq!(decode(0x91), row(Mnemonic::Sta, AddrMode::IndirectY, 6, false));
    assert_eq!(decode(0xB1), row(Mnemonic::Lda, AddrMode::IndirectY, 5, true));
    assert_eq!(decode(0x6C), row(Mnemonic::Jmp, AddrMode::Indirect, 5, false));
    assert_eq!(decode(0x20), row(Mnemonic::Jsr, AddrMode::Absolute, 6, false));
    assert_eq!(decode(0x60), row(Mnemonic::Rts, AddrMode::Implied, 6, false));
    assert_eq!(decode(0x0A), row(Mnemonic::Asl, AddrMode::Accumulator, 2, false));
    assert_eq!(decode(0xFE), row(Mnemonic::Inc, AddrMode::AbsoluteX, 7, false));
    assert_eq!(decode(0xB6), row(Mnemonic::Ldx, AddrMode::ZeroPageY, 4, false));
    assert_eq!(decode(0xBE), row(Mnemonic::Ldx, AddrMode::AbsoluteY, 4, true));
    assert_eq!(decode(0xD0), row(Mnemonic::Bne, AddrMode::Relative, 2, false));
    assert_eq!(decode(0xC9), row(Mnemonic::Cmp, AddrMode::Immediate, 2, false));
    assert_eq!(decode(0xB3), row(Mnemonic::Lax, AddrMode::IndirectY, 5, true));
    assert_eq!(decode(0x03), row(Mnemonic::Slo, AddrMode::IndirectX, 8, false));
    assert_eq!(decode(0xFB), row(Mnemonic::Isc, AddrMode::AbsoluteY, 7, false));
    assert_eq!(decode(0x02), row(Mnemonic::Kil, AddrMode::Implied, 2, false));
    assert_eq!(decode(0xEB), None);
}

#[test]
fn penalty_only_on_indexed_reads() {
    for op in 0..=255u8 {
        if let Some(i) = decode(op) {
            assert_eq!(i.page_penalty, is_read(i.mnemonic) && is_indexed(i.mode), "{:02X}", op);
            assert!(2 <= i.cycles && i.cycles <= 8);
        }
    }
    assert!(is_read(Mnemonic::Lda) && is_read(Mnemonic::Cmp) && is_read(Mnemonic::Lax));
    assert!(!is_read(Mnemonic::Sta) && !is_read(Mnemonic::Inc) && !is_read(Mnemonic::Nop));
    assert!(is_indexed(AddrMode::AbsoluteX) && is_indexed(AddrMode::IndirectY));
    assert!(!is_indexed(AddrMode::ZeroPageX) && !is_indexed(AddrMode::IndirectX));
}

#[test]
fn operand_lengths() {
    assert_eq!(operand_bytes(AddrMode::Implied), 0);
    assert_eq!(operand_bytes(AddrMode::Accumulator), 0);
    assert_eq!(operand_bytes(AddrMode::Immediate), 1);
    assert_eq!(operand_bytes(AddrMode::ZeroPage), 1);
    assert_eq!(operand_bytes(AddrMode::ZeroPageX), 1);
    assert_eq!(operand_bytes(AddrMode::ZeroPageY), 1);
    assert_eq!(operand_bytes(AddrMode::IndirectX), 1);
    assert_eq!(operand_bytes(AddrMode::IndirectY), 1);
    assert_eq!(operand_bytes(AddrMode::Relative), 1);
    assert_eq!(operand_bytes(AddrMode::Absolute), 2);
    assert_eq!(operand_bytes(AddrMode::AbsoluteX), 2);
    assert_eq!(operand_bytes(AddrMode::AbsoluteY), 2);
    assert_eq!(operand_bytes(AddrMode::Indirect), 2);
}
