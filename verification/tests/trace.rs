use nes_emulator::emulator::NESEmulator;
use nes_emulator::opcode::Mnemonic;
use nes_emulator::state::CpuState;
use nes_emulator::trace::{name_of, push_binary_byte, push_hex_byte, push_hex_word, push_text};

fn text(chars: &[char]) -> String {
    chars.iter().collect()
}

fn line_for(program: &[u8], a: u8, x: u8, y: u8, p: u8) -> String {
    let mut emu = NESEmulator::new();
    for (i, b) in program.iter().enumerate() {
        emu.write(0x0200 + i as u16, *b);
    }
    let c = emu.cpu().state();
    emu.set_cpu(CpuState { a, x, y, p, pc: 0x0200, ..c });
    text(&emu.trace_line())
}

#[test]
fn hex_digits_are_upper_case() {
    let mut out = Vec::new();
    push_hex_byte(&mut out, 0x00);
    push_hex_byte(&mut out, 0x9A);
    push_hex_byte(&mut out, 0xFF);
    push_hex_word(&mut out, 0xBEEF);
    push_hex_word(&mut out, 0x0012);
    assert_eq!(text(&out), "009AFFBEEF0012");
}

#[test]
fn binary_digits_start_with_bit_seven() {
    let mut out = Vec::new();
    push_binary_byte(&mut out, 0x24);
    assert_eq!(text(&out), "00100100");
    let mut out = vec!['p'];
    push_binary_byte(&mut out, 0x81);
    assert_eq!(text(&out), "p10000001");
}

#[test]
fn text_is_appended() {
    let mut out = vec!['a'];
    push_text(&mut out, "bc");
    push_text(&mut out, "");
    push_text(&mut out, "d");
    assert_eq!(text(&out), "abcd");
}

#[test]
fn names_have_three_letters() {
    assert_eq!(name_of(Mnemonic::Lda), "LDA");
    assert_eq!(name_of(Mnemonic::Cmp), "CMP");
    assert_eq!(name_of(Mnemonic::Brk), "BRK");
    assert_eq!(name_of(Mnemonic::Isc), "ISC");
    assert_eq!(name_of(Mnemonic::Kil), "KIL");
}

#[test]
fn line_dumps_registers_and_instruction() {
    assert_eq!(
        line_for(&[0xA9, 0x42], 0x01, 0x02, 0x03, 0xA5),
        "[0200] a:01 x:02 y:03 s:FD p:10100101 op: LDA #$42"
    );
}

#[test]
fn line_after_power_on() {
    let emu = NESEmulator::new();
    assert_eq!(text(&emu.trace_line()), "[0000] a:00 x:00 y:00 s:FD p:00100100 op: BRK");
}

#[test]
fn operands_in_assembler_syntax() {
    let head = "[0200] a:00 x:00 y:00 s:FD p:00100100 op: ";
    let cases: [(&[u8], &str); 14] = [
        (&[0xEA], "NOP"),
        (&[0x0A], "ASL A"),
        (&[0xA9, 0x0F], "LDA #$0F"),
        (&[0xA5, 0x10], "LDA $10"),
        (&[0xB5, 0x10], "LDA $10,X"),
        (&[0xB6, 0x10], "LDX $10,Y"),
        (&[0xAD, 0x34, 0x12], "LDA $1234"),
        (&[0xBD, 0x34, 0x12], "LDA $1234,X"),
        (&[0xB9, 0x34, 0x12], "LDA $1234,Y"),
        (&[0x6C, 0xFF, 0x30], "JMP ($30FF)"),
        (&[0xA1, 0x20], "LDA ($20,X)"),
        (&[0xB1, 0x20], "LDA ($20),Y"),
        (&[0xD0, 0xFE], "BNE $0200"),
        (&[0xC9, 0x01], "CMP #$01"),
    ];
    for (program, expected) in cases {
        assert_eq!(line_for(program, 0, 0, 0, 0x24), format!("{}{}", head, expected));
    }
}

#[test]
fn unknown_opcode_is_shown_as_a_byte() {
    assert_eq!(
        line_for(&[0xEB], 0, 0, 0, 0x24),
        "[0200] a:00 x:00 y:00 s:FD p:00100100 op: ??? $EB"
    );
}

#[test]
fn tracing_changes_nothing() {
    let mut emu = NESEmulator::new();
    emu.write(0x0000, 0xA9);
    emu.write(0x0001, 0x42);
    let before = emu.cpu().state();
    let first = text(&emu.trace_line());
    let second = text(&emu.trace_line());
    assert_eq!(first, second);
    assert_eq!(emu.cpu().state(), before);
    assert_eq!(emu.step(), Ok(2));
    assert_eq!(text(&emu.trace_line()), "[0002] a:42 x:00 y:00 s:FD p:00100100 op: BRK");
}
