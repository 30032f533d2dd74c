use nes_emulator::cartridge::LoadError;
use nes_emulator::emulator::NESEmulator;
use nes_emulator::state::CpuState;
use nes_emulator::step::CpuError;

/// An image with one program bank; each segment is placed at its address in
/// the window, and the three vectors are set.
fn image(segments: &[(u16, &[u8])], reset: u16, irq: u16) -> Vec<u8> {
    let mut img = vec![0x4E, 0x45, 0x53, 0x1A, 1, 0];
    img.resize(16 + 0x4000, 0);
    for (addr, bytes) in segments {
        for (i, b) in bytes.iter().enumerate() {
            img[16 + ((*addr as usize + i) & 0x3FFF)] = *b;
        }
    }
    img[16 + 0x3FFC] = reset as u8;
    img[16 + 0x3FFD] = (reset >> 8) as u8;
    img[16 + 0x3FFE] = irq as u8;
    img[16 + 0x3FFF] = (irq >> 8) as u8;
    img
}

fn console(segments: &[(u16, &[u8])], reset: u16) -> NESEmulator {
    let mut emu = NESEmulator::new();
    match emu.load_rom(&image(segments, reset, 0x9000)) {
        Ok(_) => emu,
        Err(e) => panic!("the image was refused: {:?}", e),
    }
}

fn regs(emu: &NESEmulator) -> CpuState {
    emu.cpu().state()
}

#[test]
fn power_on_state() {
    let emu = NESEmulator::new();
    let c = regs(&emu);
    assert_eq!((c.a, c.x, c.y, c.s, c.pc, c.p), (0, 0, 0, 0xFD, 0, 0x24));
    assert!(!c.halted && !c.nmi_pending && !c.irq_line);
}

#[test]
fn reset_from_hand_crafted_rom() {
    let mut emu = console(&[(0xC000, &[0xA9, 0x42, 0x00])], 0x8000);
    let c = regs(&emu);
    assert_eq!((c.a, c.x, c.y, c.s, c.p), (0, 0, 0, 0xFD, 0x24));
    assert_eq!(c.pc, 0x8000);
    // The single bank is visible at 8000 and at C000.
    assert_eq!(emu.read(0x8000), 0xA9);
    assert_eq!(emu.read(0xC000), 0xA9);
    assert_eq!(emu.step(), Ok(2));
    let c = regs(&emu);
    assert_eq!(c.a, 0x42);
    assert!(!emu.cpu().zero());
    assert!(!emu.cpu().negative());
    assert_eq!(c.pc, 0x8002);
    assert_eq!(emu.step(), Ok(7));
    let c = regs(&emu);
    assert_eq!(c.a, 0x42);
    assert!(!emu.cpu().zero());
    assert!(!emu.cpu().negative());
    assert_eq!(c.pc, 0x9000);
}

#[test]
fn reset_vector_in_the_mirror() {
    let emu = console(&[(0xC000, &[0xA9, 0x42, 0x00])], 0xC000);
    assert_eq!(regs(&emu).pc, 0xC000);
}

#[test]
fn stack_discipline() {
    let mut emu = console(&[(0x8000, &[0x48, 0x68])], 0x8000);
    let c = regs(&emu);
    assert_eq!(c.s, 0xFD);
    emu.set_cpu(CpuState { a: 0xAB, ..c });
    assert_eq!(emu.step(), Ok(3));
    assert_eq!(regs(&emu).s, 0xFC);
    assert_eq!(emu.read(0x01FD), 0xAB);
    let c = regs(&emu);
    emu.set_cpu(CpuState { a: 0x00, ..c });
    assert_eq!(emu.step(), Ok(4));
    let c = regs(&emu);
    assert_eq!(c.a, 0xAB);
    assert_eq!(c.s, 0xFD);
    assert_eq!(emu.read(0x01FD), 0xAB);
    assert!(!emu.cpu().zero());
    assert!(emu.cpu().negative());
}

#[test]
fn jsr_rts_round_trip() {
    let mut emu = console(&[(0x8000, &[0x20, 0x10, 0x80, 0xEA]), (0x8010, &[0x60])], 0x8000);
    let mut cycles: u32 = 0;
    cycles += emu.step().unwrap() as u32;
    let c = regs(&emu);
    assert_eq!(c.pc, 0x8010);
    assert_eq!(c.s, 0xFB);
    // The address pushed is that of the last byte of the JSR.
    assert_eq!(emu.read(0x01FD), 0x80);
    assert_eq!(emu.read(0x01FC), 0x02);
    cycles += emu.step().unwrap() as u32;
    let c = regs(&emu);
    assert_eq!(c.pc, 0x8003);
    assert_eq!(c.s, 0xFD);
    cycles += emu.step().unwrap() as u32;
    assert_eq!(cycles, 14);
    assert_eq!(regs(&emu).s, 0xFD);
    assert_eq!(regs(&emu).pc, 0x8004);
}

#[test]
fn indirect_jmp_page_bug() {
    // The pointer sits in the last byte of a RAM page.
    let mut emu = console(&[(0x8000, &[0x6C, 0xFF, 0x02])], 0x8000);
    emu.write(0x02FF, 0x40);
    emu.write(0x0200, 0x80);
    emu.write(0x0300, 0x99);
    assert_eq!(emu.step(), Ok(5));
    assert_eq!(regs(&emu).pc, 0x8040);
}

#[test]
fn indirect_jmp_without_page_wrap() {
    let mut emu = console(&[(0x8000, &[0x6C, 0xFE, 0x02])], 0x8000);
    emu.write(0x02FE, 0x40);
    emu.write(0x02FF, 0x80);
    assert_eq!(emu.step(), Ok(5));
    assert_eq!(regs(&emu).pc, 0x8040);
}

#[test]
fn indirect_jmp_through_the_register_window() {
    // 30FF, 3000 and 3100 lie in the picture unit's window: writes there are
    // absorbed and reads give 0, so the jump leads to address 0.
    let mut emu = console(&[(0x8000, &[0x6C, 0xFF, 0x30])], 0x8000);
    emu.write(0x30FF, 0x40);
    emu.write(0x3000, 0x80);
    emu.write(0x3100, 0x99);
    assert_eq!(emu.step(), Ok(5));
    assert_eq!(regs(&emu).pc, 0x0000);
}

#[test]
fn adc_overflow() {
    let mut emu = console(&[(0x8000, &[0x69, 0x50])], 0x8000);
    let c = regs(&emu);
    emu.set_cpu(CpuState { a: 0x50, p: 0x24, ..c });
    assert_eq!(emu.step(), Ok(2));
    assert_eq!(regs(&emu).a, 0xA0);
    assert!(emu.cpu().negative());
    assert!(emu.cpu().overflow());
    assert!(!emu.cpu().zero());
    assert!(!emu.cpu().carry());
}

#[test]
fn ines_rejection() {
    let mut emu = console(&[(0x8000, &[0xA9, 0x42])], 0x8000);
    emu.write(0x0010, 0x55);
    let before = regs(&emu);
    let mut bad = image(&[(0x8000, &[0xEA, 0xEA])], 0x8123, 0x9000);
    bad[0] = 0x58;
    assert_eq!(emu.load_rom(&bad), Err(LoadError::BadMagic));
    assert_eq!(regs(&emu), before);
    assert_eq!(emu.read(0x8000), 0xA9);
    assert_eq!(emu.read(0x8001), 0x42);
    assert_eq!(emu.read(0xFFFC), 0x00);
    assert_eq!(emu.read(0xFFFD), 0x80);
    assert_eq!(emu.read(0x0010), 0x55);
}

#[test]
fn refused_images_leave_the_console_alone() {
    let mut emu = console(&[(0x8000, &[0xA9, 0x42])], 0x8000);
    let before = regs(&emu);
    let mut other_mapper = image(&[], 0x8123, 0x9000);
    other_mapper[6] = 0x10;
    assert_eq!(emu.load_rom(&other_mapper), Err(LoadError::UnsupportedMapper(1)));
    let short = image(&[], 0x8123, 0x9000);
    assert_eq!(emu.load_rom(&short[..100]), Err(LoadError::TruncatedROM));
    assert_eq!(regs(&emu), before);
    assert_eq!(emu.read(0x8000), 0xA9);
}

#[test]
fn loading_resets_the_processor_and_keeps_ram() {
    let mut emu = console(&[(0x8000, &[0xA9, 0x42])], 0x8000);
    emu.write(0x0010, 0x55);
    assert_eq!(emu.step(), Ok(2));
    let r = emu.load_rom(&image(&[(0x8000, &[0xEA])], 0x8123, 0x9000));
    assert!(r.is_ok());
    let info = r.unwrap();
    assert_eq!(info.prg_banks, 1);
    assert_eq!(info.mapper, 0);
    let c = regs(&emu);
    assert_eq!((c.a, c.x, c.y, c.s, c.pc, c.p), (0, 0, 0, 0xFD, 0x8123, 0x24));
    assert_eq!(emu.read(0x8000), 0xEA);
    assert_eq!(emu.read(0x0010), 0x55);
}

#[test]
fn lda_indirect_y_wraps_in_page_zero() {
    // LDA ($FF),Y: the pointer's low byte is at 00FF, its high byte at 0000.
    let mut emu = console(&[(0x8000, &[0xB1, 0xFF])], 0x8000);
    emu.write(0x00FF, 0x10);
    emu.write(0x0000, 0x02);
    emu.write(0x0100, 0x07); // where the high byte would be without the wrap
    emu.write(0x0213, 0x99);
    let c = regs(&emu);
    emu.set_cpu(CpuState { y: 0x03, ..c });
    assert_eq!(emu.step(), Ok(5));
    assert_eq!(regs(&emu).a, 0x99);
}

#[test]
fn page_crossing_costs_reads_but_not_writes() {
    // LDA $10FF,X with X = 1, then STA $10FF,X.
    let mut emu = console(&[(0x8000, &[0xBD, 0xFF, 0x10, 0x9D, 0xFF, 0x10])], 0x8000);
    let c = regs(&emu);
    emu.set_cpu(CpuState { x: 1, ..c });
    assert_eq!(emu.step(), Ok(5));
    assert_eq!(emu.step(), Ok(5));
    // Without crossing, the load costs 4 and the store still 5.
    let mut emu = console(&[(0x8000, &[0xBD, 0xFE, 0x10, 0x9D, 0xFE, 0x10])], 0x8000);
    let c = regs(&emu);
    emu.set_cpu(CpuState { x: 1, ..c });
    assert_eq!(emu.step(), Ok(4));
    assert_eq!(emu.step(), Ok(5));
}

#[test]
fn branch_backwards_by_128() {
    // BPL $80 at 1000, which is RAM address 0000 seen through a mirror.
    let mut emu = NESEmulator::new();
    emu.write(0x1000, 0x10);
    emu.write(0x1001, 0x80);
    let c = regs(&emu);
    emu.set_cpu(CpuState { pc: 0x1000, ..c });
    assert_eq!(emu.step(), Ok(4));
    assert_eq!(regs(&emu).pc, 0x0F82);
}

#[test]
fn push_then_pull_restores_every_byte_at_every_stack_pointer() {
    let mut emu = console(&[(0x8000, &[0x48, 0x68])], 0x8000);
    for s in [0x00u8, 0x01, 0x7F, 0xFD, 0xFF] {
        for b in [0x00u8, 0x01, 0x7F, 0x80, 0xFF] {
            let c = regs(&emu);
            emu.set_cpu(CpuState { a: b, s, pc: 0x8000, ..c });
            assert_eq!(emu.step(), Ok(3));
            assert_eq!(regs(&emu).s, s.wrapping_sub(1));
            assert_eq!(emu.read(0x0100 + s as u16), b);
            let c = regs(&emu);
            emu.set_cpu(CpuState { a: !b, ..c });
            assert_eq!(emu.step(), Ok(4));
            assert_eq!(regs(&emu).a, b);
            assert_eq!(regs(&emu).s, s);
        }
    }
}

#[test]
fn unknown_opcode_halts() {
    let mut emu = console(&[(0x8000, &[0xEA, 0x0B])], 0x8000);
    assert_eq!(emu.step(), Ok(2));
    let before = regs(&emu);
    assert_eq!(emu.step(), Err(CpuError::UnknownOpcode(0x0B, 0x8001)));
    let c = regs(&emu);
    assert!(c.halted);
    assert_eq!(c, CpuState { halted: true, ..before });
    assert_eq!(emu.step(), Err(CpuError::Halt));
    assert_eq!(regs(&emu), c);
}
