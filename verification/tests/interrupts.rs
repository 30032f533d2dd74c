use nes_emulator::bus::Bus;
use nes_emulator::cpu::Cpu;
use nes_emulator::emulator::{NESEmulator, RunSummary};
use nes_emulator::state::CpuState;
use nes_emulator::step::CpuError;

/// One program bank with `program` at 8000 and the vectors for the
/// non-maskable interrupt, reset and interrupt request.
fn image(program: &[u8], nmi: u16, reset: u16, irq: u16) -> Vec<u8> {
    let mut img = vec![0x4E, 0x45, 0x53, 0x1A, 1, 0];
    img.resize(16 + 0x4000, 0);
    img[16..16 + program.len()].copy_from_slice(program);
    let vectors = [nmi, reset, irq];
    for (i, v) in vectors.iter().enumerate() {
        img[16 + 0x3FFA + 2 * i] = *v as u8;
        img[16 + 0x3FFB + 2 * i] = (*v >> 8) as u8;
    }
    img
}

fn console(program: &[u8]) -> NESEmulator {
    let mut emu = NESEmulator::new();
    assert!(emu.load_rom(&image(program, 0x9000, 0x8000, 0xA000)).is_ok());
    emu
}

fn regs(emu: &NESEmulator) -> CpuState {
    emu.cpu().state()
}

#[test]
fn nmi_is_taken_before_the_next_instruction() {
    let mut emu = console(&[0xEA, 0xEA]);
    assert_eq!(emu.step(), Ok(2));
    emu.trigger_nmi();
    assert!(regs(&emu).nmi_pending);
    let c = regs(&emu);
    emu.set_cpu(CpuState { p: 0x21, ..c });
    assert_eq!(emu.step(), Ok(7));
    let c = regs(&emu);
    assert_eq!(c.pc, 0x9000);
    assert!(!c.nmi_pending);
    assert_eq!(c.s, 0xFA);
    assert_eq!(emu.read(0x01FD), 0x80);
    assert_eq!(emu.read(0x01FC), 0x01);
    // The copy of the status on the stack has bit 5 set and B clear.
    assert_eq!(emu.read(0x01FB), 0x21);
    assert_eq!(c.p, 0x25);
}

#[test]
fn nmi_is_taken_even_with_interrupts_disabled() {
    let mut emu = console(&[0xEA]);
    assert!(emu.cpu().interrupt_disabled());
    emu.trigger_nmi();
    assert_eq!(emu.step(), Ok(7));
    assert_eq!(regs(&emu).pc, 0x9000);
}

#[test]
fn nmi_is_taken_once() {
    let mut emu = console(&[0xEA]);
    emu.trigger_nmi();
    assert_eq!(emu.step(), Ok(7));
    assert_eq!(emu.step(), Ok(7)); // BRK at 9000, which is zero-filled ROM
    assert_eq!(regs(&emu).pc, 0xA000);
}

#[test]
fn irq_is_masked_while_interrupts_are_disabled() {
    let mut emu = console(&[0xEA, 0xEA]);
    emu.set_irq(true);
    assert!(regs(&emu).irq_line);
    assert_eq!(emu.step(), Ok(2));
    assert_eq!(regs(&emu).pc, 0x8001);
}

#[test]
fn irq_is_taken_when_enabled() {
    let mut emu = console(&[0x58, 0xEA]);
    emu.set_irq(true);
    assert_eq!(emu.step(), Ok(2)); // CLI
    assert_eq!(emu.step(), Ok(7));
    let c = regs(&emu);
    assert_eq!(c.pc, 0xA000);
    assert_eq!(c.p, 0x24);
    assert_eq!(emu.read(0x01FD), 0x80);
    assert_eq!(emu.read(0x01FC), 0x01);
    assert_eq!(emu.read(0x01FB), 0x20);
    // The line is still asserted, but the sequence disabled interrupts.
    assert!(c.irq_line);
    assert_eq!(emu.step(), Ok(7)); // BRK at A000
}

#[test]
fn irq_line_is_a_level() {
    let mut emu = console(&[0x58, 0xEA, 0xEA]);
    emu.set_irq(true);
    emu.set_irq(false);
    assert_eq!(emu.step(), Ok(2));
    assert_eq!(emu.step(), Ok(2));
    assert_eq!(regs(&emu).pc, 0x8002);
}

#[test]
fn nmi_goes_before_irq() {
    let mut emu = console(&[0x58, 0xEA]);
    emu.step().unwrap();
    emu.set_irq(true);
    emu.trigger_nmi();
    assert_eq!(emu.step(), Ok(7));
    assert_eq!(regs(&emu).pc, 0x9000);
}

#[test]
fn reset_reinitialises_registers_and_pushes_nothing() {
    let mut emu = console(&[0xA9, 0x42, 0x48]);
    emu.step().unwrap();
    emu.step().unwrap();
    emu.set_irq(true);
    emu.trigger_nmi();
    emu.reset();
    let c = regs(&emu);
    assert_eq!((c.a, c.x, c.y, c.s, c.pc, c.p), (0, 0, 0, 0xFD, 0x8000, 0x24));
    assert!(!c.nmi_pending);
    assert!(c.irq_line);
    assert!(!c.halted);
    assert_eq!(emu.read(0x01FD), 0x42);
    assert_eq!(emu.read(0x01FC), 0x00);
}

#[test]
fn kil_halts_with_the_program_counter_on_the_opcode() {
    let mut emu = console(&[0xEA, 0x02, 0xEA]);
    assert_eq!(emu.step(), Ok(2));
    let before = regs(&emu);
    assert_eq!(emu.step(), Err(CpuError::Halt));
    assert_eq!(regs(&emu), CpuState { halted: true, ..before });
    assert_eq!(emu.step(), Err(CpuError::Halt));
    assert_eq!(regs(&emu).pc, 0x8001);
}

#[test]
fn a_halted_processor_ignores_interrupts_until_reset() {
    let mut emu = console(&[0x02]);
    assert_eq!(emu.step(), Err(CpuError::Halt));
    emu.trigger_nmi();
    assert_eq!(emu.step(), Err(CpuError::Halt));
    assert_eq!(regs(&emu).pc, 0x8000);
    emu.reset();
    assert!(!regs(&emu).halted);
}

#[test]
fn run_stops_at_the_budget() {
    let mut emu = console(&[0xEA, 0xEA, 0xEA, 0xEA]);
    let summary = emu.run(3);
    assert_eq!(summary, RunSummary { steps: 3, cycles: 6, stop: None });
    assert_eq!(regs(&emu).pc, 0x8003);
}

#[test]
fn run_with_no_budget_does_nothing() {
    let mut emu = console(&[0xEA]);
    let before = regs(&emu);
    assert_eq!(emu.run(0), RunSummary { steps: 0, cycles: 0, stop: None });
    assert_eq!(regs(&emu), before);
}

#[test]
fn run_stops_at_a_halt() {
    let mut emu = console(&[0xA9, 0x42, 0x85, 0x10, 0x02]);
    let summary = emu.run(100);
    assert_eq!(summary, RunSummary { steps: 2, cycles: 5, stop: Some(CpuError::Halt) });
    assert_eq!(emu.read(0x0010), 0x42);
    assert!(regs(&emu).halted);
    assert_eq!(emu.run(100), RunSummary { steps: 0, cycles: 0, stop: Some(CpuError::Halt) });
}

#[test]
fn run_stops_at_an_unknown_opcode() {
    let mut emu = console(&[0xEA, 0xEB]);
    let summary = emu.run(10);
    assert_eq!(
        summary,
        RunSummary { steps: 1, cycles: 2, stop: Some(CpuError::UnknownOpcode(0xEB, 0x8001)) }
    );
}

#[test]
fn run_counts_interrupts_as_steps() {
    let mut emu = console(&[0xEA]);
    emu.trigger_nmi();
    let summary = emu.run(1);
    assert_eq!(summary, RunSummary { steps: 1, cycles: 7, stop: None });
}

#[test]
fn processor_and_bus_can_be_used_on_their_own() {
    let mut cpu = Cpu::new();
    let mut bus = Bus::new();
    cpu.push_to_stack(&mut bus, 0x12);
    cpu.push_word(&mut bus, 0xBEEF);
    assert_eq!(cpu.state().s, 0xFA);
    assert_eq!(bus.read(0x01FD), 0x12);
    assert_eq!(bus.read(0x01FC), 0xBE);
    assert_eq!(bus.read(0x01FB), 0xEF);
    assert_eq!(cpu.pop_word(&bus), 0xBEEF);
    assert_eq!(cpu.pop_from_stack(&bus), 0x12);
    assert_eq!(cpu.state().s, 0xFD);
}

#[test]
fn set_bitflag_updates_one_flag() {
    let mut cpu = Cpu::new();
    assert_eq!(cpu.state().p, 0x24);
    cpu.set_bitflag(0, true);
    assert!(cpu.carry());
    assert_eq!(cpu.state().p, 0x25);
    cpu.set_bitflag(1, true);
    assert!(cpu.zero());
    cpu.set_bitflag(2, false);
    assert!(!cpu.interrupt_disabled());
    cpu.set_bitflag(3, true);
    assert!(cpu.decimal());
    cpu.set_bitflag(6, true);
    assert!(cpu.overflow());
    cpu.set_bitflag(7, true);
    assert!(cpu.negative());
    assert_eq!(cpu.state().p, 0xEB);
    cpu.set_bitflag(0, false);
    assert!(!cpu.carry());
    assert_eq!(cpu.state().p, 0xEA);
}

#[test]
fn set_bitflag_keeps_bit_five_and_never_stores_break() {
    let mut cpu = Cpu::new();
    cpu.set_bitflag(5, false);
    assert_eq!(cpu.state().p, 0x24);
    cpu.set_bitflag(4, true);
    assert_eq!(cpu.state().p, 0x24);
    assert!(cpu.flag(5));
    assert!(!cpu.flag(4));
}

#[test]
fn registers_from_outside_are_normalized() {
    let state = CpuState {
        a: 1,
        x: 2,
        y: 3,
        s: 4,
        pc: 5,
        p: 0xDF,
        nmi_pending: false,
        irq_line: false,
        halted: false,
    };
    let cpu = Cpu::from_state(state);
    assert_eq!(cpu.state(), CpuState { p: 0xEF, ..state });
    let cpu = Cpu::from_state(CpuState { p: 0x00, ..state });
    assert_eq!(cpu.state().p, 0x20);
}

#[test]
fn update_zn_records_a_result() {
    let mut cpu = Cpu::new();
    cpu.update_zn(0);
    assert!(cpu.zero() && !cpu.negative());
    cpu.update_zn(0x80);
    assert!(!cpu.zero() && cpu.negative());
    cpu.update_zn(0x7F);
    assert!(!cpu.zero() && !cpu.negative());
}
