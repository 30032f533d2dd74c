//! The execution loop: one call of `step` takes a pending interrupt or
//! fetches, decodes and executes one instruction, and reports the cycles
//! that took.
//!
//! Opcodes outside the instruction set are not skipped: the processor halts
//! and reports `UnknownOpcode`. The jamming opcodes halt it and report
//! `Halt`. A halted processor stays as it is until it is reset.

use vstd::prelude::*;
use crate::bus::{Bus, IRQ_VECTOR, NMI_VECTOR};
use crate::cpu::Cpu;
use crate::decode::decode;
use crate::execute::extra_cycles;
use crate::opcode::{instruction_of, Instruction, Mnemonic};
use crate::state::{machine, CpuState, Machine, INTERRUPT_CYCLES};

verus! {

/// Why the processor stopped.
#[derive(Clone, Copy, Debug, PartialEq, Eq, Structural)]
pub enum CpuError {
    /// The byte at the given address selects no instruction.
    UnknownOpcode(u8, u16),
    /// A jamming opcode was executed, or the processor had halted before.
    Halt,
}

/// A machine after a step, and what the step reports: the cycles it took,
/// or why the processor is halted.
pub struct Step {
    pub machine: Machine,
    pub outcome: Result<u8, CpuError>,
}

impl Machine {
    /// The machine with the processor halted.
    pub open spec fn halt(self) -> Machine {
        self.with_cpu(CpuState { halted: true, ..self.cpu })
    }

    /// An interrupt is due: a latched non-maskable interrupt, or an asserted
    /// request line while interrupts are enabled.
    pub open spec fn interrupt_due(self) -> bool {
        self.cpu.nmi_pending || (self.cpu.irq_line && !self.cpu.interrupt_disabled())
    }

    /// The machine after the interrupt that is due was taken. The
    /// non-maskable interrupt goes first and is consumed by being taken.
    pub open spec fn take_interrupt(self) -> Machine {
        if self.cpu.nmi_pending {
            self.with_cpu(CpuState { nmi_pending: false, ..self.cpu }).interrupt(NMI_VECTOR, false)
        } else {
            self.interrupt(IRQ_VECTOR, false)
        }
    }

    /// One instruction whose opcode is at the program counter: move past
    /// the opcode, resolve the operand, move past the operand bytes, execute.
    pub open spec fn run(self, instruction: Instruction) -> Step {
        let fetched = self.with_pc(self.cpu.pc.wrapping_add(1));
        let resolved = fetched.resolve(instruction.mode);
        let ready = fetched.skip_operand(instruction.mode);
        Step {
            machine: ready.execute(instruction.mnemonic, resolved.operand),
            outcome: Ok(
                (instruction.cycles + extra_cycles(ready.cpu, instruction, resolved)) as u8,
            ),
        }
    }

    /// Fetch, decode and execute the instruction at the program counter.
    pub open spec fn fetch_execute(self) -> Step {
        let opcode = self.read(self.cpu.pc);
        match instruction_of(opcode) {
            None => Step {
                machine: self.halt(),
                outcome: Err(CpuError::UnknownOpcode(opcode, self.cpu.pc)),
            },
            Some(instruction) => if instruction.mnemonic == Mnemonic::Kil {
                Step { machine: self.halt(), outcome: Err(CpuError::Halt) }
            } else {
                self.run(instruction)
            },
        }
    }

    /// One step of the machine.
    pub open spec fn step(self) -> Step {
        if self.cpu.halted {
            Step { machine: self, outcome: Err(CpuError::Halt) }
        } else if self.interrupt_due() {
            Step { machine: self.take_interrupt(), outcome: Ok(INTERRUPT_CYCLES) }
        } else {
            self.fetch_execute()
        }
    }
}

impl Cpu {
    /// Takes the interrupt that is due.
    fn take_interrupt(&mut self, bus: &mut Bus)
        requires
            old(self).wf(),
            old(bus).wf(),
            machine(old(self)@, old(bus)@).interrupt_due(),
        ensures
            final(self).wf(),
            final(bus).wf(),
            machine(final(self)@, final(bus)@) == machine(old(self)@, old(bus)@).take_interrupt(),
    {
        if self.state.nmi_pending {
            self.state.nmi_pending = false;
            self.interrupt(bus, NMI_VECTOR, false);
        } else {
            self.interrupt(bus, IRQ_VECTOR, false);
        }
    }

    /// Runs one decoded instruction whose opcode is at the program counter.
    fn run(&mut self, bus: &mut Bus, instruction: Instruction) -> (cycles: u8)
        requires
            old(self).wf(),
            old(bus).wf(),
            2 <= instruction.cycles <= 8,
        ensures
            final(self).wf(),
            final(bus).wf(),
            machine(final(self)@, final(bus)@) == machine(old(self)@, old(bus)@).run(
                instruction,
            ).machine,
            Ok::<u8, CpuError>(cycles) == machine(old(self)@, old(bus)@).run(instruction).outcome,
    {
        self.state.pc = self.state.pc.wrapping_add(1);
        let resolved = self.resolve(bus, instruction.mode);
        let extra = self.extra_cycles(instruction, resolved);
        self.execute(bus, instruction.mnemonic, resolved.operand);
        instruction.cycles + extra
    }

    /// Executes one step: takes a pending interrupt, or else runs the
    /// instruction at the program counter. Returns the cycles consumed.
    ///
    /// An opcode outside the instruction set halts the processor with
    /// `UnknownOpcode`, a jamming opcode with `Halt`; in both cases the
    /// program counter stays at the opcode and nothing else changes. A
    /// halted processor does nothing and reports `Halt`.
    pub fn step(&mut self, bus: &mut Bus) -> (outcome: Result<u8, CpuError>)
        requires
            old(self).wf(),
            old(bus).wf(),
        ensures
            final(self).wf(),
            final(bus).wf(),
            machine(final(self)@, final(bus)@) == machine(old(self)@, old(bus)@).step().machine,
            outcome == machine(old(self)@, old(bus)@).step().outcome,
    {
        if self.state.halted {
            return Err(CpuError::Halt);
        }
        if self.state.nmi_pending || (self.state.irq_line && !self.interrupt_disabled()) {
            self.take_interrupt(bus);
            return Ok(INTERRUPT_CYCLES);
        }
        let pc = self.state.pc;
        let opcode = bus.read(pc);
        match decode(opcode) {
            None => {
                self.state.halted = true;
                Err(CpuError::UnknownOpcode(opcode, pc))
            },
            Some(instruction) => {
                match instruction.mnemonic {
                    Mnemonic::Kil => {
                        self.state.halted = true;
                        Err(CpuError::Halt)
                    },
                    _ => Ok(self.run(bus, instruction)),
                }
            },
        }
    }
}

} // verus!
