//! The machine as a mathematical value: the register file, and the pair of
//! register file and bus on which every instruction is defined.

use vstd::prelude::*;
use crate::bits::{bit_is_set, high_byte, low_byte, word};
use crate::bus::{BusState, RESET_VECTOR};
use crate::status::{
    pushed_status, set_flag, valid_status, with_zn, CARRY, DECIMAL, INTERRUPT, NEGATIVE, OVERFLOW,
    RESET_STATUS, ZERO,
};

verus! {

/// Stack pointer after a reset.
pub const RESET_STACK: u8 = 0xFD;

/// Cycles an interrupt sequence takes.
pub const INTERRUPT_CYCLES: u8 = 7;

/// The register file and the interrupt inputs.
#[derive(Clone, Copy, Debug, PartialEq, Eq, Structural)]
pub struct CpuState {
    /// Accumulator.
    pub a: u8,
    /// Index register X.
    pub x: u8,
    /// Index register Y.
    pub y: u8,
    /// Stack pointer: the next free slot of the stack in page 1.
    pub s: u8,
    /// Program counter: the address of the next opcode.
    pub pc: u16,
    /// Status byte, `NV-BDIZC`.
    pub p: u8,
    /// A non-maskable interrupt was signalled and not yet taken.
    pub nmi_pending: bool,
    /// The interrupt-request line is asserted.
    pub irq_line: bool,
    /// The processor has stopped and executes nothing more.
    pub halted: bool,
}

/// The address of stack slot `s`.
pub open spec fn stack_addr(s: u8) -> u16 {
    (0x0100 + s) as u16
}

impl CpuState {
    /// The status byte has bit 5 set and bit 4 clear.
    pub open spec fn wf(self) -> bool {
        valid_status(self.p)
    }

    /// The flag at position `pos` of the status byte.
    pub open spec fn flag(self, pos: usize) -> bool {
        bit_is_set(self.p, pos)
    }

    pub open spec fn carry(self) -> bool {
        self.flag(CARRY)
    }

    pub open spec fn zero(self) -> bool {
        self.flag(ZERO)
    }

    pub open spec fn interrupt_disabled(self) -> bool {
        self.flag(INTERRUPT)
    }

    pub open spec fn decimal(self) -> bool {
        self.flag(DECIMAL)
    }

    pub open spec fn overflow(self) -> bool {
        self.flag(OVERFLOW)
    }

    pub open spec fn negative(self) -> bool {
        self.flag(NEGATIVE)
    }

    /// The registers with one flag replaced.
    pub open spec fn with_flag(self, pos: usize, on: bool) -> CpuState {
        CpuState { p: set_flag(self.p, pos, on), ..self }
    }

    /// The registers with the zero and negative flags taken from `v`.
    pub open spec fn with_zn(self, v: u8) -> CpuState {
        CpuState { p: with_zn(self.p, v), ..self }
    }

    /// The registers with another program counter.
    pub open spec fn with_pc(self, pc: u16) -> CpuState {
        CpuState { pc, ..self }
    }

    /// The registers of a processor that was switched on and found the
    /// reset vector `pc`.
    pub open spec fn fresh(pc: u16) -> CpuState {
        CpuState {
            a: 0,
            x: 0,
            y: 0,
            s: RESET_STACK,
            pc,
            p: RESET_STATUS,
            nmi_pending: false,
            irq_line: false,
            halted: false,
        }
    }
}

/// Registers and bus together.
pub struct Machine {
    pub cpu: CpuState,
    pub bus: BusState,
}

/// The machine made of these registers and this bus.
pub open spec fn machine(cpu: CpuState, bus: BusState) -> Machine {
    Machine { cpu, bus }
}

impl Machine {
    /// Registers and bus are both well formed.
    pub open spec fn wf(self) -> bool {
        self.cpu.wf() && self.bus.wf()
    }

    /// The byte at `addr`.
    pub open spec fn read(self, addr: u16) -> u8 {
        self.bus.read(addr)
    }

    /// The little-endian word at `addr`.
    pub open spec fn read_word(self, addr: u16) -> u16 {
        self.bus.read_word(addr)
    }

    /// The machine after a write of `value` to `addr`.
    pub open spec fn write(self, addr: u16, value: u8) -> Machine {
        Machine { bus: self.bus.write(addr, value), ..self }
    }

    /// The machine with other registers.
    pub open spec fn with_cpu(self, cpu: CpuState) -> Machine {
        Machine { cpu, ..self }
    }

    /// The machine with another program counter.
    pub open spec fn with_pc(self, pc: u16) -> Machine {
        self.with_cpu(self.cpu.with_pc(pc))
    }

    /// Push: write at the slot that `S` names, then decrement `S`.
    pub open spec fn push(self, value: u8) -> Machine {
        Machine {
            cpu: CpuState { s: self.cpu.s.wrapping_sub(1), ..self.cpu },
            bus: self.bus.write(stack_addr(self.cpu.s), value),
        }
    }

    /// The byte that a pull returns: the one above the slot that `S` names.
    pub open spec fn top(self) -> u8 {
        self.read(stack_addr(self.cpu.s.wrapping_add(1)))
    }

    /// Pull: increment `S`; the byte pulled is `top`.
    pub open spec fn pop(self) -> Machine {
        self.with_cpu(CpuState { s: self.cpu.s.wrapping_add(1), ..self.cpu })
    }

    /// Push a word, high byte first.
    pub open spec fn push_word(self, w: u16) -> Machine {
        self.push(high_byte(w)).push(low_byte(w))
    }

    /// The word that pulling the low byte and then the high byte returns.
    pub open spec fn top_word(self) -> u16 {
        word(self.pop().top(), self.top())
    }

    /// The machine after a reset: registers reinitialised, the program
    /// counter taken from the reset vector, memory untouched. The level of
    /// the interrupt-request line is an input and stays as it is.
    pub open spec fn reset(self) -> Machine {
        self.with_cpu(
            CpuState { irq_line: self.cpu.irq_line, ..CpuState::fresh(self.read_word(RESET_VECTOR)) },
        )
    }

    /// The interrupt sequence: push the program counter, high byte first,
    /// then the status with the break marker as given; disable interrupts;
    /// continue at the address stored at `vector`.
    pub open spec fn interrupt(self, vector: u16, brk: bool) -> Machine {
        let pushed = self.push_word(self.cpu.pc).push(pushed_status(self.cpu.p, brk));
        pushed.with_cpu(pushed.cpu.with_flag(INTERRUPT, true).with_pc(pushed.read_word(vector)))
    }
}

} // verus!
