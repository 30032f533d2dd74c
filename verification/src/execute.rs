//! What each instruction does to the machine once its operand is known.

use vstd::prelude::*;
use crate::addressing::{Operand, Resolved};
use crate::alu::modified;
use crate::bus::{Bus, IRQ_VECTOR};
use crate::cpu::Cpu;
use crate::opcode::{is_branch, Instruction, Mnemonic};
use crate::state::{machine, CpuState, Machine};
use crate::status::{
    normalize, normalized, pushed_status, status_to_push, CARRY, DECIMAL, INTERRUPT, OVERFLOW,
};

verus! {

/// Whether a branch is taken with these flags.
pub open spec fn branch_taken(cpu: CpuState, op: Mnemonic) -> bool {
    match op {
        Mnemonic::Bpl => !cpu.negative(),
        Mnemonic::Bmi => cpu.negative(),
        Mnemonic::Bvc => !cpu.overflow(),
        Mnemonic::Bvs => cpu.overflow(),
        Mnemonic::Bcc => !cpu.carry(),
        Mnemonic::Bcs => cpu.carry(),
        Mnemonic::Bne => !cpu.zero(),
        Mnemonic::Beq => cpu.zero(),
        _ => false,
    }
}

/// The read-modify-write half of an undocumented pair.
pub open spec fn first_half(op: Mnemonic) -> Mnemonic {
    match op {
        Mnemonic::Slo => Mnemonic::Asl,
        Mnemonic::Rla => Mnemonic::Rol,
        Mnemonic::Sre => Mnemonic::Lsr,
        Mnemonic::Rra => Mnemonic::Ror,
        Mnemonic::Dcp => Mnemonic::Dec,
        _ => Mnemonic::Inc,
    }
}

impl CpuState {
    /// The second half of an undocumented pair, applied to the byte `r`
    /// that the first half produced: `ORA`, `AND`, `EOR`, `ADC`, `CMP` or
    /// `SBC`.
    pub open spec fn second_half(self, op: Mnemonic, r: u8) -> CpuState {
        match op {
            Mnemonic::Slo => self.load_a(self.a | r),
            Mnemonic::Rla => self.load_a(self.a & r),
            Mnemonic::Sre => self.load_a(self.a ^ r),
            Mnemonic::Rra => self.add_with_carry(r),
            Mnemonic::Dcp => self.compare(self.a, r),
            _ => self.subtract_with_carry(r),
        }
    }
}

impl Machine {
    /// The machine after `v` is stored where the operand is: at its
    /// address, or in the accumulator. Flags are not touched.
    pub open spec fn store(self, operand: Operand, v: u8) -> Machine {
        match operand {
            Operand::Address(addr) => self.write(addr, v),
            Operand::Accumulator => self.with_cpu(CpuState { a: v, ..self.cpu }),
            _ => self,
        }
    }

    /// The machine after a jump to where the operand is.
    pub open spec fn jump(self, operand: Operand) -> Machine {
        match operand {
            Operand::Address(addr) => self.with_pc(addr),
            _ => self,
        }
    }

    /// A read-modify-write operation: the operand is replaced by
    /// `modified(op, ..)` of itself, and the flags follow.
    pub open spec fn read_modify_write(self, op: Mnemonic, operand: Operand) -> Machine {
        let v = self.value_of(operand);
        self.with_cpu(self.cpu.after_modify(op, v)).store(
            operand,
            modified(op, v, self.cpu.carry()),
        )
    }

    /// An undocumented pair: its first half on the operand, then its second
    /// half on `A` with the byte that the first half wrote.
    pub open spec fn combined(self, op: Mnemonic, operand: Operand) -> Machine {
        let r = modified(first_half(op), self.value_of(operand), self.cpu.carry());
        let first = self.read_modify_write(first_half(op), operand);
        first.with_cpu(first.cpu.second_half(op, r))
    }

    /// `JSR`: push the address of the last byte of the instruction, high
    /// byte first, and jump.
    pub open spec fn call(self, operand: Operand) -> Machine {
        self.push_word(self.cpu.pc.wrapping_sub(1)).jump(operand)
    }

    /// `RTS`: pull a word, low byte first, and continue one past it.
    pub open spec fn return_from_call(self) -> Machine {
        self.pop().pop().with_pc(self.top_word().wrapping_add(1))
    }

    /// `PLP`: pull the status; bit 5 is forced and bit 4 ignored.
    pub open spec fn pull_status(self) -> Machine {
        self.pop().with_cpu(CpuState { p: normalize(self.top()), ..self.pop().cpu })
    }

    /// `RTI`: pull the status, then the program counter, low byte first.
    pub open spec fn return_from_interrupt(self) -> Machine {
        let flags = self.pull_status();
        flags.pop().pop().with_pc(flags.top_word())
    }

    /// The machine after the instruction `op` with this operand. The
    /// program counter already points at the next instruction.
    pub open spec fn execute(self, op: Mnemonic, operand: Operand) -> Machine {
        let cpu = self.cpu;
        let v = self.value_of(operand);
        match op {
            Mnemonic::Lda => self.with_cpu(cpu.load_a(v)),
            Mnemonic::Ldx => self.with_cpu(cpu.load_x(v)),
            Mnemonic::Ldy => self.with_cpu(cpu.load_y(v)),
            Mnemonic::Lax => self.with_cpu(cpu.load_a(v).load_x(v)),
            Mnemonic::Sta => self.store(operand, cpu.a),
            Mnemonic::Stx => self.store(operand, cpu.x),
            Mnemonic::Sty => self.store(operand, cpu.y),
            Mnemonic::Sax => self.store(operand, cpu.a & cpu.x),
            Mnemonic::Tax => self.with_cpu(cpu.load_x(cpu.a)),
            Mnemonic::Tay => self.with_cpu(cpu.load_y(cpu.a)),
            Mnemonic::Txa => self.with_cpu(cpu.load_a(cpu.x)),
            Mnemonic::Tya => self.with_cpu(cpu.load_a(cpu.y)),
            Mnemonic::Tsx => self.with_cpu(cpu.load_x(cpu.s)),
            Mnemonic::Txs => self.with_cpu(CpuState { s: cpu.x, ..cpu }),
            Mnemonic::Pha => self.push(cpu.a),
            Mnemonic::Php => self.push(pushed_status(cpu.p, true)),
            Mnemonic::Pla => self.pop().with_cpu(self.pop().cpu.load_a(self.top())),
            Mnemonic::Plp => self.pull_status(),
            Mnemonic::And => self.with_cpu(cpu.load_a(cpu.a & v)),
            Mnemonic::Ora => self.with_cpu(cpu.load_a(cpu.a | v)),
            Mnemonic::Eor => self.with_cpu(cpu.load_a(cpu.a ^ v)),
            Mnemonic::Adc => self.with_cpu(cpu.add_with_carry(v)),
            Mnemonic::Sbc => self.with_cpu(cpu.subtract_with_carry(v)),
            Mnemonic::Cmp => self.with_cpu(cpu.compare(cpu.a, v)),
            Mnemonic::Cpx => self.with_cpu(cpu.compare(cpu.x, v)),
            Mnemonic::Cpy => self.with_cpu(cpu.compare(cpu.y, v)),
            Mnemonic::Bit => self.with_cpu(cpu.bit_test(v)),
            Mnemonic::Inc | Mnemonic::Dec | Mnemonic::Asl | Mnemonic::Lsr | Mnemonic::Rol
            | Mnemonic::Ror => self.read_modify_write(op, operand),
            Mnemonic::Inx => self.with_cpu(cpu.load_x(cpu.x.wrapping_add(1))),
            Mnemonic::Iny => self.with_cpu(cpu.load_y(cpu.y.wrapping_add(1))),
            Mnemonic::Dex => self.with_cpu(cpu.load_x(cpu.x.wrapping_sub(1))),
            Mnemonic::Dey => self.with_cpu(cpu.load_y(cpu.y.wrapping_sub(1))),
            Mnemonic::Bpl | Mnemonic::Bmi | Mnemonic::Bvc | Mnemonic::Bvs | Mnemonic::Bcc
            | Mnemonic::Bcs | Mnemonic::Bne | Mnemonic::Beq => if branch_taken(cpu, op) {
                self.jump(operand)
            } else {
                self
            },
            Mnemonic::Jmp => self.jump(operand),
            Mnemonic::Jsr => self.call(operand),
            Mnemonic::Rts => self.return_from_call(),
            Mnemonic::Brk => self.with_pc(cpu.pc.wrapping_add(1)).interrupt(IRQ_VECTOR, true),
            Mnemonic::Rti => self.return_from_interrupt(),
            Mnemonic::Clc => self.with_cpu(cpu.with_flag(CARRY, false)),
            Mnemonic::Sec => self.with_cpu(cpu.with_flag(CARRY, true)),
            Mnemonic::Cli => self.with_cpu(cpu.with_flag(INTERRUPT, false)),
            Mnemonic::Sei => self.with_cpu(cpu.with_flag(INTERRUPT, true)),
            Mnemonic::Clv => self.with_cpu(cpu.with_flag(OVERFLOW, false)),
            Mnemonic::Cld => self.with_cpu(cpu.with_flag(DECIMAL, false)),
            Mnemonic::Sed => self.with_cpu(cpu.with_flag(DECIMAL, true)),
            Mnemonic::Slo | Mnemonic::Rla | Mnemonic::Sre | Mnemonic::Rra | Mnemonic::Dcp
            | Mnemonic::Isc => self.combined(op, operand),
            Mnemonic::Nop | Mnemonic::Kil => self,
        }
    }

}

/// Cycles beyond the base cost: a taken branch costs one more, and a second
/// one when it lands in another page than the next instruction; an
/// instruction with a page penalty costs one more when addressing crossed a
/// page. Whether a branch is taken is judged by the flags in `cpu`.
pub open spec fn extra_cycles(cpu: CpuState, instruction: Instruction, resolved: Resolved) -> int {
    if is_branch(instruction.mnemonic) {
        if !branch_taken(cpu, instruction.mnemonic) {
            0
        } else if resolved.crossed {
            2
        } else {
            1
        }
    } else if instruction.page_penalty && resolved.crossed {
        1
    } else {
        0
    }
}

/// Whether a branch is taken with the processor's flags.
pub fn takes_branch(cpu: &Cpu, op: Mnemonic) -> (taken: bool)
    ensures
        taken == branch_taken(cpu@, op),
{
    match op {
        Mnemonic::Bpl => !cpu.negative(),
        Mnemonic::Bmi => cpu.negative(),
        Mnemonic::Bvc => !cpu.overflow(),
        Mnemonic::Bvs => cpu.overflow(),
        Mnemonic::Bcc => !cpu.carry(),
        Mnemonic::Bcs => cpu.carry(),
        Mnemonic::Bne => !cpu.zero(),
        Mnemonic::Beq => cpu.zero(),
        _ => false,
    }
}

/// The read-modify-write half of an undocumented pair.
pub fn first_half_of(op: Mnemonic) -> (first: Mnemonic)
    ensures
        first == first_half(op),
{
    match op {
        Mnemonic::Slo => Mnemonic::Asl,
        Mnemonic::Rla => Mnemonic::Rol,
        Mnemonic::Sre => Mnemonic::Lsr,
        Mnemonic::Rra => Mnemonic::Ror,
        Mnemonic::Dcp => Mnemonic::Dec,
        _ => Mnemonic::Inc,
    }
}

impl Cpu {
    /// Stores `v` where the operand is.
    pub fn store(&mut self, bus: &mut Bus, operand: Operand, v: u8)
        requires
            old(self).wf(),
            old(bus).wf(),
        ensures
            final(self).wf(),
            final(bus).wf(),
            machine(final(self)@, final(bus)@) == machine(old(self)@, old(bus)@).store(operand, v),
    {
        match operand {
            Operand::Address(addr) => bus.write(addr, v),
            Operand::Accumulator => {
                self.state.a = v;
            },
            _ => {},
        }
    }

    /// Continues at the operand's address.
    pub fn jump(&mut self, operand: Operand)
        requires
            old(self).wf(),
        ensures
            final(self).wf(),
            final(self)@ == (match operand {
                Operand::Address(addr) => old(self)@.with_pc(addr),
                _ => old(self)@,
            }),
    {
        match operand {
            Operand::Address(addr) => {
                self.state.pc = addr;
            },
            _ => {},
        }
    }

    /// Replaces the operand by what `op` makes of it; returns the new byte.
    pub fn read_modify_write(&mut self, bus: &mut Bus, op: Mnemonic, operand: Operand) -> (r: u8)
        requires
            old(self).wf(),
            old(bus).wf(),
        ensures
            final(self).wf(),
            final(bus).wf(),
            r == modified(
                op,
                machine(old(self)@, old(bus)@).value_of(operand),
                old(self)@.carry(),
            ),
            machine(final(self)@, final(bus)@) == machine(old(self)@, old(bus)@).read_modify_write(
                op,
                operand,
            ),
    {
        let v = self.value_of(bus, operand);
        let r = self.modify(op, v);
        self.store(bus, operand, r);
        r
    }

    /// Runs an undocumented pair of operations.
    pub fn combined(&mut self, bus: &mut Bus, op: Mnemonic, operand: Operand)
        requires
            old(self).wf(),
            old(bus).wf(),
        ensures
            final(self).wf(),
            final(bus).wf(),
            machine(final(self)@, final(bus)@) == machine(old(self)@, old(bus)@).combined(
                op,
                operand,
            ),
    {
        let r = self.read_modify_write(bus, first_half_of(op), operand);
        let a = self.state.a;
        match op {
            Mnemonic::Slo => self.load_a(a | r),
            Mnemonic::Rla => self.load_a(a & r),
            Mnemonic::Sre => self.load_a(a ^ r),
            Mnemonic::Rra => self.add_with_carry(r),
            Mnemonic::Dcp => self.compare(a, r),
            _ => self.subtract_with_carry(r),
        }
    }

    /// Pulls the status byte.
    pub fn pull_status(&mut self, bus: &Bus)
        requires
            bus.wf(),
        ensures
            final(self).wf(),
            machine(final(self)@, bus@) == machine(old(self)@, bus@).pull_status(),
    {
        let byte = self.pop_from_stack(bus);
        self.state.p = normalized(byte);
    }

    /// Executes the instruction `op` on an operand already resolved.
    pub fn execute(&mut self, bus: &mut Bus, op: Mnemonic, operand: Operand)
        requires
            old(self).wf(),
            old(bus).wf(),
        ensures
            final(self).wf(),
            final(bus).wf(),
            machine(final(self)@, final(bus)@) == machine(old(self)@, old(bus)@).execute(
                op,
                operand,
            ),
    {
        let a = self.state.a;
        let x = self.state.x;
        let y = self.state.y;
        match op {
            Mnemonic::Lda => {
                let v = self.value_of(bus, operand);
                self.load_a(v);
            },
            Mnemonic::Ldx => {
                let v = self.value_of(bus, operand);
                self.load_x(v);
            },
            Mnemonic::Ldy => {
                let v = self.value_of(bus, operand);
                self.load_y(v);
            },
            Mnemonic::Lax => {
                let v = self.value_of(bus, operand);
                self.load_a(v);
                self.load_x(v);
            },
            Mnemonic::Sta => self.store(bus, operand, a),
            Mnemonic::Stx => self.store(bus, operand, x),
            Mnemonic::Sty => self.store(bus, operand, y),
            Mnemonic::Sax => self.store(bus, operand, a & x),
            Mnemonic::Tax => self.load_x(a),
            Mnemonic::Tay => self.load_y(a),
            Mnemonic::Txa => self.load_a(x),
            Mnemonic::Tya => self.load_a(y),
            Mnemonic::Tsx => {
                let s = self.state.s;
                self.load_x(s);
            },
            Mnemonic::Txs => {
                self.state.s = x;
            },
            Mnemonic::Pha => self.push_to_stack(bus, a),
            Mnemonic::Php => {
                let byte = status_to_push(self.state.p, true);
                self.push_to_stack(bus, byte);
            },
            Mnemonic::Pla => {
                let v = self.pop_from_stack(bus);
                self.load_a(v);
            },
            Mnemonic::Plp => self.pull_status(bus),
            Mnemonic::And => {
                let v = self.value_of(bus, operand);
                self.load_a(a & v);
            },
            Mnemonic::Ora => {
                let v = self.value_of(bus, operand);
                self.load_a(a | v);
            },
            Mnemonic::Eor => {
                let v = self.value_of(bus, operand);
                self.load_a(a ^ v);
            },
            Mnemonic::Adc => {
                let v = self.value_of(bus, operand);
                self.add_with_carry(v);
            },
            Mnemonic::Sbc => {
                let v = self.value_of(bus, operand);
                self.subtract_with_carry(v);
            },
            Mnemonic::Cmp => {
                let v = self.value_of(bus, operand);
                self.compare(a, v);
            },
            Mnemonic::Cpx => {
                let v = self.value_of(bus, operand);
                self.compare(x, v);
            },
            Mnemonic::Cpy => {
                let v = self.value_of(bus, operand);
                self.compare(y, v);
            },
            Mnemonic::Bit => {
                let v = self.value_of(bus, operand);
                self.bit_test(v);
            },
            Mnemonic::Inc
            | Mnemonic::Dec
            | Mnemonic::Asl
            | Mnemonic::Lsr
            | Mnemonic::Rol
            | Mnemonic::Ror => {
                self.read_modify_write(bus, op, operand);
            },
            Mnemonic::Inx => self.load_x(x.wrapping_add(1)),
            Mnemonic::Iny => self.load_y(y.wrapping_add(1)),
            Mnemonic::Dex => self.load_x(x.wrapping_sub(1)),
            Mnemonic::Dey => self.load_y(y.wrapping_sub(1)),
            Mnemonic::Bpl
            | Mnemonic::Bmi
            | Mnemonic::Bvc
            | Mnemonic::Bvs
            | Mnemonic::Bcc
            | Mnemonic::Bcs
            | Mnemonic::Bne
            | Mnemonic::Beq => {
                if takes_branch(self, op) {
                    self.jump(operand);
                }
            },
            Mnemonic::Jmp => self.jump(operand),
            Mnemonic::Jsr => {
                let last = self.state.pc.wrapping_sub(1);
                self.push_word(bus, last);
                self.jump(operand);
            },
            Mnemonic::Rts => {
                let w = self.pop_word(bus);
                self.state.pc = w.wrapping_add(1);
            },
            Mnemonic::Brk => {
                self.state.pc = self.state.pc.wrapping_add(1);
                self.interrupt(bus, IRQ_VECTOR, true);
            },
            Mnemonic::Rti => {
                self.pull_status(bus);
                let w = self.pop_word(bus);
                self.state.pc = w;
            },
            Mnemonic::Clc => self.set_bitflag(CARRY, false),
            Mnemonic::Sec => self.set_bitflag(CARRY, true),
            Mnemonic::Cli => self.set_bitflag(INTERRUPT, false),
            Mnemonic::Sei => self.set_bitflag(INTERRUPT, true),
            Mnemonic::Clv => self.set_bitflag(OVERFLOW, false),
            Mnemonic::Cld => self.set_bitflag(DECIMAL, false),
            Mnemonic::Sed => self.set_bitflag(DECIMAL, true),
            Mnemonic::Slo
            | Mnemonic::Rla
            | Mnemonic::Sre
            | Mnemonic::Rra
            | Mnemonic::Dcp
            | Mnemonic::Isc => self.combined(bus, op, operand),
            Mnemonic::Nop | Mnemonic::Kil => {},
        }
    }

    /// Cycles beyond the base cost of an instruction, judged by the flags
    /// before it executes.
    pub fn extra_cycles(&self, instruction: Instruction, resolved: Resolved) -> (n: u8)
        ensures
            n == extra_cycles(self@, instruction, resolved),
            n <= 2,
    {
        match instruction.mnemonic {
            Mnemonic::Bpl
            | Mnemonic::Bmi
            | Mnemonic::Bvc
            | Mnemonic::Bvs
            | Mnemonic::Bcc
            | Mnemonic::Bcs
            | Mnemonic::Bne
            | Mnemonic::Beq => {
                if !takes_branch(self, instruction.mnemonic) {
                    0
                } else if resolved.crossed {
                    2
                } else {
                    1
                }
            },
            _ => {
                if instruction.page_penalty && resolved.crossed {
                    1
                } else {
                    0
                }
            },
        }
    }
}

} // verus!
