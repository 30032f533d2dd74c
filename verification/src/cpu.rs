//! The processor: its register file, the stack, reset and the interrupt
//! inputs. The instructions themselves are in the modules that follow.

use vstd::prelude::*;
use crate::bits::{check_bit, high_u8, low_u8, two_u8_to_u16};
use crate::bus::{Bus, RESET_VECTOR};
use crate::state::{machine, CpuState, RESET_STACK};
use crate::status::{
    lemma_status_stays_valid, normalize, normalized, status_to_push, status_with, CARRY, DECIMAL, INTERRUPT, NEGATIVE,
    OVERFLOW, RESET_STATUS, ZERO,
};

verus! {

/// The processor.
pub struct Cpu {
    pub(crate) state: CpuState,
}

impl View for Cpu {
    type V = CpuState;

    open(crate) spec fn view(&self) -> CpuState {
        self.state
    }
}

impl Cpu {
    /// The status byte is valid.
    pub open spec fn wf(&self) -> bool {
        self@.wf()
    }

    /// A processor in its reset state with the program counter at 0.
    pub fn new() -> (cpu: Cpu)
        ensures
            cpu.wf(),
            cpu@ == CpuState::fresh(0),
    {
        proof {
            lemma_status_stays_valid();
        }
        Cpu {
            state: CpuState {
                a: 0,
                x: 0,
                y: 0,
                s: RESET_STACK,
                pc: 0,
                p: RESET_STATUS,
                nmi_pending: false,
                irq_line: false,
                halted: false,
            },
        }
    }

    /// A processor with the given registers. The status byte is taken as a
    /// byte from outside: bit 5 is forced to 1 and bit 4 is dropped.
    pub fn from_state(state: CpuState) -> (cpu: Cpu)
        ensures
            cpu.wf(),
            cpu@ == (CpuState { p: normalize(state.p), ..state }),
    {
        Cpu { state: CpuState { p: normalized(state.p), ..state } }
    }

    /// The registers.
    pub fn state(&self) -> (state: CpuState)
        ensures
            state == self@,
    {
        self.state
    }

    /// Reads the flag at position `pos` of the status byte.
    pub fn flag(&self, pos: usize) -> (on: bool)
        requires
            pos < 8,
        ensures
            on == self@.flag(pos),
    {
        check_bit(self.state.p, pos)
    }

    pub fn carry(&self) -> (on: bool)
        ensures
            on == self@.carry(),
    {
        self.flag(CARRY)
    }

    pub fn zero(&self) -> (on: bool)
        ensures
            on == self@.zero(),
    {
        self.flag(ZERO)
    }

    pub fn interrupt_disabled(&self) -> (on: bool)
        ensures
            on == self@.interrupt_disabled(),
    {
        self.flag(INTERRUPT)
    }

    pub fn decimal(&self) -> (on: bool)
        ensures
            on == self@.decimal(),
    {
        self.flag(DECIMAL)
    }

    pub fn overflow(&self) -> (on: bool)
        ensures
            on == self@.overflow(),
    {
        self.flag(OVERFLOW)
    }

    pub fn negative(&self) -> (on: bool)
        ensures
            on == self@.negative(),
    {
        self.flag(NEGATIVE)
    }

    /// Sets or clears the bit at position `pos` of the status byte. Bit 5
    /// stays set and bit 4 stays clear whatever is asked.
    pub fn set_bitflag(&mut self, pos: usize, val: bool)
        requires
            pos < 8,
        ensures
            final(self).wf(),
            final(self)@ == old(self)@.with_flag(pos, val),
    {
        self.state.p = status_with(self.state.p, pos, val);
    }

    /// Records a result: zero flag if `v` is 0, negative flag from bit 7.
    pub fn update_zn(&mut self, v: u8)
        ensures
            final(self).wf(),
            final(self)@ == old(self)@.with_zn(v),
    {
        self.set_bitflag(ZERO, v == 0);
        self.set_bitflag(NEGATIVE, check_bit(v, 7));
    }

    /// Latches a non-maskable interrupt; the next step takes it.
    pub fn trigger_nmi(&mut self)
        ensures
            final(self)@ == (CpuState { nmi_pending: true, ..old(self)@ }),
    {
        self.state.nmi_pending = true;
    }

    /// Sets the level of the interrupt-request line. While it is asserted
    /// and interrupts are enabled, each step takes the interrupt.
    pub fn set_irq(&mut self, level: bool)
        ensures
            final(self)@ == (CpuState { irq_line: level, ..old(self)@ }),
    {
        self.state.irq_line = level;
    }

    /// Pushes a byte: writes it at `0100 + S`, then decrements `S`,
    /// wrapping from `00` to `FF`.
    pub fn push_to_stack(&mut self, bus: &mut Bus, v: u8)
        requires
            old(bus).wf(),
        ensures
            final(bus).wf(),
            machine(final(self)@, final(bus)@) == machine(old(self)@, old(bus)@).push(v),
    {
        bus.write(0x0100 + (self.state.s as u16), v);
        self.state.s = self.state.s.wrapping_sub(1);
    }

    /// Pulls a byte: increments `S`, wrapping from `FF` to `00`, then reads
    /// at `0100 + S`.
    pub fn pop_from_stack(&mut self, bus: &Bus) -> (v: u8)
        requires
            bus.wf(),
        ensures
            v == machine(old(self)@, bus@).top(),
            machine(final(self)@, bus@) == machine(old(self)@, bus@).pop(),
    {
        self.state.s = self.state.s.wrapping_add(1);
        bus.read(0x0100 + (self.state.s as u16))
    }

    /// Pushes a word, high byte first.
    pub fn push_word(&mut self, bus: &mut Bus, w: u16)
        requires
            old(bus).wf(),
        ensures
            final(bus).wf(),
            machine(final(self)@, final(bus)@) == machine(old(self)@, old(bus)@).push_word(w),
    {
        self.push_to_stack(bus, high_u8(w));
        self.push_to_stack(bus, low_u8(w));
    }

    /// Pulls a word, low byte first.
    pub fn pop_word(&mut self, bus: &Bus) -> (w: u16)
        requires
            bus.wf(),
        ensures
            w == machine(old(self)@, bus@).top_word(),
            machine(final(self)@, bus@) == machine(old(self)@, bus@).pop().pop(),
    {
        let lo = self.pop_from_stack(bus);
        let hi = self.pop_from_stack(bus);
        two_u8_to_u16(hi, lo)
    }

    /// Resets the processor: `A`, `X` and `Y` to 0, `S` to `FD`, `P` to
    /// `24`, the program counter to the word at `FFFC`. Nothing is pushed
    /// and memory is not touched.
    pub fn reset(&mut self, bus: &Bus)
        requires
            bus.wf(),
        ensures
            final(self).wf(),
            machine(final(self)@, bus@) == machine(old(self)@, bus@).reset(),
    {
        let pc = bus.read_word(RESET_VECTOR);
        proof {
            lemma_status_stays_valid();
        }
        self.state = CpuState {
            a: 0,
            x: 0,
            y: 0,
            s: RESET_STACK,
            pc,
            p: RESET_STATUS,
            nmi_pending: false,
            irq_line: self.state.irq_line,
            halted: false,
        };
    }

    /// Runs the interrupt sequence for the handler whose address is stored
    /// at `vector`.
    pub fn interrupt(&mut self, bus: &mut Bus, vector: u16, brk: bool)
        requires
            old(bus).wf(),
        ensures
            final(self).wf(),
            final(bus).wf(),
            machine(final(self)@, final(bus)@) == machine(old(self)@, old(bus)@).interrupt(
                vector,
                brk,
            ),
    {
        let pc = self.state.pc;
        let status = status_to_push(self.state.p, brk);
        self.push_word(bus, pc);
        self.push_to_stack(bus, status);
        self.set_bitflag(INTERRUPT, true);
        self.state.pc = bus.read_word(vector);
    }
}

} // verus!
