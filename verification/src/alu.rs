//! What the instructions do to the registers: loads, logic, arithmetic,
//! comparison, shifts, and the flags each of them sets.

use vstd::prelude::*;
use crate::bits::{bit_is_set, check_bit};
use crate::cpu::Cpu;
use crate::opcode::Mnemonic;
use crate::state::CpuState;
use crate::status::{CARRY, NEGATIVE, OVERFLOW, ZERO};

verus! {

/// The sum that an addition with carry forms before it is cut to a byte.
pub open spec fn carry_sum(a: u8, v: u8, carry: bool) -> int {
    a + v + if carry {
        1int
    } else {
        0int
    }
}

/// Signed overflow of an addition: both operands have the same sign and the
/// result `r` has the other one.
pub open spec fn sign_overflow(a: u8, v: u8, r: u8) -> bool {
    (!(a ^ v)) & (a ^ r) & 0x80 != 0
}

/// The number that a byte stands for in two's complement.
pub open spec fn signed(v: u8) -> int {
    if v < 0x80 {
        v as int
    } else {
        v - 0x100
    }
}

/// The byte that a read-modify-write operation makes of `v`.
///
/// `ASL` and `LSR` shift by one place and fill with 0; `ROL` and `ROR` fill
/// with the carry; `INC` and `DEC` count with 8-bit wrap.
pub open spec fn modified(op: Mnemonic, v: u8, carry: bool) -> u8 {
    match op {
        Mnemonic::Asl => v << 1,
        Mnemonic::Lsr => v >> 1,
        Mnemonic::Rol => (v << 1) | if carry {
            0x01u8
        } else {
            0x00u8
        },
        Mnemonic::Ror => (v >> 1) | if carry {
            0x80u8
        } else {
            0x00u8
        },
        Mnemonic::Inc => v.wrapping_add(1),
        Mnemonic::Dec => v.wrapping_sub(1),
        _ => v,
    }
}

/// The carry after a read-modify-write operation on `v`: the bit that a
/// shift pushes out; counting leaves the carry alone.
pub open spec fn carry_out(op: Mnemonic, v: u8, carry: bool) -> bool {
    match op {
        Mnemonic::Asl | Mnemonic::Rol => bit_is_set(v, 7),
        Mnemonic::Lsr | Mnemonic::Ror => bit_is_set(v, 0),
        _ => carry,
    }
}

impl CpuState {
    /// A value arrives in `A`: zero and negative flags follow it.
    pub open spec fn load_a(self, v: u8) -> CpuState {
        CpuState { a: v, ..self }.with_zn(v)
    }

    /// A value arrives in `X`.
    pub open spec fn load_x(self, v: u8) -> CpuState {
        CpuState { x: v, ..self }.with_zn(v)
    }

    /// A value arrives in `Y`.
    pub open spec fn load_y(self, v: u8) -> CpuState {
        CpuState { y: v, ..self }.with_zn(v)
    }

    /// Comparison of a register with `v`: carry if the register is at least
    /// `v`, zero and negative from their 8-bit difference.
    pub open spec fn compare(self, reg: u8, v: u8) -> CpuState {
        self.with_flag(CARRY, reg >= v).with_zn(reg.wrapping_sub(v))
    }

    /// `ADC`: `A + v + C`; carry out of bit 7, signed overflow, and the low
    /// eight bits into `A`. The decimal flag plays no part.
    pub open spec fn add_with_carry(self, v: u8) -> CpuState {
        let sum = carry_sum(self.a, v, self.carry());
        let r = (sum % 0x100) as u8;
        CpuState { a: r, ..self }.with_flag(CARRY, sum > 0xFF).with_flag(
            OVERFLOW,
            sign_overflow(self.a, v, r),
        ).with_zn(r)
    }

    /// `SBC`: addition of the one's complement of `v`.
    pub open spec fn subtract_with_carry(self, v: u8) -> CpuState {
        self.add_with_carry(v ^ 0xFF)
    }

    /// `BIT`: zero flag from `A & v`, overflow and negative from bits 6 and
    /// 7 of `v`.
    pub open spec fn bit_test(self, v: u8) -> CpuState {
        self.with_flag(ZERO, self.a & v == 0).with_flag(OVERFLOW, bit_is_set(v, 6)).with_flag(
            NEGATIVE,
            bit_is_set(v, 7),
        )
    }

    /// The flags after a read-modify-write operation turned `v` into
    /// `modified(op, v, carry)`.
    pub open spec fn after_modify(self, op: Mnemonic, v: u8) -> CpuState {
        self.with_flag(CARRY, carry_out(op, v, self.carry())).with_zn(
            modified(op, v, self.carry()),
        )
    }
}

impl Cpu {
    /// Puts `v` in `A` and records it in the flags.
    pub fn load_a(&mut self, v: u8)
        ensures
            final(self).wf(),
            final(self)@ == old(self)@.load_a(v),
    {
        self.state.a = v;
        self.update_zn(v);
    }

    /// Puts `v` in `X` and records it in the flags.
    pub fn load_x(&mut self, v: u8)
        ensures
            final(self).wf(),
            final(self)@ == old(self)@.load_x(v),
    {
        self.state.x = v;
        self.update_zn(v);
    }

    /// Puts `v` in `Y` and records it in the flags.
    pub fn load_y(&mut self, v: u8)
        ensures
            final(self).wf(),
            final(self)@ == old(self)@.load_y(v),
    {
        self.state.y = v;
        self.update_zn(v);
    }

    /// Compares a register value with `v`.
    pub fn compare(&mut self, reg: u8, v: u8)
        ensures
            final(self).wf(),
            final(self)@ == old(self)@.compare(reg, v),
    {
        self.set_bitflag(CARRY, reg >= v);
        self.update_zn(reg.wrapping_sub(v));
    }

    /// Adds `v` and the carry to `A`.
    pub fn add_with_carry(&mut self, v: u8)
        ensures
            final(self).wf(),
            final(self)@ == old(self)@.add_with_carry(v),
    {
        let a = self.state.a;
        let carry: u16 = if self.carry() {
            1
        } else {
            0
        };
        let sum: u16 = (a as u16) + (v as u16) + carry;
        let r: u8 = (sum % 0x100) as u8;
        self.state.a = r;
        self.set_bitflag(CARRY, sum > 0xFF);
        self.set_bitflag(OVERFLOW, (!(a ^ v)) & (a ^ r) & 0x80 != 0);
        self.update_zn(r);
    }

    /// Subtracts `v` and the borrow from `A`.
    pub fn subtract_with_carry(&mut self, v: u8)
        ensures
            final(self).wf(),
            final(self)@ == old(self)@.subtract_with_carry(v),
    {
        self.add_with_carry(v ^ 0xFF);
    }

    /// Tests the bits of `v` against `A`.
    pub fn bit_test(&mut self, v: u8)
        ensures
            final(self).wf(),
            final(self)@ == old(self)@.bit_test(v),
    {
        let a = self.state.a;
        self.set_bitflag(ZERO, a & v == 0);
        self.set_bitflag(OVERFLOW, check_bit(v, 6));
        self.set_bitflag(NEGATIVE, check_bit(v, 7));
    }

    /// Applies a read-modify-write operation to `v`: returns the new byte
    /// and sets the flags.
    pub fn modify(&mut self, op: Mnemonic, v: u8) -> (r: u8)
        ensures
            final(self).wf(),
            r == modified(op, v, old(self)@.carry()),
            final(self)@ == old(self)@.after_modify(op, v),
    {
        let carry = self.carry();
        let r: u8 = match op {
            Mnemonic::Asl => v << 1,
            Mnemonic::Lsr => v >> 1,
            Mnemonic::Rol => (v << 1) | if carry {
                0x01u8
            } else {
                0x00u8
            },
            Mnemonic::Ror => (v >> 1) | if carry {
                0x80u8
            } else {
                0x00u8
            },
            Mnemonic::Inc => v.wrapping_add(1),
            Mnemonic::Dec => v.wrapping_sub(1),
            _ => v,
        };
        let out = match op {
            Mnemonic::Asl | Mnemonic::Rol => check_bit(v, 7),
            Mnemonic::Lsr | Mnemonic::Ror => check_bit(v, 0),
            _ => carry,
        };
        self.set_bitflag(CARRY, out);
        self.update_zn(r);
        r
    }
}

} // verus!
