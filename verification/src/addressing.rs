//! Addressing modes: how an instruction finds its operand.

use vstd::prelude::*;
use crate::bits::{
    high_byte, high_u8, lemma_mask_forms, low_byte, low_u8, page_of, same_page, two_u8_to_u16,
    word,
};
use crate::bus::Bus;
use crate::cpu::Cpu;
use crate::decode::operand_bytes;
use crate::opcode::{operand_len, AddrMode};
use crate::state::{machine, Machine};

verus! {

/// What an addressing mode resolves to.
#[derive(Clone, Copy, Debug, PartialEq, Eq, Structural)]
pub enum Operand {
    /// The instruction has no operand.
    Implied,
    /// The operand is the accumulator.
    Accumulator,
    /// The operand is this value.
    Immediate(u8),
    /// The operand is the byte at this address.
    Address(u16),
}

/// An operand, and whether finding it crossed a page.
#[derive(Clone, Copy, Debug, PartialEq, Eq, Structural)]
pub struct Resolved {
    pub operand: Operand,
    pub crossed: bool,
}

/// The distance that a branch offset byte stands for: a two's-complement
/// number from -128 to 127.
pub open spec fn signed_offset(offset: u8) -> int {
    if offset < 0x80 {
        offset as int
    } else {
        offset - 0x100
    }
}

/// Where a branch lands: `next`, the address of the instruction after the
/// branch, plus the signed offset, wrapping in the 16-bit address space.
pub open spec fn branch_target(next: u16, offset: u8) -> u16 {
    ((next + signed_offset(offset)) % 0x1_0000) as u16
}

/// The address from which an indirect jump takes the high byte of its
/// target: the byte after `ptr`, but in the page of `ptr`. A pointer in the
/// last byte of a page has its second half at the start of the same page.
pub open spec fn indirect_high_addr(ptr: u16) -> u16 {
    word(high_byte(ptr), low_byte(ptr).wrapping_add(1))
}

/// The address in page zero that follows `zp`, wrapping from `FF` to `00`.
pub open spec fn zero_page_next(zp: u8) -> u16 {
    zp.wrapping_add(1) as u16
}

/// An operand in memory, reached without crossing a page.
pub open spec fn at(addr: u16) -> Resolved {
    Resolved { operand: Operand::Address(addr), crossed: false }
}

/// An operand at `base` plus `index`, wrapping in the address space; the
/// page is crossed when the sum lies in another page than `base`.
pub open spec fn indexed(base: u16, index: u8) -> Resolved {
    let addr = base.wrapping_add(index as u16);
    Resolved { operand: Operand::Address(addr), crossed: page_of(addr) != page_of(base) }
}

impl Machine {
    /// The word that the page-zero pointer at `zp` holds, its high byte
    /// taken from the next address inside page zero.
    pub open spec fn zero_page_word(self, zp: u8) -> u16 {
        word(self.read(zero_page_next(zp)), self.read(zp as u16))
    }

    /// The operand of an instruction with mode `mode` whose operand bytes
    /// start at the program counter.
    pub open spec fn resolve(self, mode: AddrMode) -> Resolved {
        let pc = self.cpu.pc;
        let byte = self.read(pc);
        match mode {
            AddrMode::Implied => Resolved { operand: Operand::Implied, crossed: false },
            AddrMode::Accumulator => Resolved { operand: Operand::Accumulator, crossed: false },
            AddrMode::Immediate => Resolved { operand: Operand::Immediate(byte), crossed: false },
            AddrMode::ZeroPage => at(byte as u16),
            AddrMode::ZeroPageX => at(byte.wrapping_add(self.cpu.x) as u16),
            AddrMode::ZeroPageY => at(byte.wrapping_add(self.cpu.y) as u16),
            AddrMode::Absolute => at(self.read_word(pc)),
            AddrMode::AbsoluteX => indexed(self.read_word(pc), self.cpu.x),
            AddrMode::AbsoluteY => indexed(self.read_word(pc), self.cpu.y),
            AddrMode::Indirect => {
                let ptr = self.read_word(pc);
                at(word(self.read(indirect_high_addr(ptr)), self.read(ptr)))
            },
            AddrMode::IndirectX => at(self.zero_page_word(byte.wrapping_add(self.cpu.x))),
            AddrMode::IndirectY => indexed(self.zero_page_word(byte), self.cpu.y),
            AddrMode::Relative => {
                let next = pc.wrapping_add(1);
                let target = branch_target(next, byte);
                Resolved {
                    operand: Operand::Address(target),
                    crossed: page_of(target) != page_of(next),
                }
            },
        }
    }

    /// The machine with the program counter moved past the operand bytes.
    pub open spec fn skip_operand(self, mode: AddrMode) -> Machine {
        self.with_pc(self.cpu.pc.wrapping_add(operand_len(mode) as u16))
    }

    /// The value of an operand: the immediate byte, the byte in memory, or
    /// the accumulator. An instruction without operand has the value 0.
    pub open spec fn value_of(self, operand: Operand) -> u8 {
        match operand {
            Operand::Implied => 0,
            Operand::Accumulator => self.cpu.a,
            Operand::Immediate(v) => v,
            Operand::Address(addr) => self.read(addr),
        }
    }
}

/// Computes where a branch lands.
pub fn branch_to(next: u16, offset: u8) -> (target: u16)
    ensures
        target == branch_target(next, offset),
{
    if offset < 0x80 {
        next.wrapping_add(offset as u16)
    } else {
        next.wrapping_sub(0x100 - (offset as u16))
    }
}

/// Computes the address of the high byte of an indirect jump's target.
pub fn indirect_high(ptr: u16) -> (addr: u16)
    ensures
        addr == indirect_high_addr(ptr),
{
    two_u8_to_u16(high_u8(ptr), low_u8(ptr).wrapping_add(1))
}

/// Adds an index to a base address.
pub fn index_by(base: u16, index: u8) -> (r: Resolved)
    ensures
        r == indexed(base, index),
{
    let addr = base.wrapping_add(index as u16);
    Resolved { operand: Operand::Address(addr), crossed: !same_page(addr, base) }
}

impl Cpu {
    /// Reads the word that the page-zero pointer at `zp` holds.
    pub fn read_zero_page_word(&self, bus: &Bus, zp: u8) -> (w: u16)
        requires
            bus.wf(),
        ensures
            w == machine(self@, bus@).zero_page_word(zp),
    {
        let lo = bus.read(zp as u16);
        let hi = bus.read(zp.wrapping_add(1) as u16);
        two_u8_to_u16(hi, lo)
    }

    /// Resolves the operand of an instruction whose operand bytes start at
    /// the program counter, and moves the program counter past them.
    pub fn resolve(&mut self, bus: &Bus, mode: AddrMode) -> (r: Resolved)
        requires
            bus.wf(),
        ensures
            r == machine(old(self)@, bus@).resolve(mode),
            machine(final(self)@, bus@) == machine(old(self)@, bus@).skip_operand(mode),
    {
        let pc = self.state.pc;
        let r = match mode {
            AddrMode::Implied => Resolved { operand: Operand::Implied, crossed: false },
            AddrMode::Accumulator => Resolved { operand: Operand::Accumulator, crossed: false },
            AddrMode::Immediate => Resolved {
                operand: Operand::Immediate(bus.read(pc)),
                crossed: false,
            },
            AddrMode::ZeroPage => Resolved {
                operand: Operand::Address(bus.read(pc) as u16),
                crossed: false,
            },
            AddrMode::ZeroPageX => Resolved {
                operand: Operand::Address(bus.read(pc).wrapping_add(self.state.x) as u16),
                crossed: false,
            },
            AddrMode::ZeroPageY => Resolved {
                operand: Operand::Address(bus.read(pc).wrapping_add(self.state.y) as u16),
                crossed: false,
            },
            AddrMode::Absolute => Resolved {
                operand: Operand::Address(bus.read_word(pc)),
                crossed: false,
            },
            AddrMode::AbsoluteX => index_by(bus.read_word(pc), self.state.x),
            AddrMode::AbsoluteY => index_by(bus.read_word(pc), self.state.y),
            AddrMode::Indirect => {
                let ptr = bus.read_word(pc);
                let lo = bus.read(ptr);
                let hi = bus.read(indirect_high(ptr));
                Resolved { operand: Operand::Address(two_u8_to_u16(hi, lo)), crossed: false }
            },
            AddrMode::IndirectX => {
                let zp = bus.read(pc).wrapping_add(self.state.x);
                Resolved {
                    operand: Operand::Address(self.read_zero_page_word(bus, zp)),
                    crossed: false,
                }
            },
            AddrMode::IndirectY => {
                let zp = bus.read(pc);
                index_by(self.read_zero_page_word(bus, zp), self.state.y)
            },
            AddrMode::Relative => {
                let next = pc.wrapping_add(1);
                let target = branch_to(next, bus.read(pc));
                Resolved { operand: Operand::Address(target), crossed: !same_page(target, next) }
            },
        };
        self.state.pc = pc.wrapping_add(operand_bytes(mode));
        r
    }

    /// Reads the value of an operand.
    pub fn value_of(&self, bus: &Bus, operand: Operand) -> (v: u8)
        requires
            bus.wf(),
        ensures
            v == machine(self@, bus@).value_of(operand),
    {
        match operand {
            Operand::Implied => 0,
            Operand::Accumulator => self.state.a,
            Operand::Immediate(v) => v,
            Operand::Address(addr) => bus.read(addr),
        }
    }
}

/// The operand of the three zero-page modes lies in page zero, whatever
/// the index register holds, and no page is crossed on the way.
pub proof fn lemma_zero_page_stays_in_page(m: Machine, mode: AddrMode)
    requires
        mode == AddrMode::ZeroPage || mode == AddrMode::ZeroPageX || mode == AddrMode::ZeroPageY,
    ensures
        m.resolve(mode).operand is Address,
        m.resolve(mode).operand->Address_0 < 0x100,
        !m.resolve(mode).crossed,
{
}

/// Both halves of the pointer that the two indirect modes fetch from page
/// zero lie in page zero: a pointer at `FF` has its high byte at `00`.
pub proof fn lemma_zero_page_pointer_stays_in_page(m: Machine, zp: u8)
    ensures
        (zp as u16) < 0x100,
        zero_page_next(zp) < 0x100,
        zp == 0xFF ==> zero_page_next(zp) == 0,
        zp != 0xFF ==> zero_page_next(zp) == zp + 1,
        m.zero_page_word(zp) == word(m.read(zero_page_next(zp)), m.read(zp as u16)),
        m.resolve(AddrMode::IndirectX).operand == Operand::Address(
            m.zero_page_word(m.read(m.cpu.pc).wrapping_add(m.cpu.x)),
        ),
        m.resolve(AddrMode::IndirectY) == indexed(m.zero_page_word(m.read(m.cpu.pc)), m.cpu.y),
{
}

/// The addresses written with masks: an index added in page zero is the sum
/// cut to eight bits, the page is crossed when the high bytes differ, and
/// the high byte of an indirect jump's target is read from
/// `(ptr & FF00) | ((ptr + 1) & FF)`.
pub proof fn lemma_mask_addresses(byte: u8, index: u8, base: u16, ptr: u16)
    ensures
        byte.wrapping_add(index) == (byte + index) % 0x100,
        base.wrapping_add(index as u16) == (base + index) % 0x1_0000,
        indexed(base, index).crossed == (base.wrapping_add(index as u16) & 0xFF00 != base
            & 0xFF00),
        indirect_high_addr(ptr) == (ptr & 0xFF00) | (ptr.wrapping_add(1) & 0x00FF),
{
    let sum = base.wrapping_add(index as u16);
    lemma_mask_forms(base, 0);
    lemma_mask_forms(sum, 0);
    let next = ptr.wrapping_add(1);
    lemma_mask_forms(next, 0);
    lemma_mask_forms(ptr, low_byte(next));
}

/// The high byte of an indirect jump's target comes from the page of the
/// pointer: from the next address, except that a pointer at the end of a
/// page wraps to the start of that page.
pub proof fn lemma_indirect_high_addr(ptr: u16)
    ensures
        page_of(indirect_high_addr(ptr)) == page_of(ptr),
        low_byte(ptr) != 0xFF ==> indirect_high_addr(ptr) == ptr + 1,
        low_byte(ptr) == 0xFF ==> indirect_high_addr(ptr) == ptr - 0xFF,
{
}

/// A branch reaches from 128 bytes before the next instruction to 127
/// bytes after it, wrapping at the ends of the address space.
pub proof fn lemma_branch_target(next: u16, offset: u8)
    ensures
        -128 <= signed_offset(offset) <= 127,
        0 <= next + signed_offset(offset) < 0x1_0000 ==> branch_target(next, offset) == next
            + signed_offset(offset),
        next + signed_offset(offset) < 0 ==> branch_target(next, offset) == next + signed_offset(
            offset,
        ) + 0x1_0000,
        next + signed_offset(offset) >= 0x1_0000 ==> branch_target(next, offset) == next
            + signed_offset(offset) - 0x1_0000,
{
}

} // verus!
