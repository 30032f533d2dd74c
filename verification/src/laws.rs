//! Laws of the machine: what holds of every state and every instruction.

use vstd::prelude::*;
use crate::addressing::{Operand, Resolved};
use crate::alu::{carry_sum, modified, sign_overflow, signed};
use crate::bits::bit_is_set;
use crate::execute::extra_cycles;
use crate::opcode::{can_cross_page, instruction_of, is_branch, reads_operand, Mnemonic};
use crate::decode::lemma_page_penalty_rule;
use crate::state::{stack_addr, CpuState, Machine};
use crate::status::{
    lemma_pushed_status, lemma_set_flag, lemma_status_stays_valid, lemma_with_zn, pushed_status,
    set_flag, valid_status, BREAK, CARRY, INTERRUPT, OVERFLOW, UNUSED,
};
use crate::step::CpuError;

verus! {

/// A byte pushed is the byte pulled next, and the pull leaves the
/// registers, the stack pointer among them, as they were before the push.
/// This holds for every stack pointer: the stack wraps inside page 1.
pub proof fn lemma_push_then_pull(m: Machine, b: u8)
    requires
        m.bus.wf(),
    ensures
        m.push(b).top() == b,
        m.push(b).pop().cpu == m.cpu,
        m.push(b).bus == m.bus.write(stack_addr(m.cpu.s), b),
        0x0100 <= stack_addr(m.cpu.s) <= 0x01FF,
        stack_addr(m.cpu.s) == 0x0100u16 | (m.cpu.s as u16),
{
    crate::bits::lemma_mask_forms(0, m.cpu.s);
}

/// A word pushed is the word pulled next, and pulling it restores the
/// stack pointer.
pub proof fn lemma_push_then_pull_word(m: Machine, w: u16)
    requires
        m.bus.wf(),
    ensures
        m.push_word(w).top_word() == w,
        m.push_word(w).pop().pop().cpu == m.cpu,
{
}

/// After the status was pulled from the stack, by `PLP` or by `RTI`, and
/// after a reset, bit 5 of the status is set and bit 4 is clear, whatever
/// the stack held.
pub proof fn lemma_bit_five_is_forced(m: Machine)
    ensures
        m.pull_status().cpu.wf(),
        m.return_from_interrupt().cpu.wf(),
        m.reset().cpu.wf(),
        bit_is_set(m.pull_status().cpu.p, UNUSED) && !bit_is_set(m.pull_status().cpu.p, BREAK),
        bit_is_set(m.return_from_interrupt().cpu.p, UNUSED) && !bit_is_set(
            m.return_from_interrupt().cpu.p,
            BREAK,
        ),
        bit_is_set(m.reset().cpu.p, UNUSED) && !bit_is_set(m.reset().cpu.p, BREAK),
{
    lemma_status_stays_valid();
    lemma_valid_status_bits(m.pull_status().cpu.p);
    lemma_valid_status_bits(m.return_from_interrupt().cpu.p);
    lemma_valid_status_bits(m.reset().cpu.p);
}

/// A valid status has bit 5 set and bit 4 clear.
pub proof fn lemma_valid_status_bits(p: u8)
    requires
        valid_status(p),
    ensures
        bit_is_set(p, UNUSED),
        !bit_is_set(p, BREAK),
{
    assert(p & 0x30 == 0x20 ==> p & 0x20 == 0x20 && p & 0x10 != 0x10) by (bit_vector);
}

/// `PHP` followed by `PLP` restores the status and the stack pointer: the
/// copy on the stack carries the break marker, and the pull drops it.
pub proof fn lemma_php_then_plp(m: Machine)
    requires
        m.wf(),
    ensures
        m.execute(Mnemonic::Php, Operand::Implied).execute(Mnemonic::Plp, Operand::Implied).cpu
            == m.cpu,
        bit_is_set(m.execute(Mnemonic::Php, Operand::Implied).top(), BREAK),
        bit_is_set(m.execute(Mnemonic::Php, Operand::Implied).top(), UNUSED),
{
    lemma_pushed_status(m.cpu.p, true);
    lemma_push_then_pull(m, pushed_status(m.cpu.p, true));
}

/// An interrupt sequence leaves three bytes on the stack: on top the status
/// with bit 5 set and the break marker as given (set for `BRK`, clear for
/// the two hardware interrupts), below it the program counter. It disables
/// interrupts, changes no other flag, and continues at the address stored
/// at the vector.
pub proof fn lemma_interrupt_sequence(m: Machine, vector: u16, brk: bool)
    requires
        m.wf(),
    ensures
        m.interrupt(vector, brk).top() == pushed_status(m.cpu.p, brk),
        bit_is_set(m.interrupt(vector, brk).top(), BREAK) == brk,
        bit_is_set(m.interrupt(vector, brk).top(), UNUSED),
        m.interrupt(vector, brk).pop().top_word() == m.cpu.pc,
        m.interrupt(vector, brk).cpu.s == m.cpu.s.wrapping_sub(3),
        m.interrupt(vector, brk).cpu.interrupt_disabled(),
        m.interrupt(vector, brk).cpu.p == set_flag(m.cpu.p, INTERRUPT, true),
        m.interrupt(vector, brk).cpu.pc == m.interrupt(vector, brk).read_word(vector),
        m.interrupt(vector, brk).return_from_interrupt().cpu == m.cpu,
{
    lemma_pushed_status(m.cpu.p, brk);
    lemma_set_flag(m.cpu.p, INTERRUPT, true, INTERRUPT);
    let pushed_pc = m.push_word(m.cpu.pc);
    lemma_push_then_pull_word(m, m.cpu.pc);
    let status = pushed_status(m.cpu.p, brk);
    lemma_push_then_pull(pushed_pc, status);
}

/// `BRK` skips the byte after its opcode, and `RTI` continues where the
/// pulled address says, without adding one: a `BRK` answered at once by
/// `RTI` continues two bytes after the `BRK` opcode with status and stack
/// pointer restored. The program counter of `m` points after the opcode.
pub proof fn lemma_brk_then_rti(m: Machine)
    requires
        m.wf(),
    ensures
        m.execute(Mnemonic::Brk, Operand::Implied).execute(Mnemonic::Rti, Operand::Implied).cpu
            == m.cpu.with_pc(m.cpu.pc.wrapping_add(1)),
        bit_is_set(m.execute(Mnemonic::Brk, Operand::Implied).top(), BREAK),
{
    lemma_interrupt_sequence(m.with_pc(m.cpu.pc.wrapping_add(1)), crate::bus::IRQ_VECTOR, true);
}

/// `JSR` pushes the address of its own last byte, and `RTS` continues one
/// past the address it pulls: a call followed at once by a return continues
/// at the instruction after the call, with the stack pointer as before. The
/// program counter of `m` points at the instruction after the `JSR`.
pub proof fn lemma_call_then_return(m: Machine, target: u16)
    requires
        m.bus.wf(),
    ensures
        m.call(Operand::Address(target)).cpu.pc == target,
        m.call(Operand::Address(target)).top_word() == m.cpu.pc.wrapping_sub(1),
        m.call(Operand::Address(target)).return_from_call().cpu == m.cpu,
{
    lemma_push_then_pull_word(m, m.cpu.pc.wrapping_sub(1));
}

/// The same law over whole steps: if the processor is running, no
/// interrupt is due, the opcode at the program counter is `JSR` and the
/// opcode found at its target is `RTS`, then two steps take six cycles each
/// and leave the program counter three bytes after the `JSR`, and the
/// registers otherwise as they were.
pub proof fn lemma_jsr_then_rts(m: Machine)
    requires
        m.wf(),
        !m.cpu.halted,
        !m.interrupt_due(),
        m.read(m.cpu.pc) == 0x20,
        m.step().machine.read(m.step().machine.cpu.pc) == 0x60,
    ensures
        m.step().outcome == Ok::<u8, CpuError>(6),
        m.step().machine.step().outcome == Ok::<u8, CpuError>(6),
        m.step().machine.step().machine.cpu == m.cpu.with_pc(m.cpu.pc.wrapping_add(3)),
{
    reveal(instruction_of);
    let fetched = m.with_pc(m.cpu.pc.wrapping_add(1));
    let target = fetched.read_word(fetched.cpu.pc);
    let ready = fetched.with_pc(fetched.cpu.pc.wrapping_add(2));
    lemma_call_then_return(ready, target);
}

/// A step keeps the machine well formed: bit 5 of the status stays set and
/// bit 4 clear, and the memories keep their sizes. The registers are bytes
/// and the program counter is a word: no step leaves these ranges.
pub proof fn lemma_step_keeps_well_formed(m: Machine)
    requires
        m.wf(),
    ensures
        m.step().machine.wf(),
        0 <= m.step().machine.cpu.a <= 0xFF,
        0 <= m.step().machine.cpu.x <= 0xFF,
        0 <= m.step().machine.cpu.y <= 0xFF,
        0 <= m.step().machine.cpu.s <= 0xFF,
        0 <= m.step().machine.cpu.pc <= 0xFFFF,
{
    lemma_status_stays_valid();
    if !m.cpu.halted && m.interrupt_due() {
        lemma_stack_keeps_well_formed(m, 0, 0, crate::bus::IRQ_VECTOR, false);
        lemma_stack_keeps_well_formed(
            m.with_cpu(CpuState { nmi_pending: false, ..m.cpu }),
            0,
            0,
            crate::bus::NMI_VECTOR,
            false,
        );
    } else if !m.cpu.halted {
        match instruction_of(m.read(m.cpu.pc)) {
            None => {},
            Some(i) => {
                let fetched = m.with_pc(m.cpu.pc.wrapping_add(1));
                let ready = fetched.skip_operand(i.mode);
                lemma_execute_keeps_well_formed(ready, i.mnemonic, fetched.resolve(i.mode).operand);
            },
        }
    }
}

/// Storing a byte keeps the machine well formed.
proof fn lemma_store_keeps_well_formed(m: Machine, operand: Operand, v: u8)
    requires
        m.wf(),
    ensures
        m.store(operand, v).wf(),
{
}

/// Pushing keeps the machine well formed, and so does an interrupt
/// sequence.
proof fn lemma_stack_keeps_well_formed(m: Machine, v: u8, w: u16, vector: u16, brk: bool)
    requires
        m.wf(),
    ensures
        m.push(v).wf(),
        m.push_word(w).wf(),
        m.interrupt(vector, brk).wf(),
        m.pop().wf(),
        m.pull_status().wf(),
        m.return_from_interrupt().wf(),
        m.return_from_call().wf(),
{
    lemma_status_stays_valid();
}

/// A read-modify-write operation keeps the machine well formed, alone and
/// as the first half of an undocumented pair.
proof fn lemma_modify_keeps_well_formed(m: Machine, op: Mnemonic, operand: Operand)
    requires
        m.wf(),
    ensures
        m.read_modify_write(op, operand).wf(),
        m.combined(op, operand).wf(),
{
    lemma_status_stays_valid();
    let v = m.value_of(operand);
    lemma_store_keeps_well_formed(
        m.with_cpu(m.cpu.after_modify(op, v)),
        operand,
        modified(op, v, m.cpu.carry()),
    );
    let first = crate::execute::first_half(op);
    lemma_store_keeps_well_formed(
        m.with_cpu(m.cpu.after_modify(first, v)),
        operand,
        modified(first, v, m.cpu.carry()),
    );
}

/// Every instruction keeps the machine well formed.
pub proof fn lemma_execute_keeps_well_formed(m: Machine, op: Mnemonic, operand: Operand)
    requires
        m.wf(),
    ensures
        m.execute(op, operand).wf(),
{
    lemma_status_stays_valid();
    let cpu = m.cpu;
    match op {
        Mnemonic::Sta => lemma_store_keeps_well_formed(m, operand, cpu.a),
        Mnemonic::Stx => lemma_store_keeps_well_formed(m, operand, cpu.x),
        Mnemonic::Sty => lemma_store_keeps_well_formed(m, operand, cpu.y),
        Mnemonic::Sax => lemma_store_keeps_well_formed(m, operand, cpu.a & cpu.x),
        Mnemonic::Pha => lemma_stack_keeps_well_formed(m, cpu.a, 0, 0, true),
        Mnemonic::Php => lemma_stack_keeps_well_formed(m, pushed_status(cpu.p, true), 0, 0, true),
        Mnemonic::Pla | Mnemonic::Plp | Mnemonic::Rts | Mnemonic::Rti => {
            lemma_stack_keeps_well_formed(m, 0, 0, 0, true)
        },
        Mnemonic::Jsr => lemma_stack_keeps_well_formed(m, 0, cpu.pc.wrapping_sub(1), 0, true),
        Mnemonic::Brk => lemma_stack_keeps_well_formed(
            m.with_pc(cpu.pc.wrapping_add(1)),
            0,
            0,
            crate::bus::IRQ_VECTOR,
            true,
        ),
        Mnemonic::Inc
        | Mnemonic::Dec
        | Mnemonic::Asl
        | Mnemonic::Lsr
        | Mnemonic::Rol
        | Mnemonic::Ror
        | Mnemonic::Slo
        | Mnemonic::Rla
        | Mnemonic::Sre
        | Mnemonic::Rra
        | Mnemonic::Dcp
        | Mnemonic::Isc => lemma_modify_keeps_well_formed(m, op, operand),
        _ => {},
    }
}

/// After a value arrived in a register, after a logical operation, and
/// after an addition or subtraction, the zero flag says whether the result
/// is 0 and the negative flag is bit 7 of the result.
pub proof fn lemma_result_flags(c: CpuState, v: u8)
    ensures
        c.load_a(v).a == v && c.load_a(v).zero() == (v == 0) && c.load_a(v).negative()
            == bit_is_set(v, 7),
        c.load_x(v).x == v && c.load_x(v).zero() == (v == 0) && c.load_x(v).negative()
            == bit_is_set(v, 7),
        c.load_y(v).y == v && c.load_y(v).zero() == (v == 0) && c.load_y(v).negative()
            == bit_is_set(v, 7),
        c.add_with_carry(v).zero() == (c.add_with_carry(v).a == 0),
        c.add_with_carry(v).negative() == bit_is_set(c.add_with_carry(v).a, 7),
        c.subtract_with_carry(v).zero() == (c.subtract_with_carry(v).a == 0),
        c.subtract_with_carry(v).negative() == bit_is_set(c.subtract_with_carry(v).a, 7),
{
    lemma_with_zn(c.p, v, CARRY);
    let sum = carry_sum(c.a, v, c.carry());
    let r = (sum % 0x100) as u8;
    let before = (CpuState { a: r, ..c }).with_flag(CARRY, sum > 0xFF).with_flag(
        OVERFLOW,
        sign_overflow(c.a, v, r),
    );
    lemma_with_zn(before.p, r, CARRY);
    let w = v ^ 0xFF;
    let sum2 = carry_sum(c.a, w, c.carry());
    let r2 = (sum2 % 0x100) as u8;
    let before2 = (CpuState { a: r2, ..c }).with_flag(CARRY, sum2 > 0xFF).with_flag(
        OVERFLOW,
        sign_overflow(c.a, w, r2),
    );
    lemma_with_zn(before2.p, r2, CARRY);
}

/// The operation puts its result in the accumulator.
pub open spec fn writes_accumulator(op: Mnemonic) -> bool {
    matches!(
        op,
        Mnemonic::Lda | Mnemonic::And | Mnemonic::Ora | Mnemonic::Eor | Mnemonic::Adc
            | Mnemonic::Sbc | Mnemonic::Pla | Mnemonic::Txa | Mnemonic::Tya
    )
}

/// After every instruction that puts its result in the accumulator, the
/// arithmetic and logical ones among them, the zero flag says whether the
/// accumulator is 0 and the negative flag is its bit 7. The logical
/// operations compute what their names say.
pub proof fn lemma_accumulator_flags(m: Machine, op: Mnemonic, operand: Operand)
    requires
        writes_accumulator(op),
    ensures
        m.execute(op, operand).cpu.zero() == (m.execute(op, operand).cpu.a == 0),
        m.execute(op, operand).cpu.negative() == bit_is_set(m.execute(op, operand).cpu.a, 7),
        op == Mnemonic::And ==> m.execute(op, operand).cpu.a == m.cpu.a & m.value_of(operand),
        op == Mnemonic::Ora ==> m.execute(op, operand).cpu.a == m.cpu.a | m.value_of(operand),
        op == Mnemonic::Eor ==> m.execute(op, operand).cpu.a == m.cpu.a ^ m.value_of(operand),
        op == Mnemonic::Lda ==> m.execute(op, operand).cpu.a == m.value_of(operand),
{
    let v = m.value_of(operand);
    lemma_result_flags(m.cpu, v);
    lemma_result_flags(m.cpu, m.cpu.a & v);
    lemma_result_flags(m.cpu, m.cpu.a | v);
    lemma_result_flags(m.cpu, m.cpu.a ^ v);
    lemma_result_flags(m.cpu, m.cpu.x);
    lemma_result_flags(m.cpu, m.cpu.y);
    lemma_result_flags(m.pop().cpu, m.top());
}

/// After `CMP`, `CPX` and `CPY` the carry says that the register is at
/// least the operand, both unsigned, and the zero flag that they are equal;
/// registers and memory are as before.
pub proof fn lemma_compare_instructions(m: Machine, operand: Operand)
    ensures
        m.execute(Mnemonic::Cmp, operand).cpu.carry() == (m.cpu.a >= m.value_of(operand)),
        m.execute(Mnemonic::Cmp, operand).cpu.zero() == (m.cpu.a == m.value_of(operand)),
        m.execute(Mnemonic::Cpx, operand).cpu.carry() == (m.cpu.x >= m.value_of(operand)),
        m.execute(Mnemonic::Cpx, operand).cpu.zero() == (m.cpu.x == m.value_of(operand)),
        m.execute(Mnemonic::Cpy, operand).cpu.carry() == (m.cpu.y >= m.value_of(operand)),
        m.execute(Mnemonic::Cpy, operand).cpu.zero() == (m.cpu.y == m.value_of(operand)),
        m.execute(Mnemonic::Cmp, operand).bus == m.bus,
        m.execute(Mnemonic::Cmp, operand).cpu == (CpuState {
            p: m.execute(Mnemonic::Cmp, operand).cpu.p,
            ..m.cpu
        }),
{
    let v = m.value_of(operand);
    lemma_compare_flags(m.cpu, m.cpu.a, v);
    lemma_compare_flags(m.cpu, m.cpu.x, v);
    lemma_compare_flags(m.cpu, m.cpu.y, v);
}

/// After a comparison the carry says that the register is at least the
/// operand, both taken as unsigned; the zero flag says that they are equal;
/// the negative flag is bit 7 of their 8-bit difference. No register
/// changes.
pub proof fn lemma_compare_flags(c: CpuState, reg: u8, v: u8)
    ensures
        c.compare(reg, v).carry() == (reg >= v),
        c.compare(reg, v).zero() == (reg == v),
        c.compare(reg, v).negative() == bit_is_set(reg.wrapping_sub(v), 7),
        c.compare(reg, v) == (CpuState { p: c.compare(reg, v).p, ..c }),
{
    let d = reg.wrapping_sub(v);
    let q = c.with_flag(CARRY, reg >= v);
    lemma_set_flag(c.p, CARRY, reg >= v, CARRY);
    lemma_with_zn(q.p, d, CARRY);
}

/// After a shift or a rotate the carry is the bit that was pushed out, and
/// zero and negative flags follow the new byte; counting up or down leaves
/// the carry as it was.
pub proof fn lemma_modify_flags(c: CpuState, op: Mnemonic, v: u8)
    ensures
        c.after_modify(op, v).zero() == (modified(op, v, c.carry()) == 0),
        c.after_modify(op, v).negative() == bit_is_set(modified(op, v, c.carry()), 7),
        op == Mnemonic::Asl || op == Mnemonic::Rol ==> c.after_modify(op, v).carry()
            == bit_is_set(v, 7),
        op == Mnemonic::Lsr || op == Mnemonic::Ror ==> c.after_modify(op, v).carry()
            == bit_is_set(v, 0),
        op == Mnemonic::Inc || op == Mnemonic::Dec ==> c.after_modify(op, v).carry() == c.carry(),
{
    let out = crate::alu::carry_out(op, v, c.carry());
    let q = c.with_flag(CARRY, out);
    lemma_set_flag(c.p, CARRY, out, CARRY);
    lemma_with_zn(q.p, modified(op, v, c.carry()), CARRY);
}

/// The overflow flag of an addition is signed overflow: it is set exactly
/// when the sum of the operands, read as two's-complement numbers, and the
/// carry does not fit a signed byte. The carry is unsigned overflow.
pub proof fn lemma_add_with_carry(c: CpuState, v: u8)
    ensures
        c.add_with_carry(v).a == carry_sum(c.a, v, c.carry()) % 0x100,
        c.add_with_carry(v).carry() == (carry_sum(c.a, v, c.carry()) > 0xFF),
        c.add_with_carry(v).overflow() == !(-128 <= signed(c.a) + signed(v) + (if c.carry() {
            1int
        } else {
            0int
        }) <= 127),
{
    let a = c.a;
    let carry = c.carry();
    let sum = carry_sum(a, v, carry);
    let r = (sum % 0x100) as u8;
    let c1 = (CpuState { a: r, ..c }).with_flag(CARRY, sum > 0xFF);
    let c2 = c1.with_flag(OVERFLOW, sign_overflow(a, v, r));
    lemma_set_flag(c.p, CARRY, sum > 0xFF, OVERFLOW);
    lemma_set_flag(c1.p, OVERFLOW, sign_overflow(a, v, r), CARRY);
    lemma_with_zn(c2.p, r, CARRY);
    lemma_with_zn(c2.p, r, OVERFLOW);
    lemma_sign_overflow(a, v, carry);
}

/// The bit formula for overflow agrees with the arithmetic one.
pub proof fn lemma_sign_overflow(a: u8, v: u8, carry: bool)
    ensures
        sign_overflow(a, v, (carry_sum(a, v, carry) % 0x100) as u8) == !(-128 <= signed(a)
            + signed(v) + (if carry {
            1int
        } else {
            0int
        }) <= 127),
{
    let r = (carry_sum(a, v, carry) % 0x100) as u8;
    assert(((!(a ^ v)) & (a ^ r) & 0x80 != 0) == ((a >= 0x80) == (v >= 0x80) && (a >= 0x80) != (r
        >= 0x80))) by (bit_vector);
}

/// Adding `v` without carry and then subtracting `v` without borrow gives
/// the accumulator back and leaves the overflow flag clear, provided that
/// the addition did not overflow.
pub proof fn lemma_add_then_subtract(c: CpuState, v: u8)
    requires
        !c.carry(),
        !c.add_with_carry(v).overflow(),
    ensures
        c.add_with_carry(v).with_flag(CARRY, true).subtract_with_carry(v).a == c.a,
        !c.add_with_carry(v).with_flag(CARRY, true).subtract_with_carry(v).overflow(),
{
    let added = c.add_with_carry(v);
    lemma_add_with_carry(c, v);
    let borrowed = added.with_flag(CARRY, true);
    lemma_set_flag(added.p, CARRY, true, CARRY);
    let w = v ^ 0xFF;
    assert(v ^ 0xFF == 0xFF - v) by (bit_vector);
    lemma_add_with_carry(borrowed, w);
}

/// What a crossed page costs. An instruction that only reads its operand
/// through an indexed mode costs one cycle more when the page is crossed;
/// every other instruction that is no branch, stores and read-modify-write
/// operations among them, costs the same either way.
pub proof fn lemma_page_cross_cost(opcode: u8, cpu: CpuState, resolved: Resolved)
    ensures
        match instruction_of(opcode) {
            Some(i) => if is_branch(i.mnemonic) {
                true
            } else if reads_operand(i.mnemonic) && can_cross_page(i.mode) {
                extra_cycles(cpu, i, resolved) == if resolved.crossed {
                    1int
                } else {
                    0int
                }
            } else {
                extra_cycles(cpu, i, resolved) == 0
            },
            None => true,
        },
{
    lemma_page_penalty_rule(opcode);
}

} // verus!
