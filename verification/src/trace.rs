//! The trace: one line of text for the instruction about to execute,
//! `[PC] a:AA x:XX y:YY s:SS p:NVUBDIZC op: MNEMONIC OPERAND`, with numbers in
//! upper-case hexadecimal and the status as eight binary digits, bit 7
//! first. The operand is written as an assembler would write it.

use vstd::prelude::*;
use vstd::string::StrSliceExecFns;
use crate::addressing::branch_target;
use crate::addressing::branch_to;
use crate::bits::{bit_is_set, check_bit, high_byte, high_u8, low_byte, low_u8};
use crate::bus::Bus;
use crate::cpu::Cpu;
use crate::decode::decode;
use crate::opcode::{instruction_of, AddrMode, Mnemonic};
use crate::state::{machine, Machine};

verus! {

/// The three letters of an operation.
pub open spec fn mnemonic_name(op: Mnemonic) -> Seq<char> {
    match op {
        Mnemonic::Adc => "ADC"@,
        Mnemonic::And => "AND"@,
        Mnemonic::Asl => "ASL"@,
        Mnemonic::Bcc => "BCC"@,
        Mnemonic::Bcs => "BCS"@,
        Mnemonic::Beq => "BEQ"@,
        Mnemonic::Bit => "BIT"@,
        Mnemonic::Bmi => "BMI"@,
        Mnemonic::Bne => "BNE"@,
        Mnemonic::Bpl => "BPL"@,
        Mnemonic::Brk => "BRK"@,
        Mnemonic::Bvc => "BVC"@,
        Mnemonic::Bvs => "BVS"@,
        Mnemonic::Clc => "CLC"@,
        Mnemonic::Cld => "CLD"@,
        Mnemonic::Cli => "CLI"@,
        Mnemonic::Clv => "CLV"@,
        Mnemonic::Cmp => "CMP"@,
        Mnemonic::Cpx => "CPX"@,
        Mnemonic::Cpy => "CPY"@,
        Mnemonic::Dec => "DEC"@,
        Mnemonic::Dex => "DEX"@,
        Mnemonic::Dey => "DEY"@,
        Mnemonic::Eor => "EOR"@,
        Mnemonic::Inc => "INC"@,
        Mnemonic::Inx => "INX"@,
        Mnemonic::Iny => "INY"@,
        Mnemonic::Jmp => "JMP"@,
        Mnemonic::Jsr => "JSR"@,
        Mnemonic::Lda => "LDA"@,
        Mnemonic::Ldx => "LDX"@,
        Mnemonic::Ldy => "LDY"@,
        Mnemonic::Lsr => "LSR"@,
        Mnemonic::Nop => "NOP"@,
        Mnemonic::Ora => "ORA"@,
        Mnemonic::Pha => "PHA"@,
        Mnemonic::Php => "PHP"@,
        Mnemonic::Pla => "PLA"@,
        Mnemonic::Plp => "PLP"@,
        Mnemonic::Rol => "ROL"@,
        Mnemonic::Ror => "ROR"@,
        Mnemonic::Rti => "RTI"@,
        Mnemonic::Rts => "RTS"@,
        Mnemonic::Sbc => "SBC"@,
        Mnemonic::Sec => "SEC"@,
        Mnemonic::Sed => "SED"@,
        Mnemonic::Sei => "SEI"@,
        Mnemonic::Sta => "STA"@,
        Mnemonic::Stx => "STX"@,
        Mnemonic::Sty => "STY"@,
        Mnemonic::Tax => "TAX"@,
        Mnemonic::Tay => "TAY"@,
        Mnemonic::Tsx => "TSX"@,
        Mnemonic::Txa => "TXA"@,
        Mnemonic::Txs => "TXS"@,
        Mnemonic::Tya => "TYA"@,
        Mnemonic::Slo => "SLO"@,
        Mnemonic::Rla => "RLA"@,
        Mnemonic::Sre => "SRE"@,
        Mnemonic::Rra => "RRA"@,
        Mnemonic::Sax => "SAX"@,
        Mnemonic::Lax => "LAX"@,
        Mnemonic::Dcp => "DCP"@,
        Mnemonic::Isc => "ISC"@,
        Mnemonic::Kil => "KIL"@,
    }
}

/// The hexadecimal digit for a number below 16.
pub open spec fn hex_digit(n: int) -> char {
    "0123456789ABCDEF"@[n]
}

/// A byte as two hexadecimal digits.
pub open spec fn hex_byte(v: u8) -> Seq<char> {
    seq![hex_digit(v as int / 16), hex_digit(v as int % 16)]
}

/// A word as four hexadecimal digits.
pub open spec fn hex_word(w: u16) -> Seq<char> {
    hex_byte(high_byte(w)) + hex_byte(low_byte(w))
}

/// The binary digit of bit `pos` of `v`.
pub open spec fn bit_digit(v: u8, pos: usize) -> char {
    if bit_is_set(v, pos) {
        '1'
    } else {
        '0'
    }
}

/// A byte as eight binary digits, bit 7 first.
pub open spec fn binary_byte(v: u8) -> Seq<char> {
    seq![
        bit_digit(v, 7),
        bit_digit(v, 6),
        bit_digit(v, 5),
        bit_digit(v, 4),
        bit_digit(v, 3),
        bit_digit(v, 2),
        bit_digit(v, 1),
        bit_digit(v, 0),
    ]
}

/// The operand of an instruction as an assembler writes it, from the two
/// bytes `lo` and `hi` that follow the opcode at `pc`. A branch shows the
/// address it leads to.
pub open spec fn operand_text(mode: AddrMode, pc: u16, lo: u8, hi: u8) -> Seq<char> {
    match mode {
        AddrMode::Implied => Seq::empty(),
        AddrMode::Accumulator => " A"@,
        AddrMode::Immediate => " #$"@ + hex_byte(lo),
        AddrMode::ZeroPage => " $"@ + hex_byte(lo),
        AddrMode::ZeroPageX => " $"@ + hex_byte(lo) + ",X"@,
        AddrMode::ZeroPageY => " $"@ + hex_byte(lo) + ",Y"@,
        AddrMode::Absolute => " $"@ + hex_byte(hi) + hex_byte(lo),
        AddrMode::AbsoluteX => " $"@ + hex_byte(hi) + hex_byte(lo) + ",X"@,
        AddrMode::AbsoluteY => " $"@ + hex_byte(hi) + hex_byte(lo) + ",Y"@,
        AddrMode::Indirect => " ($"@ + hex_byte(hi) + hex_byte(lo) + ")"@,
        AddrMode::IndirectX => " ($"@ + hex_byte(lo) + ",X)"@,
        AddrMode::IndirectY => " ($"@ + hex_byte(lo) + "),Y"@,
        AddrMode::Relative => " $"@ + hex_word(branch_target(pc.wrapping_add(2), lo)),
    }
}

impl Machine {
    /// The instruction at the program counter as text: its name and its
    /// operand, or `???` and the opcode where the byte selects nothing.
    pub open spec fn instruction_text(self) -> Seq<char> {
        let pc = self.cpu.pc;
        let opcode = self.read(pc);
        match instruction_of(opcode) {
            None => "??? $"@ + hex_byte(opcode),
            Some(i) => mnemonic_name(i.mnemonic) + operand_text(
                i.mode,
                pc,
                self.read(pc.wrapping_add(1)),
                self.read(pc.wrapping_add(2)),
            ),
        }
    }

    /// The trace line for the instruction about to execute.
    pub open spec fn trace_line(self) -> Seq<char> {
        "["@ + hex_word(self.cpu.pc) + "] a:"@ + hex_byte(self.cpu.a) + " x:"@ + hex_byte(
            self.cpu.x,
        ) + " y:"@ + hex_byte(self.cpu.y) + " s:"@ + hex_byte(self.cpu.s) + " p:"@ + binary_byte(
            self.cpu.p,
        ) + " op: "@ + self.instruction_text()
    }
}

/// The three letters of an operation.
pub fn name_of(op: Mnemonic) -> (name: &'static str)
    ensures
        name@ == mnemonic_name(op),
{
    match op {
        Mnemonic::Adc => "ADC",
        Mnemonic::And => "AND",
        Mnemonic::Asl => "ASL",
        Mnemonic::Bcc => "BCC",
        Mnemonic::Bcs => "BCS",
        Mnemonic::Beq => "BEQ",
        Mnemonic::Bit => "BIT",
        Mnemonic::Bmi => "BMI",
        Mnemonic::Bne => "BNE",
        Mnemonic::Bpl => "BPL",
        Mnemonic::Brk => "BRK",
        Mnemonic::Bvc => "BVC",
        Mnemonic::Bvs => "BVS",
        Mnemonic::Clc => "CLC",
        Mnemonic::Cld => "CLD",
        Mnemonic::Cli => "CLI",
        Mnemonic::Clv => "CLV",
        Mnemonic::Cmp => "CMP",
        Mnemonic::Cpx => "CPX",
        Mnemonic::Cpy => "CPY",
        Mnemonic::Dec => "DEC",
        Mnemonic::Dex => "DEX",
        Mnemonic::Dey => "DEY",
        Mnemonic::Eor => "EOR",
        Mnemonic::Inc => "INC",
        Mnemonic::Inx => "INX",
        Mnemonic::Iny => "INY",
        Mnemonic::Jmp => "JMP",
        Mnemonic::Jsr => "JSR",
        Mnemonic::Lda => "LDA",
        Mnemonic::Ldx => "LDX",
        Mnemonic::Ldy => "LDY",
        Mnemonic::Lsr => "LSR",
        Mnemonic::Nop => "NOP",
        Mnemonic::Ora => "ORA",
        Mnemonic::Pha => "PHA",
        Mnemonic::Php => "PHP",
        Mnemonic::Pla => "PLA",
        Mnemonic::Plp => "PLP",
        Mnemonic::Rol => "ROL",
        Mnemonic::Ror => "ROR",
        Mnemonic::Rti => "RTI",
        Mnemonic::Rts => "RTS",
        Mnemonic::Sbc => "SBC",
        Mnemonic::Sec => "SEC",
        Mnemonic::Sed => "SED",
        Mnemonic::Sei => "SEI",
        Mnemonic::Sta => "STA",
        Mnemonic::Stx => "STX",
        Mnemonic::Sty => "STY",
        Mnemonic::Tax => "TAX",
        Mnemonic::Tay => "TAY",
        Mnemonic::Tsx => "TSX",
        Mnemonic::Txa => "TXA",
        Mnemonic::Txs => "TXS",
        Mnemonic::Tya => "TYA",
        Mnemonic::Slo => "SLO",
        Mnemonic::Rla => "RLA",
        Mnemonic::Sre => "SRE",
        Mnemonic::Rra => "RRA",
        Mnemonic::Sax => "SAX",
        Mnemonic::Lax => "LAX",
        Mnemonic::Dcp => "DCP",
        Mnemonic::Isc => "ISC",
        Mnemonic::Kil => "KIL",
    }
}

/// Appends the characters of `text`.
pub fn push_text(out: &mut Vec<char>, text: &str)
    ensures
        final(out)@ == old(out)@ + text@,
{
    let n = text.unicode_len();
    let mut i: usize = 0;
    while i < n
        invariant
            i <= n,
            n == text@.len(),
            out@ == old(out)@ + text@.subrange(0, i as int),
        decreases n - i,
    {
        out.push(text.get_char(i));
        i = i + 1;
    }
    assert(text@.subrange(0, n as int) == text@);
}

/// Appends a byte as two hexadecimal digits.
pub fn push_hex_byte(out: &mut Vec<char>, v: u8)
    ensures
        final(out)@ == old(out)@ + hex_byte(v),
{
    proof {
        reveal_strlit("0123456789ABCDEF");
    }
    let digits = "0123456789ABCDEF";
    out.push(digits.get_char((v / 16) as usize));
    out.push(digits.get_char((v % 16) as usize));
}

/// Appends a word as four hexadecimal digits.
pub fn push_hex_word(out: &mut Vec<char>, w: u16)
    ensures
        final(out)@ == old(out)@ + hex_word(w),
{
    push_hex_byte(out, high_u8(w));
    push_hex_byte(out, low_u8(w));
}

/// Appends a byte as eight binary digits, bit 7 first.
pub fn push_binary_byte(out: &mut Vec<char>, v: u8)
    ensures
        final(out)@ == old(out)@ + binary_byte(v),
{
    let mut pos: usize = 8;
    while pos > 0
        invariant
            pos <= 8,
            out@ == old(out)@ + binary_byte(v).subrange(0, 8 - pos),
        decreases pos,
    {
        pos = pos - 1;
        out.push(
            if check_bit(v, pos) {
                '1'
            } else {
                '0'
            },
        );
    }
    assert(binary_byte(v).subrange(0, 8) == binary_byte(v));
}

/// Appends the operand of an instruction as an assembler writes it.
pub fn push_operand(out: &mut Vec<char>, mode: AddrMode, pc: u16, lo: u8, hi: u8)
    ensures
        final(out)@ == old(out)@ + operand_text(mode, pc, lo, hi),
{
    match mode {
        AddrMode::Implied => {},
        AddrMode::Accumulator => push_text(out, " A"),
        AddrMode::Immediate => {
            push_text(out, " #$");
            push_hex_byte(out, lo);
        },
        AddrMode::ZeroPage => {
            push_text(out, " $");
            push_hex_byte(out, lo);
        },
        AddrMode::ZeroPageX => {
            push_text(out, " $");
            push_hex_byte(out, lo);
            push_text(out, ",X");
        },
        AddrMode::ZeroPageY => {
            push_text(out, " $");
            push_hex_byte(out, lo);
            push_text(out, ",Y");
        },
        AddrMode::Absolute => {
            push_text(out, " $");
            push_hex_byte(out, hi);
            push_hex_byte(out, lo);
        },
        AddrMode::AbsoluteX => {
            push_text(out, " $");
            push_hex_byte(out, hi);
            push_hex_byte(out, lo);
            push_text(out, ",X");
        },
        AddrMode::AbsoluteY => {
            push_text(out, " $");
            push_hex_byte(out, hi);
            push_hex_byte(out, lo);
            push_text(out, ",Y");
        },
        AddrMode::Indirect => {
            push_text(out, " ($");
            push_hex_byte(out, hi);
            push_hex_byte(out, lo);
            push_text(out, ")");
        },
        AddrMode::IndirectX => {
            push_text(out, " ($");
            push_hex_byte(out, lo);
            push_text(out, ",X)");
        },
        AddrMode::IndirectY => {
            push_text(out, " ($");
            push_hex_byte(out, lo);
            push_text(out, "),Y");
        },
        AddrMode::Relative => {
            push_text(out, " $");
            push_hex_word(out, branch_to(pc.wrapping_add(2), lo));
        },
    }
}

impl Cpu {
    /// The trace line for the instruction that the next step executes.
    /// Nothing is changed: the bytes are read through the bus.
    pub fn trace_line(&self, bus: &Bus) -> (line: Vec<char>)
        requires
            bus.wf(),
        ensures
            line@ == machine(self@, bus@).trace_line(),
    {
        let pc = self.state.pc;
        let mut line: Vec<char> = Vec::new();
        push_text(&mut line, "[");
        push_hex_word(&mut line, pc);
        push_text(&mut line, "] a:");
        push_hex_byte(&mut line, self.state.a);
        push_text(&mut line, " x:");
        push_hex_byte(&mut line, self.state.x);
        push_text(&mut line, " y:");
        push_hex_byte(&mut line, self.state.y);
        push_text(&mut line, " s:");
        push_hex_byte(&mut line, self.state.s);
        push_text(&mut line, " p:");
        push_binary_byte(&mut line, self.state.p);
        push_text(&mut line, " op: ");
        let ghost head = line@;
        let opcode = bus.read(pc);
        match decode(opcode) {
            None => {
                push_text(&mut line, "??? $");
                push_hex_byte(&mut line, opcode);
                assert(line@ == head + ("??? $"@ + hex_byte(opcode)));
            },
            Some(i) => {
                let lo = bus.read(pc.wrapping_add(1));
                let hi = bus.read(pc.wrapping_add(2));
                push_text(&mut line, name_of(i.mnemonic));
                push_operand(&mut line, i.mode, pc, lo, hi);
                assert(line@ == head + (mnemonic_name(i.mnemonic) + operand_text(
                    i.mode,
                    pc,
                    lo,
                    hi,
                )));
            },
        }
        line
    }
}

} // verus!
