//! The instruction set: mnemonics, addressing modes, the opcode table and the
//! documented cycle counts.

use vstd::prelude::*;

use crate::cpu::Cpu;

verus! {

/// Where an instruction finds its operand.
#[derive(Clone, Copy, Debug, PartialEq, Eq, Structural)]
pub enum Mode {
    /// no operand
    Implied,
    /// the accumulator is the operand
    Accumulator,
    /// `#$nn`: the byte after the opcode
    Immediate,
    /// `$nn`
    ZeroPage,
    /// `$nn,X` (wraps inside the zero page)
    ZeroPageX,
    /// `$nn,Y` (wraps inside the zero page)
    ZeroPageY,
    /// `$nnnn`
    Absolute,
    /// `$nnnn,X`
    AbsoluteX,
    /// `$nnnn,Y`
    AbsoluteY,
    /// `($nnnn)`: only used by `JMP`
    Indirect,
    /// `($nn,X)`: indexed indirect
    IndirectX,
    /// `($nn),Y`: indirect indexed
    IndirectY,
    /// signed 8-bit branch offset
    Relative,
}

/// The operation an opcode performs.
#[derive(Clone, Copy, Debug, PartialEq, Eq, Structural)]
pub enum Op {
    Lda,
    Ldx,
    Ldy,
    Sta,
    Stx,
    Sty,
    And,
    Ora,
    Eor,
    Bit,
    Adc,
    Sbc,
    Cmp,
    Cpx,
    Cpy,
    Asl,
    Lsr,
    Rol,
    Ror,
    Inc,
    Dec,
    Inx,
    Iny,
    Dex,
    Dey,
    Tax,
    Tay,
    Txa,
    Tya,
    Tsx,
    Txs,
    Pha,
    Pla,
    Php,
    Plp,
    Jmp,
    Jsr,
    Rts,
    Brk,
    Rti,
    Beq,
    Bne,
    Bcs,
    Bcc,
    Bmi,
    Bpl,
    Bvc,
    Bvs,
    Clc,
    Sec,
    Cld,
    Sed,
    Cli,
    Sei,
    Clv,
    Nop,
}

/// A decoded opcode: an operation together with its addressing mode.
#[derive(Clone, Copy, Debug, PartialEq, Eq, Structural)]
pub struct Instruction {
    pub op: Op,
    pub mode: Mode,
}

/// The opcode table of the documented instructions this emulator implements.
/// Every other byte is not an instruction.
pub open spec fn opcode_table(opcode: u8) -> Option<Instruction> {
    match opcode {
        0x00 => Some(Instruction { op: Op::Brk, mode: Mode::Implied }),
        0x01 => Some(Instruction { op: Op::Ora, mode: Mode::IndirectX }),
        0x05 => Some(Instruction { op: Op::Ora, mode: Mode::ZeroPage }),
        0x06 => Some(Instruction { op: Op::Asl, mode: Mode::ZeroPage }),
        0x08 => Some(Instruction { op: Op::Php, mode: Mode::Implied }),
        0x09 => Some(Instruction { op: Op::Ora, mode: Mode::Immediate }),
        0x0A => Some(Instruction { op: Op::Asl, mode: Mode::Accumulator }),
        0x0D => Some(Instruction { op: Op::Ora, mode: Mode::Absolute }),
        0x0E => Some(Instruction { op: Op::Asl, mode: Mode::Absolute }),
        0x10 => Some(Instruction { op: Op::Bpl, mode: Mode::Relative }),
        0x11 => Some(Instruction { op: Op::Ora, mode: Mode::IndirectY }),
        0x15 => Some(Instruction { op: Op::Ora, mode: Mode::ZeroPageX }),
        0x16 => Some(Instruction { op: Op::Asl, mode: Mode::ZeroPageX }),
        0x18 => Some(Instruction { op: Op::Clc, mode: Mode::Implied }),
        0x19 => Some(Instruction { op: Op::Ora, mode: Mode::AbsoluteY }),
        0x1D => Some(Instruction { op: Op::Ora, mode: Mode::AbsoluteX }),
        0x1E => Some(Instruction { op: Op::Asl, mode: Mode::AbsoluteX }),
        0x20 => Some(Instruction { op: Op::Jsr, mode: Mode::Absolute }),
        0x21 => Some(Instruction { op: Op::And, mode: Mode::IndirectX }),
        0x24 => Some(Instruction { op: Op::Bit, mode: Mode::ZeroPage }),
        0x25 => Some(Instruction { op: Op::And, mode: Mode::ZeroPage }),
        0x26 => Some(Instruction { op: Op::Rol, mode: Mode::ZeroPage }),
        0x28 => Some(Instruction { op: Op::Plp, mode: Mode::Implied }),
        0x29 => Some(Instruction { op: Op::And, mode: Mode::Immediate }),
        0x2A => Some(Instruction { op: Op::Rol, mode: Mode::Accumulator }),
        0x2C => Some(Instruction { op: Op::Bit, mode: Mode::Absolute }),
        0x2D => Some(Instruction { op: Op::And, mode: Mode::Absolute }),
        0x2E => Some(Instruction { op: Op::Rol, mode: Mode::Absolute }),
        0x30 => Some(Instruction { op: Op::Bmi, mode: Mode::Relative }),
        0x31 => Some(Instruction { op: Op::And, mode: Mode::IndirectY }),
        0x35 => Some(Instruction { op: Op::And, mode: Mode::ZeroPageX }),
        0x36 => Some(Instruction { op: Op::Rol, mode: Mode::ZeroPageX }),
        0x38 => Some(Instruction { op: Op::Sec, mode: Mode::Implied }),
        0x39 => Some(Instruction { op: Op::And, mode: Mode::AbsoluteY }),
        0x3D => Some(Instruction { op: Op::And, mode: Mode::AbsoluteX }),
        0x3E => Some(Instruction { op: Op::Rol, mode: Mode::AbsoluteX }),
        0x40 => Some(Instruction { op: Op::Rti, mode: Mode::Implied }),
        0x41 => Some(Instruction { op: Op::Eor, mode: Mode::IndirectX }),
        0x45 => Some(Instruction { op: Op::Eor, mode: Mode::ZeroPage }),
        0x46 => Some(Instruction { op: Op::Lsr, mode: Mode::ZeroPage }),
        0x48 => Some(Instruction { op: Op::Pha, mode: Mode::Implied }),
        0x49 => Some(Instruction { op: Op::Eor, mode: Mode::Immediate }),
        0x4A => Some(Instruction { op: Op::Lsr, mode: Mode::Accumulator }),
        0x4C => Some(Instruction { op: Op::Jmp, mode: Mode::Absolute }),
        0x4D => Some(Instruction { op: Op::Eor, mode: Mode::Absolute }),
        0x4E => Some(Instruction { op: Op::Lsr, mode: Mode::Absolute }),
        0x50 => Some(Instruction { op: Op::Bvc, mode: Mode::Relative }),
        0x51 => Some(Instruction { op: Op::Eor, mode: Mode::IndirectY }),
        0x55 => Some(Instruction { op: Op::Eor, mode: Mode::ZeroPageX }),
        0x56 => Some(Instruction { op: Op::Lsr, mode: Mode::ZeroPageX }),
        0x58 => Some(Instruction { op: Op::Cli, mode: Mode::Implied }),
        0x59 => Some(Instruction { op: Op::Eor, mode: Mode::AbsoluteY }),
        0x5D => Some(Instruction { op: Op::Eor, mode: Mode::AbsoluteX }),
        0x5E => Some(Instruction { op: Op::Lsr, mode: Mode::AbsoluteX }),
        0x60 => Some(Instruction { op: Op::Rts, mode: Mode::Implied }),
        0x61 => Some(Instruction { op: Op::Adc, mode: Mode::IndirectX }),
        0x65 => Some(Instruction { op: Op::Adc, mode: Mode::ZeroPage }),
        0x66 => Some(Instruction { op: Op::Ror, mode: Mode::ZeroPage }),
        0x68 => Some(Instruction { op: Op::Pla, mode: Mode::Implied }),
        0x69 => Some(Instruction { op: Op::Adc, mode: Mode::Immediate }),
        0x6A => Some(Instruction { op: Op::Ror, mode: Mode::Accumulator }),
        0x6C => Some(Instruction { op: Op::Jmp, mode: Mode::Indirect }),
        0x6D => Some(Instruction { op: Op::Adc, mode: Mode::Absolute }),
        0x6E => Some(Instruction { op: Op::Ror, mode: Mode::Absolute }),
        0x70 => Some(Instruction { op: Op::Bvs, mode: Mode::Relative }),
        0x71 => Some(Instruction { op: Op::Adc, mode: Mode::IndirectY }),
        0x75 => Some(Instruction { op: Op::Adc, mode: Mode::ZeroPageX }),
        0x76 => Some(Instruction { op: Op::Ror, mode: Mode::ZeroPageX }),
        0x78 => Some(Instruction { op: Op::Sei, mode: Mode::Implied }),
        0x79 => Some(Instruction { op: Op::Adc, mode: Mode::AbsoluteY }),
        0x7D => Some(Instruction { op: Op::Adc, mode: Mode::AbsoluteX }),
        0x7E => Some(Instruction { op: Op::Ror, mode: Mode::AbsoluteX }),
        0x81 => Some(Instruction { op: Op::Sta, mode: Mode::IndirectX }),
        0x84 => Some(Instruction { op: Op::Sty, mode: Mode::ZeroPage }),
        0x85 => Some(Instruction { op: Op::Sta, mode: Mode::ZeroPage }),
        0x86 => Some(Instruction { op: Op::Stx, mode: Mode::ZeroPage }),
        0x88 => Some(Instruction { op: Op::Dey, mode: Mode::Implied }),
        0x8A => Some(Instruction { op: Op::Txa, mode: Mode::Implied }),
        0x8C => Some(Instruction { op: Op::Sty, mode: Mode::Absolute }),
        0x8D => Some(Instruction { op: Op::Sta, mode: Mode::Absolute }),
        0x8E => Some(Instruction { op: Op::Stx, mode: Mode::Absolute }),
        0x90 => Some(Instruction { op: Op::Bcc, mode: Mode::Relative }),
        0x91 => Some(Instruction { op: Op::Sta, mode: Mode::IndirectY }),
        0x94 => Some(Instruction { op: Op::Sty, mode: Mode::ZeroPageX }),
        0x95 => Some(Instruction { op: Op::Sta, mode: Mode::ZeroPageX }),
        0x96 => Some(Instruction { op: Op::Stx, mode: Mode::ZeroPageY }),
        0x98 => Some(Instruction { op: Op::Tya, mode: Mode::Implied }),
        0x99 => Some(Instruction { op: Op::Sta, mode: Mode::AbsoluteY }),
        0x9A => Some(Instruction { op: Op::Txs, mode: Mode::Implied }),
        0x9D => Some(Instruction { op: Op::Sta, mode: Mode::AbsoluteX }),
        0xA0 => Some(Instruction { op: Op::Ldy, mode: Mode::Immediate }),
        0xA1 => Some(Instruction { op: Op::Lda, mode: Mode::IndirectX }),
        0xA2 => Some(Instruction { op: Op::Ldx, mode: Mode::Immediate }),
        0xA4 => Some(Instruction { op: Op::Ldy, mode: Mode::ZeroPage }),
        0xA5 => Some(Instruction { op: Op::Lda, mode: Mode::ZeroPage }),
        0xA6 => Some(Instruction { op: Op::Ldx, mode: Mode::ZeroPage }),
        0xA8 => Some(Instruction { op: Op::Tay, mode: Mode::Implied }),
        0xA9 => Some(Instruction { op: Op::Lda, mode: Mode::Immediate }),
        0xAA => Some(Instruction { op: Op::Tax, mode: Mode::Implied }),
        0xAC => Some(Instruction { op: Op::Ldy, mode: Mode::Absolute }),
        0xAD => Some(Instruction { op: Op::Lda, mode: Mode::Absolute }),
        0xAE => Some(Instruction { op: Op::Ldx, mode: Mode::Absolute }),
        0xB0 => Some(Instruction { op: Op::Bcs, mode: Mode::Relative }),
        0xB1 => Some(Instruction { op: Op::Lda, mode: Mode::IndirectY }),
        0xB4 => Some(Instruction { op: Op::Ldy, mode: Mode::ZeroPageX }),
        0xB5 => Some(Instruction { op: Op::Lda, mode: Mode::ZeroPageX }),
        0xB6 => Some(Instruction { op: Op::Ldx, mode: Mode::ZeroPageY }),
        0xB8 => Some(Instruction { op: Op::Clv, mode: Mode::Implied }),
        0xB9 => Some(Instruction { op: Op::Lda, mode: Mode::AbsoluteY }),
        0xBA => Some(Instruction { op: Op::Tsx, mode: Mode::Implied }),
        0xBC => Some(Instruction { op: Op::Ldy, mode: Mode::AbsoluteX }),
        0xBD => Some(Instruction { op: Op::Lda, mode: Mode::AbsoluteX }),
        0xBE => Some(Instruction { op: Op::Ldx, mode: Mode::AbsoluteY }),
        0xC0 => Some(Instruction { op: Op::Cpy, mode: Mode::Immediate }),
        0xC1 => Some(Instruction { op: Op::Cmp, mode: Mode::IndirectX }),
        0xC4 => Some(Instruction { op: Op::Cpy, mode: Mode::ZeroPage }),
        0xC5 => Some(Instruction { op: Op::Cmp, mode: Mode::ZeroPage }),
        0xC6 => Some(Instruction { op: Op::Dec, mode: Mode::ZeroPage }),
        0xC8 => Some(Instruction { op: Op::Iny, mode: Mode::Implied }),
        0xC9 => Some(Instruction { op: Op::Cmp, mode: Mode::Immediate }),
        0xCA => Some(Instruction { op: Op::Dex, mode: Mode::Implied }),
        0xCC => Some(Instruction { op: Op::Cpy, mode: Mode::Absolute }),
        0xCD => Some(Instruction { op: Op::Cmp, mode: Mode::Absolute }),
        0xCE => Some(Instruction { op: Op::Dec, mode: Mode::Absolute }),
        0xD0 => Some(Instruction { op: Op::Bne, mode: Mode::Relative }),
        0xD1 => Some(Instruction { op: Op::Cmp, mode: Mode::IndirectY }),
        0xD5 => Some(Instruction { op: Op::Cmp, mode: Mode::ZeroPageX }),
        0xD6 => Some(Instruction { op: Op::Dec, mode: Mode::ZeroPageX }),
        0xD8 => Some(Instruction { op: Op::Cld, mode: Mode::Implied }),
        0xD9 => Some(Instruction { op: Op::Cmp, mode: Mode::AbsoluteY }),
        0xDD => Some(Instruction { op: Op::Cmp, mode: Mode::AbsoluteX }),
        0xDE => Some(Instruction { op: Op::Dec, mode: Mode::AbsoluteX }),
        0xE0 => Some(Instruction { op: Op::Cpx, mode: Mode::Immediate }),
        0xE1 => Some(Instruction { op: Op::Sbc, mode: Mode::IndirectX }),
        0xE4 => Some(Instruction { op: Op::Cpx, mode: Mode::ZeroPage }),
        0xE5 => Some(Instruction { op: Op::Sbc, mode: Mode::ZeroPage }),
        0xE6 => Some(Instruction { op: Op::Inc, mode: Mode::ZeroPage }),
        0xE8 => Some(Instruction { op: Op::Inx, mode: Mode::Implied }),
        0xE9 => Some(Instruction { op: Op::Sbc, mode: Mode::Immediate }),
        0xEA => Some(Instruction { op: Op::Nop, mode: Mode::Implied }),
        0xEC => Some(Instruction { op: Op::Cpx, mode: Mode::Absolute }),
        0xED => Some(Instruction { op: Op::Sbc, mode: Mode::Absolute }),
        0xEE => Some(Instruction { op: Op::Inc, mode: Mode::Absolute }),
        0xF0 => Some(Instruction { op: Op::Beq, mode: Mode::Relative }),
        0xF1 => Some(Instruction { op: Op::Sbc, mode: Mode::IndirectY }),
        0xF5 => Some(Instruction { op: Op::Sbc, mode: Mode::ZeroPageX }),
        0xF6 => Some(Instruction { op: Op::Inc, mode: Mode::ZeroPageX }),
        0xF8 => Some(Instruction { op: Op::Sed, mode: Mode::Implied }),
        0xF9 => Some(Instruction { op: Op::Sbc, mode: Mode::AbsoluteY }),
        0xFD => Some(Instruction { op: Op::Sbc, mode: Mode::AbsoluteX }),
        0xFE => Some(Instruction { op: Op::Inc, mode: Mode::AbsoluteX }),
        _ => None,
    }
}

/// Modes that name a memory location computed from the operand bytes.
pub open spec fn is_memory_mode(mode: Mode) -> bool {
    match mode {
        Mode::ZeroPage | Mode::ZeroPageX | Mode::ZeroPageY | Mode::Absolute | Mode::AbsoluteX
        | Mode::AbsoluteY | Mode::IndirectX | Mode::IndirectY => true,
        _ => false,
    }
}

/// Instructions that read one operand byte (immediate or from memory).
pub open spec fn reads_operand(op: Op) -> bool {
    match op {
        Op::Lda | Op::Ldx | Op::Ldy | Op::And | Op::Ora | Op::Eor | Op::Bit | Op::Adc | Op::Sbc
        | Op::Cmp | Op::Cpx | Op::Cpy => true,
        _ => false,
    }
}

/// Instructions that store a register to memory.
pub open spec fn stores_register(op: Op) -> bool {
    match op {
        Op::Sta | Op::Stx | Op::Sty => true,
        _ => false,
    }
}

/// Read-modify-write instructions (shifts, rotates, memory increment and decrement).
pub open spec fn modifies_operand(op: Op) -> bool {
    match op {
        Op::Asl | Op::Lsr | Op::Rol | Op::Ror | Op::Inc | Op::Dec => true,
        _ => false,
    }
}

/// The conditional branches.
pub open spec fn is_branch(op: Op) -> bool {
    match op {
        Op::Beq | Op::Bne | Op::Bcs | Op::Bcc | Op::Bmi | Op::Bpl | Op::Bvc | Op::Bvs => true,
        _ => false,
    }
}

/// The operation/mode pairs that exist on the 6502 (and in the opcode table).
pub open spec fn well_formed(ins: Instruction) -> bool {
    let m = ins.mode;
    match ins.op {
        Op::Lda | Op::And | Op::Ora | Op::Eor | Op::Adc | Op::Sbc | Op::Cmp => m == Mode::Immediate
            || (is_memory_mode(m) && m != Mode::ZeroPageY),
        Op::Ldx => m == Mode::Immediate || m == Mode::ZeroPage || m == Mode::ZeroPageY || m
            == Mode::Absolute || m == Mode::AbsoluteY,
        Op::Ldy => m == Mode::Immediate || m == Mode::ZeroPage || m == Mode::ZeroPageX || m
            == Mode::Absolute || m == Mode::AbsoluteX,
        Op::Bit => m == Mode::ZeroPage || m == Mode::Absolute,
        Op::Cpx | Op::Cpy => m == Mode::Immediate || m == Mode::ZeroPage || m == Mode::Absolute,
        Op::Sta => is_memory_mode(m) && m != Mode::ZeroPageY,
        Op::Stx => m == Mode::ZeroPage || m == Mode::ZeroPageY || m == Mode::Absolute,
        Op::Sty => m == Mode::ZeroPage || m == Mode::ZeroPageX || m == Mode::Absolute,
        Op::Asl | Op::Lsr | Op::Rol | Op::Ror => m == Mode::Accumulator || m == Mode::ZeroPage
            || m == Mode::ZeroPageX || m == Mode::Absolute || m == Mode::AbsoluteX,
        Op::Inc | Op::Dec => m == Mode::ZeroPage || m == Mode::ZeroPageX || m == Mode::Absolute
            || m == Mode::AbsoluteX,
        Op::Jmp => m == Mode::Absolute || m == Mode::Indirect,
        Op::Jsr => m == Mode::Absolute,
        Op::Beq | Op::Bne | Op::Bcs | Op::Bcc | Op::Bmi | Op::Bpl | Op::Bvc | Op::Bvs => m
            == Mode::Relative,
        _ => m == Mode::Implied,
    }
}

/// Decode an opcode byte.
pub fn decode(opcode: u8) -> (r: Option<Instruction>)
    ensures
        r == opcode_table(opcode),
        r matches Some(ins) ==> well_formed(ins),
{
    match opcode {
        c if c == Cpu::INS_LDA_IM => Some(Instruction { op: Op::Lda, mode: Mode::Immediate }),
        c if c == Cpu::INS_LDA_ZP => Some(Instruction { op: Op::Lda, mode: Mode::ZeroPage }),
        c if c == Cpu::INS_LDA_ZPX => Some(Instruction { op: Op::Lda, mode: Mode::ZeroPageX }),
        c if c == Cpu::INS_LDA_ABS => Some(Instruction { op: Op::Lda, mode: Mode::Absolute }),
        c if c == Cpu::INS_LDA_ABSX => Some(Instruction { op: Op::Lda, mode: Mode::AbsoluteX }),
        c if c == Cpu::INS_LDA_ABSY => Some(Instruction { op: Op::Lda, mode: Mode::AbsoluteY }),
        c if c == Cpu::INS_LDA_INDX => Some(Instruction { op: Op::Lda, mode: Mode::IndirectX }),
        c if c == Cpu::INS_LDA_INDY => Some(Instruction { op: Op::Lda, mode: Mode::IndirectY }),
        c if c == Cpu::INS_LDX_IM => Some(Instruction { op: Op::Ldx, mode: Mode::Immediate }),
        c if c == Cpu::INS_LDX_ZP => Some(Instruction { op: Op::Ldx, mode: Mode::ZeroPage }),
        c if c == Cpu::INS_LDX_ZPY => Some(Instruction { op: Op::Ldx, mode: Mode::ZeroPageY }),
        c if c == Cpu::INS_LDX_ABS => Some(Instruction { op: Op::Ldx, mode: Mode::Absolute }),
        c if c == Cpu::INS_LDX_ABSY => Some(Instruction { op: Op::Ldx, mode: Mode::AbsoluteY }),
        c if c == Cpu::INS_LDY_IM => Some(Instruction { op: Op::Ldy, mode: Mode::Immediate }),
        c if c == Cpu::INS_LDY_ZP => Some(Instruction { op: Op::Ldy, mode: Mode::ZeroPage }),
        c if c == Cpu::INS_LDY_ZPX => Some(Instruction { op: Op::Ldy, mode: Mode::ZeroPageX }),
        c if c == Cpu::INS_LDY_ABS => Some(Instruction { op: Op::Ldy, mode: Mode::Absolute }),
        c if c == Cpu::INS_LDY_ABSX => Some(Instruction { op: Op::Ldy, mode: Mode::AbsoluteX }),
        c if c == Cpu::INS_STA_ZP => Some(Instruction { op: Op::Sta, mode: Mode::ZeroPage }),
        c if c == Cpu::INS_STA_ZPX => Some(Instruction { op: Op::Sta, mode: Mode::ZeroPageX }),
        c if c == Cpu::INS_STA_ABS => Some(Instruction { op: Op::Sta, mode: Mode::Absolute }),
        c if c == Cpu::INS_STA_ABSX => Some(Instruction { op: Op::Sta, mode: Mode::AbsoluteX }),
        c if c == Cpu::INS_STA_ABSY => Some(Instruction { op: Op::Sta, mode: Mode::AbsoluteY }),
        c if c == Cpu::INS_STA_INDX => Some(Instruction { op: Op::Sta, mode: Mode::IndirectX }),
        c if c == Cpu::INS_STA_INDY => Some(Instruction { op: Op::Sta, mode: Mode::IndirectY }),
        c if c == Cpu::INS_STX_ZP => Some(Instruction { op: Op::Stx, mode: Mode::ZeroPage }),
        c if c == Cpu::INS_STX_ZPY => Some(Instruction { op: Op::Stx, mode: Mode::ZeroPageY }),
        c if c == Cpu::INS_STX_ABS => Some(Instruction { op: Op::Stx, mode: Mode::Absolute }),
        c if c == Cpu::INS_STY_ZP => Some(Instruction { op: Op::Sty, mode: Mode::ZeroPage }),
        c if c == Cpu::INS_STY_ZPX => Some(Instruction { op: Op::Sty, mode: Mode::ZeroPageX }),
        c if c == Cpu::INS_STY_ABS => Some(Instruction { op: Op::Sty, mode: Mode::Absolute }),
        c if c == Cpu::INS_TSX => Some(Instruction { op: Op::Tsx, mode: Mode::Implied }),
        c if c == Cpu::INS_TXS => Some(Instruction { op: Op::Txs, mode: Mode::Implied }),
        c if c == Cpu::INS_PHA => Some(Instruction { op: Op::Pha, mode: Mode::Implied }),
        c if c == Cpu::INS_PLA => Some(Instruction { op: Op::Pla, mode: Mode::Implied }),
        c if c == Cpu::INS_PHP => Some(Instruction { op: Op::Php, mode: Mode::Implied }),
        c if c == Cpu::INS_PLP => Some(Instruction { op: Op::Plp, mode: Mode::Implied }),
        c if c == Cpu::INS_JMP_ABS => Some(Instruction { op: Op::Jmp, mode: Mode::Absolute }),
        c if c == Cpu::INS_JMP_IND => Some(Instruction { op: Op::Jmp, mode: Mode::Indirect }),
        c if c == Cpu::INS_JSR => Some(Instruction { op: Op::Jsr, mode: Mode::Absolute }),
        c if c == Cpu::INS_RTS => Some(Instruction { op: Op::Rts, mode: Mode::Implied }),
        c if c == Cpu::INS_AND_IM => Some(Instruction { op: Op::And, mode: Mode::Immediate }),
        c if c == Cpu::INS_AND_ZP => Some(Instruction { op: Op::And, mode: Mode::ZeroPage }),
        c if c == Cpu::INS_AND_ZPX => Some(Instruction { op: Op::And, mode: Mode::ZeroPageX }),
        c if c == Cpu::INS_AND_ABS => Some(Instruction { op: Op::And, mode: Mode::Absolute }),
        c if c == Cpu::INS_AND_ABSX => Some(Instruction { op: Op::And, mode: Mode::AbsoluteX }),
        c if c == Cpu::INS_AND_ABSY => Some(Instruction { op: Op::And, mode: Mode::AbsoluteY }),
        c if c == Cpu::INS_AND_INDX => Some(Instruction { op: Op::And, mode: Mode::IndirectX }),
        c if c == Cpu::INS_AND_INDY => Some(Instruction { op: Op::And, mode: Mode::IndirectY }),
        c if c == Cpu::INS_ORA_IM => Some(Instruction { op: Op::Ora, mode: Mode::Immediate }),
        c if c == Cpu::INS_ORA_ZP => Some(Instruction { op: Op::Ora, mode: Mode::ZeroPage }),
        c if c == Cpu::INS_ORA_ZPX => Some(Instruction { op: Op::Ora, mode: Mode::ZeroPageX }),
        c if c == Cpu::INS_ORA_ABS => Some(Instruction { op: Op::Ora, mode: Mode::Absolute }),
        c if c == Cpu::INS_ORA_ABSX => Some(Instruction { op: Op::Ora, mode: Mode::AbsoluteX }),
        c if c == Cpu::INS_ORA_ABSY => Some(Instruction { op: Op::Ora, mode: Mode::AbsoluteY }),
        c if c == Cpu::INS_ORA_INDX => Some(Instruction { op: Op::Ora, mode: Mode::IndirectX }),
        c if c == Cpu::INS_ORA_INDY => Some(Instruction { op: Op::Ora, mode: Mode::IndirectY }),
        c if c == Cpu::INS_EOR_IM => Some(Instruction { op: Op::Eor, mode: Mode::Immediate }),
        c if c == Cpu::INS_EOR_ZP => Some(Instruction { op: Op::Eor, mode: Mode::ZeroPage }),
        c if c == Cpu::INS_EOR_ZPX => Some(Instruction { op: Op::Eor, mode: Mode::ZeroPageX }),
        c if c == Cpu::INS_EOR_ABS => Some(Instruction { op: Op::Eor, mode: Mode::Absolute }),
        c if c == Cpu::INS_EOR_ABSX => Some(Instruction { op: Op::Eor, mode: Mode::AbsoluteX }),
        c if c == Cpu::INS_EOR_ABSY => Some(Instruction { op: Op::Eor, mode: Mode::AbsoluteY }),
        c if c == Cpu::INS_EOR_INDX => Some(Instruction { op: Op::Eor, mode: Mode::IndirectX }),
        c if c == Cpu::INS_EOR_INDY => Some(Instruction { op: Op::Eor, mode: Mode::IndirectY }),
        c if c == Cpu::INS_BIT_ZP => Some(Instruction { op: Op::Bit, mode: Mode::ZeroPage }),
        c if c == Cpu::INS_BIT_ABS => Some(Instruction { op: Op::Bit, mode: Mode::Absolute }),
        c if c == Cpu::INS_TAX => Some(Instruction { op: Op::Tax, mode: Mode::Implied }),
        c if c == Cpu::INS_TAY => Some(Instruction { op: Op::Tay, mode: Mode::Implied }),
        c if c == Cpu::INS_TXA => Some(Instruction { op: Op::Txa, mode: Mode::Implied }),
        c if c == Cpu::INS_TYA => Some(Instruction { op: Op::Tya, mode: Mode::Implied }),
        c if c == Cpu::INS_INX => Some(Instruction { op: Op::Inx, mode: Mode::Implied }),
        c if c == Cpu::INS_INY => Some(Instruction { op: Op::Iny, mode: Mode::Implied }),
        c if c == Cpu::INS_DEY => Some(Instruction { op: Op::Dey, mode: Mode::Implied }),
        c if c == Cpu::INS_DEX => Some(Instruction { op: Op::Dex, mode: Mode::Implied }),
        c if c == Cpu::INS_DEC_ZP => Some(Instruction { op: Op::Dec, mode: Mode::ZeroPage }),
        c if c == Cpu::INS_DEC_ZPX => Some(Instruction { op: Op::Dec, mode: Mode::ZeroPageX }),
        c if c == Cpu::INS_DEC_ABS => Some(Instruction { op: Op::Dec, mode: Mode::Absolute }),
        c if c == Cpu::INS_DEC_ABSX => Some(Instruction { op: Op::Dec, mode: Mode::AbsoluteX }),
        c if c == Cpu::INS_INC_ZP => Some(Instruction { op: Op::Inc, mode: Mode::ZeroPage }),
        c if c == Cpu::INS_INC_ZPX => Some(Instruction { op: Op::Inc, mode: Mode::ZeroPageX }),
        c if c == Cpu::INS_INC_ABS => Some(Instruction { op: Op::Inc, mode: Mode::Absolute }),
        c if c == Cpu::INS_INC_ABSX => Some(Instruction { op: Op::Inc, mode: Mode::AbsoluteX }),
        c if c == Cpu::INS_BEQ => Some(Instruction { op: Op::Beq, mode: Mode::Relative }),
        c if c == Cpu::INS_BNE => Some(Instruction { op: Op::Bne, mode: Mode::Relative }),
        c if c == Cpu::INS_BCS => Some(Instruction { op: Op::Bcs, mode: Mode::Relative }),
        c if c == Cpu::INS_BCC => Some(Instruction { op: Op::Bcc, mode: Mode::Relative }),
        c if c == Cpu::INS_BMI => Some(Instruction { op: Op::Bmi, mode: Mode::Relative }),
        c if c == Cpu::INS_BPL => Some(Instruction { op: Op::Bpl, mode: Mode::Relative }),
        c if c == Cpu::INS_BVC => Some(Instruction { op: Op::Bvc, mode: Mode::Relative }),
        c if c == Cpu::INS_BVS => Some(Instruction { op: Op::Bvs, mode: Mode::Relative }),
        c if c == Cpu::INS_CLC => Some(Instruction { op: Op::Clc, mode: Mode::Implied }),
        c if c == Cpu::INS_SEC => Some(Instruction { op: Op::Sec, mode: Mode::Implied }),
        c if c == Cpu::INS_CLD => Some(Instruction { op: Op::Cld, mode: Mode::Implied }),
        c if c == Cpu::INS_SED => Some(Instruction { op: Op::Sed, mode: Mode::Implied }),
        c if c == Cpu::INS_CLI => Some(Instruction { op: Op::Cli, mode: Mode::Implied }),
        c if c == Cpu::INS_SEI => Some(Instruction { op: Op::Sei, mode: Mode::Implied }),
        c if c == Cpu::INS_CLV => Some(Instruction { op: Op::Clv, mode: Mode::Implied }),
        c if c == Cpu::INS_ADC => Some(Instruction { op: Op::Adc, mode: Mode::Immediate }),
        c if c == Cpu::INS_ADC_ZP => Some(Instruction { op: Op::Adc, mode: Mode::ZeroPage }),
        c if c == Cpu::INS_ADC_ZPX => Some(Instruction { op: Op::Adc, mode: Mode::ZeroPageX }),
        c if c == Cpu::INS_ADC_ABS => Some(Instruction { op: Op::Adc, mode: Mode::Absolute }),
        c if c == Cpu::INS_ADC_ABSX => Some(Instruction { op: Op::Adc, mode: Mode::AbsoluteX }),
        c if c == Cpu::INS_ADC_ABSY => Some(Instruction { op: Op::Adc, mode: Mode::AbsoluteY }),
        c if c == Cpu::INS_ADC_INDX => Some(Instruction { op: Op::Adc, mode: Mode::IndirectX }),
        c if c == Cpu::INS_ADC_INDY => Some(Instruction { op: Op::Adc, mode: Mode::IndirectY }),
        c if c == Cpu::INS_SBC => Some(Instruction { op: Op::Sbc, mode: Mode::Immediate }),
        c if c == Cpu::INS_SBC_ABS => Some(Instruction { op: Op::Sbc, mode: Mode::Absolute }),
        c if c == Cpu::INS_SBC_ZP => Some(Instruction { op: Op::Sbc, mode: Mode::ZeroPage }),
        c if c == Cpu::INS_SBC_ZPX => Some(Instruction { op: Op::Sbc, mode: Mode::ZeroPageX }),
        c if c == Cpu::INS_SBC_ABSX => Some(Instruction { op: Op::Sbc, mode: Mode::AbsoluteX }),
        c if c == Cpu::INS_SBC_ABSY => Some(Instruction { op: Op::Sbc, mode: Mode::AbsoluteY }),
        c if c == Cpu::INS_SBC_INDX => Some(Instruction { op: Op::Sbc, mode: Mode::IndirectX }),
        c if c == Cpu::INS_SBC_INDY => Some(Instruction { op: Op::Sbc, mode: Mode::IndirectY }),
        c if c == Cpu::INS_CMP => Some(Instruction { op: Op::Cmp, mode: Mode::Immediate }),
        c if c == Cpu::INS_CMP_ZP => Some(Instruction { op: Op::Cmp, mode: Mode::ZeroPage }),
        c if c == Cpu::INS_CMP_ZPX => Some(Instruction { op: Op::Cmp, mode: Mode::ZeroPageX }),
        c if c == Cpu::INS_CMP_ABS => Some(Instruction { op: Op::Cmp, mode: Mode::Absolute }),
        c if c == Cpu::INS_CMP_ABSX => Some(Instruction { op: Op::Cmp, mode: Mode::AbsoluteX }),
        c if c == Cpu::INS_CMP_ABSY => Some(Instruction { op: Op::Cmp, mode: Mode::AbsoluteY }),
        c if c == Cpu::INS_CMP_INDX => Some(Instruction { op: Op::Cmp, mode: Mode::IndirectX }),
        c if c == Cpu::INS_CMP_INDY => Some(Instruction { op: Op::Cmp, mode: Mode::IndirectY }),
        c if c == Cpu::INS_CPX => Some(Instruction { op: Op::Cpx, mode: Mode::Immediate }),
        c if c == Cpu::INS_CPY => Some(Instruction { op: Op::Cpy, mode: Mode::Immediate }),
        c if c == Cpu::INS_CPX_ZP => Some(Instruction { op: Op::Cpx, mode: Mode::ZeroPage }),
        c if c == Cpu::INS_CPY_ZP => Some(Instruction { op: Op::Cpy, mode: Mode::ZeroPage }),
        c if c == Cpu::INS_CPX_ABS => Some(Instruction { op: Op::Cpx, mode: Mode::Absolute }),
        c if c == Cpu::INS_CPY_ABS => Some(Instruction { op: Op::Cpy, mode: Mode::Absolute }),
        c if c == Cpu::INS_ASL => Some(Instruction { op: Op::Asl, mode: Mode::Accumulator }),
        c if c == Cpu::INS_ASL_ZP => Some(Instruction { op: Op::Asl, mode: Mode::ZeroPage }),
        c if c == Cpu::INS_ASL_ZPX => Some(Instruction { op: Op::Asl, mode: Mode::ZeroPageX }),
        c if c == Cpu::INS_ASL_ABS => Some(Instruction { op: Op::Asl, mode: Mode::Absolute }),
        c if c == Cpu::INS_ASL_ABSX => Some(Instruction { op: Op::Asl, mode: Mode::AbsoluteX }),
        c if c == Cpu::INS_LSR => Some(Instruction { op: Op::Lsr, mode: Mode::Accumulator }),
        c if c == Cpu::INS_LSR_ZP => Some(Instruction { op: Op::Lsr, mode: Mode::ZeroPage }),
        c if c == Cpu::INS_LSR_ZPX => Some(Instruction { op: Op::Lsr, mode: Mode::ZeroPageX }),
        c if c == Cpu::INS_LSR_ABS => Some(Instruction { op: Op::Lsr, mode: Mode::Absolute }),
        c if c == Cpu::INS_LSR_ABSX => Some(Instruction { op: Op::Lsr, mode: Mode::AbsoluteX }),
        c if c == Cpu::INS_ROL => Some(Instruction { op: Op::Rol, mode: Mode::Accumulator }),
        c if c == Cpu::INS_ROL_ZP => Some(Instruction { op: Op::Rol, mode: Mode::ZeroPage }),
        c if c == Cpu::INS_ROL_ZPX => Some(Instruction { op: Op::Rol, mode: Mode::ZeroPageX }),
        c if c == Cpu::INS_ROL_ABS => Some(Instruction { op: Op::Rol, mode: Mode::Absolute }),
        c if c == Cpu::INS_ROL_ABSX => Some(Instruction { op: Op::Rol, mode: Mode::AbsoluteX }),
        c if c == Cpu::INS_ROR => Some(Instruction { op: Op::Ror, mode: Mode::Accumulator }),
        c if c == Cpu::INS_ROR_ZP => Some(Instruction { op: Op::Ror, mode: Mode::ZeroPage }),
        c if c == Cpu::INS_ROR_ZPX => Some(Instruction { op: Op::Ror, mode: Mode::ZeroPageX }),
        c if c == Cpu::INS_ROR_ABS => Some(Instruction { op: Op::Ror, mode: Mode::Absolute }),
        c if c == Cpu::INS_ROR_ABSX => Some(Instruction { op: Op::Ror, mode: Mode::AbsoluteX }),
        c if c == Cpu::INS_NOP => Some(Instruction { op: Op::Nop, mode: Mode::Implied }),
        c if c == Cpu::INS_BRK => Some(Instruction { op: Op::Brk, mode: Mode::Implied }),
        c if c == Cpu::INS_RTI => Some(Instruction { op: Op::Rti, mode: Mode::Implied }),
        _ => None,
    }
}

} // verus!
