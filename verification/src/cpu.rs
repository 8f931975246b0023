//! The 6502 register file and its public operations.

use vstd::prelude::*;

mod dispatch;

use crate::bits::{lemma_byte_ops, lemma_signed_byte, lemma_status_with_break_bits, lemma_word_ops};
use crate::flags::{StatusFlags, bit_value, cleared_flags, pack_flags};
use crate::isa::{Mode, Op, is_memory_mode};
use crate::mem::{Mem, zeroed_memory};
use crate::model::{
    add_with_carry, byte_at, compare, high_byte, lemma_run_budget, lemma_step_takes_cycles,
    load_bytes, low_byte, modified, operand_address, operand_length, page_crossed, pulled_status,
    pushed_status, run, runs_without_fault, signed_offset, stack_address, with_word,
    with_zero_negative, word_at, wrap16, wrap8,
};

verus! {

/// The 6502 CPU: program counter, stack pointer, the three 8-bit registers
/// and the processor status flags.
#[derive(Clone, Copy, Debug, PartialEq, Eq, Structural)]
pub struct Cpu {
    /// program counter
    pub pc: u16,
    /// stack pointer (offset into page `$01xx`)
    pub sp: u8,
    /// accumulator
    pub a: u8,
    /// X index register
    pub x: u8,
    /// Y index register
    pub y: u8,
    /// processor status
    pub flags: StatusFlags,
}

/// Why the emulator stops instead of executing an instruction.
#[derive(Clone, Copy, Debug, PartialEq, Eq, Structural)]
pub enum ExecError {
    /// The byte at the program counter is not an instruction this emulator implements.
    UnknownOpcode(u8),
    /// `ADC` or `SBC` with the decimal flag set: decimal arithmetic is not implemented.
    DecimalMode,
    /// The number of cycles used does not fit in an `i32`.
    CycleCountOverflow,
}

/// The state after a reset to `reset_vector`: registers zero, stack pointer
/// `$FF`, flags clear.
pub open spec fn reset_state(reset_vector: u16) -> Cpu {
    Cpu { pc: reset_vector, sp: 0xFF, a: 0, x: 0, y: 0, flags: cleared_flags() }
}

impl Cpu {
    // Processor status bits
    pub const NEGATIVE_FLAG_BIT: u8 = 0b1000_0000;
    pub const OVERFLOW_FLAG_BIT: u8 = 0b0100_0000;
    pub const BREAK_FLAG_BIT: u8 = 0b0001_0000;
    pub const UNUSED_FLAG_BIT: u8 = 0b0010_0000;
    pub const INTERRUPT_DISABLE_FLAG_BIT: u8 = 0b0000_0100;
    pub const ZERO_BIT: u8 = 0b0000_0001;

    // opcodes
    //LDA
    pub const INS_LDA_IM: u8 = 0xA9;
    pub const INS_LDA_ZP: u8 = 0xA5;
    pub const INS_LDA_ZPX: u8 = 0xB5;
    pub const INS_LDA_ABS: u8 = 0xAD;
    pub const INS_LDA_ABSX: u8 = 0xBD;
    pub const INS_LDA_ABSY: u8 = 0xB9;
    pub const INS_LDA_INDX: u8 = 0xA1;
    pub const INS_LDA_INDY: u8 = 0xB1;
    //LDX
    pub const INS_LDX_IM: u8 = 0xA2;
    pub const INS_LDX_ZP: u8 = 0xA6;
    pub const INS_LDX_ZPY: u8 = 0xB6;
    pub const INS_LDX_ABS: u8 = 0xAE;
    pub const INS_LDX_ABSY: u8 = 0xBE;
    //LDY
    pub const INS_LDY_IM: u8 = 0xA0;
    pub const INS_LDY_ZP: u8 = 0xA4;
    pub const INS_LDY_ZPX: u8 = 0xB4;
    pub const INS_LDY_ABS: u8 = 0xAC;
    pub const INS_LDY_ABSX: u8 = 0xBC;
    //STA
    pub const INS_STA_ZP: u8 = 0x85;
    pub const INS_STA_ZPX: u8 = 0x95;
    pub const INS_STA_ABS: u8 = 0x8D;
    pub const INS_STA_ABSX: u8 = 0x9D;
    pub const INS_STA_ABSY: u8 = 0x99;
    pub const INS_STA_INDX: u8 = 0x81;
    pub const INS_STA_INDY: u8 = 0x91;
    //STX
    pub const INS_STX_ZP: u8 = 0x86;
    pub const INS_STX_ZPY: u8 = 0x96;
    pub const INS_STX_ABS: u8 = 0x8E;
    //STY
    pub const INS_STY_ZP: u8 = 0x84;
    pub const INS_STY_ZPX: u8 = 0x94;
    pub const INS_STY_ABS: u8 = 0x8C;

    pub const INS_TSX: u8 = 0xBA;
    pub const INS_TXS: u8 = 0x9A;
    pub const INS_PHA: u8 = 0x48;
    pub const INS_PLA: u8 = 0x68;
    pub const INS_PHP: u8 = 0x08;
    pub const INS_PLP: u8 = 0x28;

    pub const INS_JMP_ABS: u8 = 0x4C;
    pub const INS_JMP_IND: u8 = 0x6C;
    pub const INS_JSR: u8 = 0x20;
    pub const INS_RTS: u8 = 0x60;

    //Logical Ops

    //AND
    pub const INS_AND_IM: u8 = 0x29;
    pub const INS_AND_ZP: u8 = 0x25;
    pub const INS_AND_ZPX: u8 = 0x35;
    pub const INS_AND_ABS: u8 = 0x2D;
    pub const INS_AND_ABSX: u8 = 0x3D;
    pub const INS_AND_ABSY: u8 = 0x39;
    pub const INS_AND_INDX: u8 = 0x21;
    pub const INS_AND_INDY: u8 = 0x31;

    //OR
    pub const INS_ORA_IM: u8 = 0x09;
    pub const INS_ORA_ZP: u8 = 0x05;
    pub const INS_ORA_ZPX: u8 = 0x15;
    pub const INS_ORA_ABS: u8 = 0x0D;
    pub const INS_ORA_ABSX: u8 = 0x1D;
    pub const INS_ORA_ABSY: u8 = 0x19;
    pub const INS_ORA_INDX: u8 = 0x01;
    pub const INS_ORA_INDY: u8 = 0x11;

    //EOR
    pub const INS_EOR_IM: u8 = 0x49;
    pub const INS_EOR_ZP: u8 = 0x45;
    pub const INS_EOR_ZPX: u8 = 0x55;
    pub const INS_EOR_ABS: u8 = 0x4D;
    pub const INS_EOR_ABSX: u8 = 0x5D;
    pub const INS_EOR_ABSY: u8 = 0x59;
    pub const INS_EOR_INDX: u8 = 0x41;
    pub const INS_EOR_INDY: u8 = 0x51;

    //BIT
    pub const INS_BIT_ZP: u8 = 0x24;
    pub const INS_BIT_ABS: u8 = 0x2C;

    //Transfer Registers
    pub const INS_TAX: u8 = 0xAA;
    pub const INS_TAY: u8 = 0xA8;
    pub const INS_TXA: u8 = 0x8A;
    pub const INS_TYA: u8 = 0x98;

    //Increments, Decrements
    pub const INS_INX: u8 = 0xE8;
    pub const INS_INY: u8 = 0xC8;
    pub const INS_DEY: u8 = 0x88;
    pub const INS_DEX: u8 = 0xCA;
    pub const INS_DEC_ZP: u8 = 0xC6;
    pub const INS_DEC_ZPX: u8 = 0xD6;
    pub const INS_DEC_ABS: u8 = 0xCE;
    pub const INS_DEC_ABSX: u8 = 0xDE;
    pub const INS_INC_ZP: u8 = 0xE6;
    pub const INS_INC_ZPX: u8 = 0xF6;
    pub const INS_INC_ABS: u8 = 0xEE;
    pub const INS_INC_ABSX: u8 = 0xFE;

    //branches
    pub const INS_BEQ: u8 = 0xF0;
    pub const INS_BNE: u8 = 0xD0;
    pub const INS_BCS: u8 = 0xB0;
    pub const INS_BCC: u8 = 0x90;
    pub const INS_BMI: u8 = 0x30;
    pub const INS_BPL: u8 = 0x10;
    pub const INS_BVC: u8 = 0x50;
    pub const INS_BVS: u8 = 0x70;

    //status flag changes
    pub const INS_CLC: u8 = 0x18;
    pub const INS_SEC: u8 = 0x38;
    pub const INS_CLD: u8 = 0xD8;
    pub const INS_SED: u8 = 0xF8;
    pub const INS_CLI: u8 = 0x58;
    pub const INS_SEI: u8 = 0x78;
    pub const INS_CLV: u8 = 0xB8;

    //Arithmetic
    pub const INS_ADC: u8 = 0x69;
    pub const INS_ADC_ZP: u8 = 0x65;
    pub const INS_ADC_ZPX: u8 = 0x75;
    pub const INS_ADC_ABS: u8 = 0x6D;
    pub const INS_ADC_ABSX: u8 = 0x7D;
    pub const INS_ADC_ABSY: u8 = 0x79;
    pub const INS_ADC_INDX: u8 = 0x61;
    pub const INS_ADC_INDY: u8 = 0x71;

    pub const INS_SBC: u8 = 0xE9;
    pub const INS_SBC_ABS: u8 = 0xED;
    pub const INS_SBC_ZP: u8 = 0xE5;
    pub const INS_SBC_ZPX: u8 = 0xF5;
    pub const INS_SBC_ABSX: u8 = 0xFD;
    pub const INS_SBC_ABSY: u8 = 0xF9;
    pub const INS_SBC_INDX: u8 = 0xE1;
    pub const INS_SBC_INDY: u8 = 0xF1;

    // Register Comparison
    pub const INS_CMP: u8 = 0xC9;
    pub const INS_CMP_ZP: u8 = 0xC5;
    pub const INS_CMP_ZPX: u8 = 0xD5;
    pub const INS_CMP_ABS: u8 = 0xCD;
    pub const INS_CMP_ABSX: u8 = 0xDD;
    pub const INS_CMP_ABSY: u8 = 0xD9;
    pub const INS_CMP_INDX: u8 = 0xC1;
    pub const INS_CMP_INDY: u8 = 0xD1;

    pub const INS_CPX: u8 = 0xE0;
    pub const INS_CPY: u8 = 0xC0;
    pub const INS_CPX_ZP: u8 = 0xE4;
    pub const INS_CPY_ZP: u8 = 0xC4;
    pub const INS_CPX_ABS: u8 = 0xEC;
    pub const INS_CPY_ABS: u8 = 0xCC;

    // shifts
    pub const INS_ASL: u8 = 0x0A;
    pub const INS_ASL_ZP: u8 = 0x06;
    pub const INS_ASL_ZPX: u8 = 0x16;
    pub const INS_ASL_ABS: u8 = 0x0E;
    pub const INS_ASL_ABSX: u8 = 0x1E;

    pub const INS_LSR: u8 = 0x4A;
    pub const INS_LSR_ZP: u8 = 0x46;
    pub const INS_LSR_ZPX: u8 = 0x56;
    pub const INS_LSR_ABS: u8 = 0x4E;
    pub const INS_LSR_ABSX: u8 = 0x5E;

    pub const INS_ROL: u8 = 0x2A;
    pub const INS_ROL_ZP: u8 = 0x26;
    pub const INS_ROL_ZPX: u8 = 0x36;
    pub const INS_ROL_ABS: u8 = 0x2E;
    pub const INS_ROL_ABSX: u8 = 0x3E;

    pub const INS_ROR: u8 = 0x6A;
    pub const INS_ROR_ZP: u8 = 0x66;
    pub const INS_ROR_ZPX: u8 = 0x76;
    pub const INS_ROR_ABS: u8 = 0x6E;
    pub const INS_ROR_ABSX: u8 = 0x7E;

    //misc
    pub const INS_NOP: u8 = 0xEA;
    pub const INS_BRK: u8 = 0x00;
    pub const INS_RTI: u8 = 0x40;
}

impl Cpu {
    /// A CPU with every register, the stack pointer included, zero and all flags clear.
    pub fn new() -> (cpu: Self)
        ensures
            cpu == (Cpu { pc: 0, sp: 0, a: 0, x: 0, y: 0, flags: cleared_flags() }),
    {
        Cpu { pc: 0, sp: 0, a: 0, x: 0, y: 0, flags: StatusFlags::cleared() }
    }

    /// Reset to the reset vector `$FFFC`, clearing memory.
    pub fn reset(&mut self, memory: &mut Mem)
        ensures
            *final(self) == reset_state(0xFFFC),
            final(memory)@ == zeroed_memory(),
    {
        self.reset_at(0xFFFC, memory);
    }

    /// Reset with the program counter at `reset_vector`, clearing memory.
    pub fn reset_at(&mut self, reset_vector: u16, memory: &mut Mem)
        ensures
            *final(self) == reset_state(reset_vector),
            final(memory)@ == zeroed_memory(),
    {
        self.pc = reset_vector;
        self.sp = 0xFF;
        self.flags = StatusFlags::default();
        self.a = 0;
        self.x = 0;
        self.y = 0;
        memory.initialise();
    }

    /// The processor status as a byte.
    pub fn ps(&self) -> (byte: u8)
        ensures
            byte == pack_flags(self.flags),
    {
        self.flags.to_byte()
    }

    fn fetch_byte(&mut self, cycles: &mut i32, memory: &Mem) -> (data: u8)
        requires
            *old(cycles) - 1 >= i32::MIN,
        ensures
            data == byte_at(memory@, old(self).pc),
            *final(self) == (Cpu { pc: wrap16(old(self).pc + 1), ..*old(self) }),
            *final(cycles) == *old(cycles) - 1,
    {
        let data = memory.read(self.pc);
        self.pc = self.pc.wrapping_add(1);
        *cycles -= 1;
        data
    }

    fn fetch_sbyte(&mut self, cycles: &mut i32, memory: &Mem) -> (data: i8)
        requires
            *old(cycles) - 1 >= i32::MIN,
        ensures
            data as int == signed_offset(byte_at(memory@, old(self).pc)),
            *final(self) == (Cpu { pc: wrap16(old(self).pc + 1), ..*old(self) }),
            *final(cycles) == *old(cycles) - 1,
    {
        let byte = self.fetch_byte(cycles, memory);
        proof {
            lemma_signed_byte(byte);
        }
        byte as i8
    }

    fn fetch_word(&mut self, cycles: &mut i32, memory: &Mem) -> (data: u16)
        requires
            *old(cycles) - 2 >= i32::MIN,
        ensures
            data == word_at(memory@, old(self).pc),
            *final(self) == (Cpu { pc: wrap16(old(self).pc + 2), ..*old(self) }),
            *final(cycles) == *old(cycles) - 2,
    {
        // 6502 is little endian
        let lo = memory.read(self.pc) as u16;
        self.pc = self.pc.wrapping_add(1);
        let hi = memory.read(self.pc) as u16;
        self.pc = self.pc.wrapping_add(1);
        proof {
            lemma_word_ops(0, lo, hi, 0);
        }
        let data = lo | (hi << 8);
        *cycles -= 2;
        data
    }

    fn read_byte(&self, cycles: &mut i32, address: u16, memory: &Mem) -> (data: u8)
        requires
            *old(cycles) - 1 >= i32::MIN,
        ensures
            data == byte_at(memory@, address),
            *final(cycles) == *old(cycles) - 1,
    {
        let data = memory.read(address);
        *cycles -= 1;
        data
    }

    fn read_word(&self, cycles: &mut i32, address: u16, memory: &Mem) -> (data: u16)
        requires
            *old(cycles) - 2 >= i32::MIN,
        ensures
            data == word_at(memory@, address),
            *final(cycles) == *old(cycles) - 2,
    {
        let lo_byte = self.read_byte(cycles, address, memory) as u16;
        let hi_byte = self.read_byte(cycles, address.wrapping_add(1), memory) as u16;
        proof {
            lemma_word_ops(0, lo_byte, hi_byte, 0);
        }
        lo_byte | (hi_byte << 8)
    }

    /// write 1 byte to memory
    fn write_byte(&self, value: u8, cycles: &mut i32, address: u16, memory: &mut Mem)
        requires
            *old(cycles) - 1 >= i32::MIN,
        ensures
            final(memory)@ == old(memory)@.update(address as int, value),
            *final(cycles) == *old(cycles) - 1,
    {
        memory.write(address, value);
        *cycles -= 1;
    }

    /// Write a 16-bit value to memory, low byte first (little endian).
    pub fn write_word(&self, value: u16, cycles: &mut i32, address: u16, memory: &mut Mem)
        requires
            *old(cycles) - 2 >= i32::MIN,
        ensures
            final(memory)@ == with_word(old(memory)@, address, value),
            *final(cycles) == *old(cycles) - 2,
    {
        proof {
            lemma_word_ops(value, 0, 0, 0);
        }
        memory.write(address, (value & 0xFF) as u8);
        memory.write(address.wrapping_add(1), (value >> 8) as u8);
        *cycles -= 2;
    }

    /// The stack pointer as a full 16-bit address (in page `$01xx`).
    pub fn sp_to_address(&self) -> (address: u16)
        ensures
            address == stack_address(self.sp),
            0x100 <= address <= 0x1FF,
    {
        proof {
            lemma_word_ops(0, self.sp as u16, 0, 0);
        }
        0x100 | self.sp as u16
    }

    fn push_word_to_stack(&mut self, cycles: &mut i32, memory: &mut Mem, value: u16)
        requires
            *old(cycles) - 2 >= i32::MIN,
        ensures
            final(memory)@ == old(memory)@.update(
                stack_address(old(self).sp) as int,
                high_byte(value),
            ).update(stack_address(wrap8(old(self).sp - 1)) as int, low_byte(value)),
            *final(self) == (Cpu { sp: wrap8(old(self).sp - 2), ..*old(self) }),
            *final(cycles) == *old(cycles) - 2,
    {
        proof {
            lemma_word_ops(value, 0, 0, 0);
        }
        let address = self.sp_to_address();
        self.write_byte((value >> 8) as u8, cycles, address, memory);
        self.sp = self.sp.wrapping_sub(1);
        let address = self.sp_to_address();
        self.write_byte((value & 0xFF) as u8, cycles, address, memory);
        self.sp = self.sp.wrapping_sub(1);
    }

    /// Push the PC-1 onto the stack
    fn push_pc_minus_one_to_stack(&mut self, cycles: &mut i32, memory: &mut Mem)
        requires
            *old(cycles) - 2 >= i32::MIN,
        ensures
            final(memory)@ == old(memory)@.update(
                stack_address(old(self).sp) as int,
                high_byte(wrap16(old(self).pc - 1)),
            ).update(
                stack_address(wrap8(old(self).sp - 1)) as int,
                low_byte(wrap16(old(self).pc - 1)),
            ),
            *final(self) == (Cpu { sp: wrap8(old(self).sp - 2), ..*old(self) }),
            *final(cycles) == *old(cycles) - 2,
    {
        let pc = self.pc;
        self.push_word_to_stack(cycles, memory, pc.wrapping_sub(1));
    }

    /// Push the PC+1 onto the stack
    fn push_pc_plus_one_to_stack(&mut self, cycles: &mut i32, memory: &mut Mem)
        requires
            *old(cycles) - 2 >= i32::MIN,
        ensures
            final(memory)@ == old(memory)@.update(
                stack_address(old(self).sp) as int,
                high_byte(wrap16(old(self).pc + 1)),
            ).update(
                stack_address(wrap8(old(self).sp - 1)) as int,
                low_byte(wrap16(old(self).pc + 1)),
            ),
            *final(self) == (Cpu { sp: wrap8(old(self).sp - 2), ..*old(self) }),
            *final(cycles) == *old(cycles) - 2,
    {
        let pc = self.pc;
        self.push_word_to_stack(cycles, memory, pc.wrapping_add(1));
    }

    fn push_byte_onto_stack(&mut self, cycles: &mut i32, value: u8, memory: &mut Mem)
        requires
            *old(cycles) - 2 >= i32::MIN,
        ensures
            final(memory)@ == old(memory)@.update(stack_address(old(self).sp) as int, value),
            *final(self) == (Cpu { sp: wrap8(old(self).sp - 1), ..*old(self) }),
            *final(cycles) == *old(cycles) - 2,
    {
        let sp_word = self.sp_to_address();
        memory.write(sp_word, value);
        *cycles -= 1;
        self.sp = self.sp.wrapping_sub(1);
        *cycles -= 1;
    }

    fn pop_byte_from_stack(&mut self, cycles: &mut i32, memory: &Mem) -> (value: u8)
        requires
            *old(cycles) - 2 >= i32::MIN,
        ensures
            value == byte_at(memory@, stack_address(wrap8(old(self).sp + 1))),
            *final(self) == (Cpu { sp: wrap8(old(self).sp + 1), ..*old(self) }),
            *final(cycles) == *old(cycles) - 2,
    {
        self.sp = self.sp.wrapping_add(1);
        *cycles -= 1;
        let sp_word = self.sp_to_address();
        let value = memory.read(sp_word);
        *cycles -= 1;
        value
    }

    /// Pop a 16-bit value from the stack
    fn pop_word_from_stack(&mut self, cycles: &mut i32, memory: &Mem) -> (value: u16)
        requires
            *old(cycles) - 3 >= i32::MIN,
        ensures
            value == word_at(memory@, (stack_address(old(self).sp) + 1) as u16),
            *final(self) == (Cpu { sp: wrap8(old(self).sp + 2), ..*old(self) }),
            *final(cycles) == *old(cycles) - 3,
    {
        let address = self.sp_to_address().wrapping_add(1);
        let value_from_stack = self.read_word(cycles, address, memory);
        self.sp = self.sp.wrapping_add(2);
        *cycles -= 1;
        value_from_stack
    }
}

/// The register a load instruction writes.
#[derive(Clone, Copy)]
enum Reg {
    A,
    X,
    Y,
}

impl Cpu {
    /// Sets Z and N after a value has been moved into a register.
    fn set_zero_and_negative_flags(&mut self, register: u8)
        ensures
            *final(self) == (Cpu {
                flags: with_zero_negative(old(self).flags, register),
                ..*old(self)
            }),
    {
        proof {
            lemma_byte_ops(register, 0);
        }
        self.flags.z = register == 0;
        self.flags.n = register & Self::NEGATIVE_FLAG_BIT > 0;
    }

    /// Load a register with the value at `address`.
    fn load_register(&mut self, cycles: &mut i32, address: u16, reg: Reg, memory: &Mem)
        requires
            *old(cycles) - 1 >= i32::MIN,
        ensures
            ({
                let v = byte_at(memory@, address);
                let f = with_zero_negative(old(self).flags, v);
                *final(self) == match reg {
                    Reg::A => Cpu { a: v, flags: f, ..*old(self) },
                    Reg::X => Cpu { x: v, flags: f, ..*old(self) },
                    Reg::Y => Cpu { y: v, flags: f, ..*old(self) },
                }
            }),
            *final(cycles) == *old(cycles) - 1,
    {
        let value = self.read_byte(cycles, address, memory);
        match reg {
            Reg::A => self.a = value,
            Reg::X => self.x = value,
            Reg::Y => self.y = value,
        }
        self.set_zero_and_negative_flags(value);
    }

    /// AND the accumulator with the value at `address`.
    fn and(&mut self, cycles: &mut i32, address: u16, memory: &Mem)
        requires
            *old(cycles) - 1 >= i32::MIN,
        ensures
            ({
                let r = old(self).a & byte_at(memory@, address);
                *final(self) == (Cpu {
                    a: r,
                    flags: with_zero_negative(old(self).flags, r),
                    ..*old(self)
                })
            }),
            *final(cycles) == *old(cycles) - 1,
    {
        let v = self.read_byte(cycles, address, memory);
        self.a = self.a & v;
        self.set_zero_and_negative_flags(self.a);
    }

    /// OR the accumulator with the value at `address`.
    fn ora(&mut self, cycles: &mut i32, address: u16, memory: &Mem)
        requires
            *old(cycles) - 1 >= i32::MIN,
        ensures
            ({
                let r = old(self).a | byte_at(memory@, address);
                *final(self) == (Cpu {
                    a: r,
                    flags: with_zero_negative(old(self).flags, r),
                    ..*old(self)
                })
            }),
            *final(cycles) == *old(cycles) - 1,
    {
        let v = self.read_byte(cycles, address, memory);
        self.a = self.a | v;
        self.set_zero_and_negative_flags(self.a);
    }

    /// Exclusive-OR the accumulator with the value at `address`.
    fn eor(&mut self, cycles: &mut i32, address: u16, memory: &Mem)
        requires
            *old(cycles) - 1 >= i32::MIN,
        ensures
            ({
                let r = old(self).a ^ byte_at(memory@, address);
                *final(self) == (Cpu {
                    a: r,
                    flags: with_zero_negative(old(self).flags, r),
                    ..*old(self)
                })
            }),
            *final(cycles) == *old(cycles) - 1,
    {
        let v = self.read_byte(cycles, address, memory);
        self.a = self.a ^ v;
        self.set_zero_and_negative_flags(self.a);
    }

    /// Conditional branch: read the signed offset and, when `test == expected`,
    /// move the program counter by it (one more cycle, and one more again when
    /// the target lies on another page).
    fn branch_if(&mut self, cycles: &mut i32, test: bool, expected: bool, memory: &Mem)
        requires
            *old(cycles) - 3 >= i32::MIN,
        ensures
            ({
                let next = wrap16(old(self).pc + 1);
                let target = wrap16(next + signed_offset(byte_at(memory@, old(self).pc)));
                if test == expected {
                    &&& *final(self) == (Cpu { pc: target, ..*old(self) })
                    &&& *final(cycles) == *old(cycles) - 2 - if high_byte(target) != high_byte(
                        next,
                    ) {
                        1int
                    } else {
                        0int
                    }
                } else {
                    &&& *final(self) == (Cpu { pc: next, ..*old(self) })
                    &&& *final(cycles) == *old(cycles) - 1
                }
            }),
    {
        let offset = self.fetch_sbyte(cycles, memory);
        if test == expected {
            let pc_old = self.pc;
            self.pc = self.pc.wrapping_add_signed(offset as i16);
            *cycles -= 1;
            proof {
                lemma_word_ops(self.pc, 0, 0, 0);
                lemma_word_ops(pc_old, 0, 0, 0);
            }
            let page_changed = (self.pc >> 8) != (pc_old >> 8);
            if page_changed {
                *cycles -= 1;
            }
        }
    }

    /// Binary add with carry of `operand` to the accumulator.
    fn adc(&mut self, operand: u8)
        requires
            !old(self).flags.d,
        ensures
            ({
                let (r, f) = add_with_carry(old(self).flags, old(self).a, operand);
                *final(self) == (Cpu { a: r, flags: f, ..*old(self) })
            }),
    {
        let a = self.a;
        proof {
            lemma_byte_ops(a, operand);
        }
        let are_sign_bits_the_same = (self.a ^ operand) & Self::NEGATIVE_FLAG_BIT == 0;
        let mut sum: u16 = self.a as u16;
        sum += operand as u16;
        sum += self.flags.c as u16;
        proof {
            lemma_word_ops(sum, 0, 0, 0);
        }
        self.a = (sum & 0xFF) as u8;
        self.set_zero_and_negative_flags(self.a);
        self.flags.c = sum > 0xFF;
        let r = self.a;
        proof {
            lemma_byte_ops(r, operand);
        }
        self.flags.v = are_sign_bits_the_same && (self.a ^ operand) & Self::NEGATIVE_FLAG_BIT != 0;
    }

    /// Binary subtract with borrow: add the one's complement of `operand`.
    fn sbc(&mut self, operand: u8)
        requires
            !old(self).flags.d,
        ensures
            ({
                let (r, f) = add_with_carry(old(self).flags, old(self).a, (255 - operand) as u8);
                *final(self) == (Cpu { a: r, flags: f, ..*old(self) })
            }),
    {
        proof {
            lemma_byte_ops(operand, 0);
        }
        self.adc(!operand);
    }

    /// Sets the flags for a CMP/CPX/CPY of `register_value` against `operand`.
    fn register_compare(&mut self, operand: u8, register_value: u8)
        ensures
            *final(self) == (Cpu {
                flags: compare(old(self).flags, register_value, operand),
                ..*old(self)
            }),
    {
        let temp = register_value.wrapping_sub(operand);
        proof {
            lemma_byte_ops(temp, 0);
        }
        self.flags.n = temp & Self::NEGATIVE_FLAG_BIT > 0;
        self.flags.z = register_value == operand;
        self.flags.c = register_value >= operand;
    }

    /// Arithmetic shift left
    fn asl(&mut self, cycles: &mut i32, operand: u8) -> (result: u8)
        requires
            *old(cycles) - 1 >= i32::MIN,
        ensures
            ({
                let (r, carry) = modified(Op::Asl, operand, old(self).flags.c);
                &&& result == r
                &&& *final(self) == (Cpu {
                    flags: with_zero_negative(StatusFlags { c: carry, ..old(self).flags }, r),
                    ..*old(self)
                })
            }),
            *final(cycles) == *old(cycles) - 1,
    {
        proof {
            lemma_byte_ops(operand, 0);
        }
        self.flags.c = operand & Self::NEGATIVE_FLAG_BIT > 0;
        let result = operand << 1;
        self.set_zero_and_negative_flags(result);
        *cycles -= 1;
        result
    }

    /// Logical shift right
    fn lsr(&mut self, cycles: &mut i32, operand: u8) -> (result: u8)
        requires
            *old(cycles) - 1 >= i32::MIN,
        ensures
            ({
                let (r, carry) = modified(Op::Lsr, operand, old(self).flags.c);
                &&& result == r
                &&& *final(self) == (Cpu {
                    flags: with_zero_negative(StatusFlags { c: carry, ..old(self).flags }, r),
                    ..*old(self)
                })
            }),
            *final(cycles) == *old(cycles) - 1,
    {
        proof {
            lemma_byte_ops(operand, 0);
        }
        self.flags.c = operand & Self::ZERO_BIT > 0;
        let result = operand >> 1;
        self.set_zero_and_negative_flags(result);
        *cycles -= 1;
        result
    }

    /// Rotate left through the carry
    fn rol(&mut self, cycles: &mut i32, operand: u8) -> (result: u8)
        requires
            *old(cycles) - 1 >= i32::MIN,
        ensures
            ({
                let (r, carry) = modified(Op::Rol, operand, old(self).flags.c);
                &&& result == r
                &&& *final(self) == (Cpu {
                    flags: with_zero_negative(StatusFlags { c: carry, ..old(self).flags }, r),
                    ..*old(self)
                })
            }),
            *final(cycles) == *old(cycles) - 1,
    {
        proof {
            lemma_byte_ops(operand, 0);
        }
        let new_bit0 = if self.flags.c {
            Self::ZERO_BIT
        } else {
            0
        };
        self.flags.c = operand & Self::NEGATIVE_FLAG_BIT > 0;
        let mut result = operand << 1;
        assert(result | 0 == result) by (bit_vector);
        result = result | new_bit0;
        self.set_zero_and_negative_flags(result);
        *cycles -= 1;
        result
    }

    /// Rotate right through the carry
    fn ror(&mut self, cycles: &mut i32, operand: u8) -> (result: u8)
        requires
            *old(cycles) - 1 >= i32::MIN,
        ensures
            ({
                let (r, carry) = modified(Op::Ror, operand, old(self).flags.c);
                &&& result == r
                &&& *final(self) == (Cpu {
                    flags: with_zero_negative(StatusFlags { c: carry, ..old(self).flags }, r),
                    ..*old(self)
                })
            }),
            *final(cycles) == *old(cycles) - 1,
    {
        proof {
            lemma_byte_ops(operand, 0);
        }
        let old_bit0 = operand & Self::ZERO_BIT > 0;
        let mut result = operand >> 1;
        if self.flags.c {
            result = result | Self::NEGATIVE_FLAG_BIT;
        }
        *cycles -= 1;
        self.flags.c = old_bit0;
        self.set_zero_and_negative_flags(result);
        result
    }

    /// Push the processor status with bits 4 and 5 (break, unused) set.
    fn push_ps_to_stack(&mut self, cycles: &mut i32, memory: &mut Mem)
        requires
            *old(cycles) - 2 >= i32::MIN,
        ensures
            final(memory)@ == old(memory)@.update(
                stack_address(old(self).sp) as int,
                pushed_status(old(self).flags),
            ),
            *final(self) == (Cpu { sp: wrap8(old(self).sp - 1), ..*old(self) }),
            *final(cycles) == *old(cycles) - 2,
    {
        let f = self.flags;
        proof {
            lemma_status_with_break_bits(
                bit_value(f.c) as u8,
                bit_value(f.z) as u8,
                bit_value(f.i) as u8,
                bit_value(f.d) as u8,
                bit_value(f.b) as u8,
                bit_value(f.unused) as u8,
                bit_value(f.v) as u8,
                bit_value(f.n) as u8,
            );
        }
        let ps_stack = self.ps() | Self::BREAK_FLAG_BIT | Self::UNUSED_FLAG_BIT;
        self.push_byte_onto_stack(cycles, ps_stack, memory);
    }

    /// Pull the processor status, reading bits 4 and 5 (break, unused) as clear.
    fn pop_ps_from_stack(&mut self, cycles: &mut i32, memory: &Mem)
        requires
            *old(cycles) - 2 >= i32::MIN,
        ensures
            *final(self) == (Cpu {
                sp: wrap8(old(self).sp + 1),
                flags: pulled_status(byte_at(memory@, stack_address(wrap8(old(self).sp + 1)))),
                ..*old(self)
            }),
            *final(cycles) == *old(cycles) - 2,
    {
        let ps = self.pop_byte_from_stack(cycles, memory);
        self.flags = StatusFlags::from_byte(ps);
        self.flags.b = false;
        self.flags.unused = false;
    }
}

/// Cycles an addressing mode spends computing its address (operand fetches,
/// index addition, indirection), the page-crossing penalty included.
pub open spec fn addressing_cycles(mode: Mode, crossed: bool) -> int {
    match mode {
        Mode::ZeroPage => 1,
        Mode::ZeroPageX | Mode::ZeroPageY | Mode::Absolute => 2,
        Mode::AbsoluteX | Mode::AbsoluteY => 2 + if crossed {
            1int
        } else {
            0int
        },
        Mode::IndirectX => 4,
        Mode::IndirectY => 3 + if crossed {
            1int
        } else {
            0int
        },
        _ => 0,
    }
}

/// The same for stores and read-modify-write instructions, whose indexed
/// modes always spend the page-crossing cycle.
pub open spec fn addressing_cycles_for_write(mode: Mode) -> int {
    match mode {
        Mode::AbsoluteX | Mode::AbsoluteY => 3,
        Mode::IndirectY => 4,
        _ => addressing_cycles(mode, false),
    }
}

impl Cpu {
    /// Addressing mode - Zero page
    fn addr_zero_page(&mut self, cycles: &mut i32, memory: &Mem) -> (address: u16)
        requires
            *old(cycles) - 1 >= i32::MIN,
        ensures
            address == operand_address(
                Mode::ZeroPage,
                memory@,
                old(self).pc,
                old(self).x,
                old(self).y,
            ),
            *final(self) == (Cpu { pc: wrap16(old(self).pc + 1), ..*old(self) }),
            *final(cycles) == *old(cycles) - 1,
    {
        self.fetch_byte(cycles, memory) as u16
    }

    /// Addressing mode - Zero page with X offset (wraps inside the zero page)
    fn addr_zero_page_x(&mut self, cycles: &mut i32, memory: &Mem) -> (address: u16)
        requires
            *old(cycles) - 2 >= i32::MIN,
        ensures
            address == operand_address(
                Mode::ZeroPageX,
                memory@,
                old(self).pc,
                old(self).x,
                old(self).y,
            ),
            *final(self) == (Cpu { pc: wrap16(old(self).pc + 1), ..*old(self) }),
            *final(cycles) == *old(cycles) - 2,
    {
        let zero_page_addr = self.fetch_byte(cycles, memory);
        let zero_page_addr = zero_page_addr.wrapping_add(self.x);
        *cycles -= 1;
        zero_page_addr as u16
    }

    /// Addressing mode - Zero page with Y offset (wraps inside the zero page)
    fn addr_zero_page_y(&mut self, cycles: &mut i32, memory: &Mem) -> (address: u16)
        requires
            *old(cycles) - 2 >= i32::MIN,
        ensures
            address == operand_address(
                Mode::ZeroPageY,
                memory@,
                old(self).pc,
                old(self).x,
                old(self).y,
            ),
            *final(self) == (Cpu { pc: wrap16(old(self).pc + 1), ..*old(self) }),
            *final(cycles) == *old(cycles) - 2,
    {
        let zero_page_addr = self.fetch_byte(cycles, memory);
        let zero_page_addr = zero_page_addr.wrapping_add(self.y);
        *cycles -= 1;
        zero_page_addr as u16
    }

    /// Addressing mode - Absolute
    fn addr_absolute(&mut self, cycles: &mut i32, memory: &Mem) -> (address: u16)
        requires
            *old(cycles) - 2 >= i32::MIN,
        ensures
            address == operand_address(
                Mode::Absolute,
                memory@,
                old(self).pc,
                old(self).x,
                old(self).y,
            ),
            *final(self) == (Cpu { pc: wrap16(old(self).pc + 2), ..*old(self) }),
            *final(cycles) == *old(cycles) - 2,
    {
        self.fetch_word(cycles, memory)
    }

    /// Addressing mode - Absolute with X offset (one more cycle when a page is crossed)
    fn addr_absolute_x(&mut self, cycles: &mut i32, memory: &Mem) -> (address: u16)
        requires
            *old(cycles) - 3 >= i32::MIN,
        ensures
            address == operand_address(
                Mode::AbsoluteX,
                memory@,
                old(self).pc,
                old(self).x,
                old(self).y,
            ),
            *final(self) == (Cpu { pc: wrap16(old(self).pc + 2), ..*old(self) }),
            *final(cycles) == *old(cycles) - addressing_cycles(
                Mode::AbsoluteX,
                page_crossed(Mode::AbsoluteX, memory@, old(self).pc, old(self).x, old(self).y),
            ),
    {
        let abs_address = self.fetch_word(cycles, memory);
        let abs_address_x = abs_address.wrapping_add(self.x as u16);
        proof {
            lemma_word_ops(abs_address, 0, 0, abs_address_x);
        }
        let crossed_page_boundary = (abs_address ^ abs_address_x) >> 8 != 0;
        if crossed_page_boundary {
            *cycles -= 1;
        }
        abs_address_x
    }

    /// Addressing mode - Absolute with X offset, always spending the extra
    /// cycle (stores and read-modify-write instructions)
    fn addr_absolute_x_5(&mut self, cycles: &mut i32, memory: &Mem) -> (address: u16)
        requires
            *old(cycles) - 3 >= i32::MIN,
        ensures
            address == operand_address(
                Mode::AbsoluteX,
                memory@,
                old(self).pc,
                old(self).x,
                old(self).y,
            ),
            *final(self) == (Cpu { pc: wrap16(old(self).pc + 2), ..*old(self) }),
            *final(cycles) == *old(cycles) - 3,
    {
        let abs_address = self.fetch_word(cycles, memory);
        let abs_address_x = abs_address.wrapping_add(self.x as u16);
        *cycles -= 1;
        abs_address_x
    }

    /// Addressing mode - Absolute with Y offset (one more cycle when a page is crossed)
    fn addr_absolute_y(&mut self, cycles: &mut i32, memory: &Mem) -> (address: u16)
        requires
            *old(cycles) - 3 >= i32::MIN,
        ensures
            address == operand_address(
                Mode::AbsoluteY,
                memory@,
                old(self).pc,
                old(self).x,
                old(self).y,
            ),
            *final(self) == (Cpu { pc: wrap16(old(self).pc + 2), ..*old(self) }),
            *final(cycles) == *old(cycles) - addressing_cycles(
                Mode::AbsoluteY,
                page_crossed(Mode::AbsoluteY, memory@, old(self).pc, old(self).x, old(self).y),
            ),
    {
        let abs_address = self.fetch_word(cycles, memory);
        let abs_address_y = abs_address.wrapping_add(self.y as u16);
        proof {
            lemma_word_ops(abs_address, 0, 0, abs_address_y);
        }
        let crossed_page_boundary = (abs_address ^ abs_address_y) >> 8 != 0;
        if crossed_page_boundary {
            *cycles -= 1;
        }
        abs_address_y
    }

    /// Addressing mode - Absolute with Y offset, always spending the extra
    /// cycle (stores)
    fn addr_absolute_y_5(&mut self, cycles: &mut i32, memory: &Mem) -> (address: u16)
        requires
            *old(cycles) - 3 >= i32::MIN,
        ensures
            address == operand_address(
                Mode::AbsoluteY,
                memory@,
                old(self).pc,
                old(self).x,
                old(self).y,
            ),
            *final(self) == (Cpu { pc: wrap16(old(self).pc + 2), ..*old(self) }),
            *final(cycles) == *old(cycles) - 3,
    {
        let abs_address = self.fetch_word(cycles, memory);
        let abs_address_y = abs_address.wrapping_add(self.y as u16);
        *cycles -= 1;
        abs_address_y
    }

    /// Addressing mode - Indirect X | Indexed Indirect
    fn addr_indirect_x(&mut self, cycles: &mut i32, memory: &Mem) -> (address: u16)
        requires
            *old(cycles) - 4 >= i32::MIN,
        ensures
            address == operand_address(
                Mode::IndirectX,
                memory@,
                old(self).pc,
                old(self).x,
                old(self).y,
            ),
            *final(self) == (Cpu { pc: wrap16(old(self).pc + 1), ..*old(self) }),
            *final(cycles) == *old(cycles) - 4,
    {
        let zp_address = self.fetch_byte(cycles, memory);
        let zp_address = zp_address.wrapping_add(self.x);
        *cycles -= 1;
        self.read_word(cycles, zp_address as u16, memory)
    }

    /// Addressing mode - Indirect Y | Indirect Indexed (one more cycle when a
    /// page is crossed)
    fn addr_indirect_y(&mut self, cycles: &mut i32, memory: &Mem) -> (address: u16)
        requires
            *old(cycles) - 4 >= i32::MIN,
        ensures
            address == operand_address(
                Mode::IndirectY,
                memory@,
                old(self).pc,
                old(self).x,
                old(self).y,
            ),
            *final(self) == (Cpu { pc: wrap16(old(self).pc + 1), ..*old(self) }),
            *final(cycles) == *old(cycles) - addressing_cycles(
                Mode::IndirectY,
                page_crossed(Mode::IndirectY, memory@, old(self).pc, old(self).x, old(self).y),
            ),
    {
        let zp_address = self.fetch_byte(cycles, memory);
        let effective_addr = self.read_word(cycles, zp_address as u16, memory);
        let effective_addr_y = effective_addr.wrapping_add(self.y as u16);
        proof {
            lemma_word_ops(effective_addr, 0, 0, effective_addr_y);
        }
        let crossed_page_boundary = (effective_addr ^ effective_addr_y) >> 8 != 0;
        if crossed_page_boundary {
            *cycles -= 1;
        }
        effective_addr_y
    }

    /// Addressing mode - Indirect Y | Indirect Indexed, always spending the
    /// extra cycle (stores)
    fn addr_indirect_y_6(&mut self, cycles: &mut i32, memory: &Mem) -> (address: u16)
        requires
            *old(cycles) - 4 >= i32::MIN,
        ensures
            address == operand_address(
                Mode::IndirectY,
                memory@,
                old(self).pc,
                old(self).x,
                old(self).y,
            ),
            *final(self) == (Cpu { pc: wrap16(old(self).pc + 1), ..*old(self) }),
            *final(cycles) == *old(cycles) - 4,
    {
        let zp_address = self.fetch_byte(cycles, memory);
        let effective_addr = self.read_word(cycles, zp_address as u16, memory);
        let effective_addr_y = effective_addr.wrapping_add(self.y as u16);
        *cycles -= 1;
        effective_addr_y
    }

    /// The address of a memory operand, computed by the instruction's addressing mode.
    fn fetch_operand_address(&mut self, cycles: &mut i32, memory: &Mem, mode: Mode) -> (address:
        u16)
        requires
            is_memory_mode(mode),
            *old(cycles) - 4 >= i32::MIN,
        ensures
            address == operand_address(mode, memory@, old(self).pc, old(self).x, old(self).y),
            *final(self) == (Cpu {
                pc: wrap16(old(self).pc + operand_length(mode)),
                ..*old(self)
            }),
            *final(cycles) == *old(cycles) - addressing_cycles(
                mode,
                page_crossed(mode, memory@, old(self).pc, old(self).x, old(self).y),
            ),
    {
        match mode {
            Mode::ZeroPage => self.addr_zero_page(cycles, memory),
            Mode::ZeroPageX => self.addr_zero_page_x(cycles, memory),
            Mode::ZeroPageY => self.addr_zero_page_y(cycles, memory),
            Mode::Absolute => self.addr_absolute(cycles, memory),
            Mode::AbsoluteX => self.addr_absolute_x(cycles, memory),
            Mode::AbsoluteY => self.addr_absolute_y(cycles, memory),
            Mode::IndirectX => self.addr_indirect_x(cycles, memory),
            _ => self.addr_indirect_y(cycles, memory),
        }
    }

    /// The address a store or read-modify-write instruction writes to.
    fn fetch_target_address(&mut self, cycles: &mut i32, memory: &Mem, mode: Mode) -> (address:
        u16)
        requires
            is_memory_mode(mode),
            *old(cycles) - 4 >= i32::MIN,
        ensures
            address == operand_address(mode, memory@, old(self).pc, old(self).x, old(self).y),
            *final(self) == (Cpu {
                pc: wrap16(old(self).pc + operand_length(mode)),
                ..*old(self)
            }),
            *final(cycles) == *old(cycles) - addressing_cycles_for_write(mode),
    {
        match mode {
            Mode::AbsoluteX => self.addr_absolute_x_5(cycles, memory),
            Mode::AbsoluteY => self.addr_absolute_y_5(cycles, memory),
            Mode::IndirectY => self.addr_indirect_y_6(cycles, memory),
            _ => self.fetch_operand_address(cycles, memory, mode),
        }
    }
}

impl Cpu {
    /// Copy a program image into memory. The first two bytes are the
    /// little-endian load address; the remaining bytes are stored from there on.
    /// Returns the load address, or 0 (loading nothing) when the image has no
    /// byte after the address.
    pub fn load_prg(&self, program: &[u8], memory: &mut Mem) -> (load_address: u16)
        ensures
            program.len() > 2 ==> {
                &&& load_address == program[0] + 256 * program[1]
                &&& final(memory)@ == load_bytes(
                    old(memory)@,
                    load_address,
                    program@.subrange(2, program.len() as int),
                )
            },
            program.len() <= 2 ==> load_address == 0 && final(memory)@ == old(memory)@,
    {
        let mut load_address: u16 = 0;
        if program.len() > 2 {
            let lo = program[0] as u16;
            let hi = (program[1] as u16) << 8;
            proof {
                lemma_word_ops(0, lo, program[1] as u16, 0);
            }
            load_address = lo | hi;
            let mut at = load_address;
            let mut i: usize = 2;
            let ghost m0 = memory@;
            while i < program.len()
                invariant
                    2 <= i <= program.len(),
                    at == wrap16(load_address + (i - 2)),
                    memory@ == load_bytes(m0, load_address, program@.subrange(2, i as int)),
                decreases program.len() - i,
            {
                let byte = program[i];
                memory.write(at, byte);
                proof {
                    assert(program@.subrange(2, i + 1).drop_last() =~= program@.subrange(
                        2,
                        i as int,
                    ));
                }
                at = at.wrapping_add(1);
                i = i + 1;
            }
        }
        load_address
    }

    /// Execute instructions while the cycle budget is positive. Returns the
    /// cycles used (at least the budget, since the last instruction may
    /// overshoot it), or why the emulator stopped: an opcode it does not
    /// implement or `ADC`/`SBC` in decimal mode, met at the program counter
    /// that is left pointing at it.
    pub fn try_execute(&mut self, cycles: i32, memory: &mut Mem) -> (r: Result<i32, ExecError>)
        ensures
            ({
                let (c, m, rest, fault) = run(*old(self), old(memory)@, cycles as int);
                &&& *final(self) == c
                &&& final(memory)@ == m
                &&& r == match fault {
                    Some(e) => Err(e),
                    None => if cycles - rest <= i32::MAX {
                        Ok((cycles - rest) as i32)
                    } else {
                        Err(ExecError::CycleCountOverflow)
                    },
                }
            }),
    {
        let mut remaining = cycles;
        let ghost c0 = *self;
        let ghost m0 = memory@;
        while remaining > 0
            invariant
                c0 == *old(self),
                m0 == old(memory)@,
                run(*self, memory@, remaining as int) == run(c0, m0, cycles as int),
                remaining >= -6 || remaining == cycles,
            decreases if remaining > 0 {
                remaining as int
            } else {
                0
            },
        {
            proof {
                lemma_step_takes_cycles(*self, memory@);
            }
            let ghost before = *self;
            let ghost m_before = memory@;
            match self.step(&mut remaining, memory) {
                Ok(()) => {},
                Err(e) => {
                    assert(crate::model::step(before, m_before) == Err::<
                        (Cpu, Seq<u8>, nat),
                        ExecError,
                    >(e));
                    assert(run(*self, memory@, remaining as int) == (
                        *self,
                        memory@,
                        remaining as int,
                        Some(e),
                    ));
                    return Err(e);
                },
            }
        }
        proof {
            lemma_run_budget(*self, memory@, remaining as int);
        }
        match cycles.checked_sub(remaining) {
            Some(used) => Ok(used),
            None => Err(ExecError::CycleCountOverflow),
        }
    }

    /// Execute instructions while the cycle budget is positive and return the
    /// number of cycles used.
    pub fn execute(&mut self, cycles: i32, memory: &mut Mem) -> (used: i32)
        requires
            runs_without_fault(*old(self), old(memory)@, cycles as int),
        ensures
            ({
                let (c, m, rest, _) = run(*old(self), old(memory)@, cycles as int);
                &&& *final(self) == c
                &&& final(memory)@ == m
                &&& used == cycles - rest
            }),
            cycles <= 0 ==> used == 0 && *final(self) == *old(self) && final(memory)@ == old(
                memory,
            )@,
            cycles > 0 ==> cycles <= used <= cycles + 6,
    {
        proof {
            lemma_run_budget(*old(self), old(memory)@, cycles as int);
        }
        match self.try_execute(cycles, memory) {
            Ok(used) => used,
            Err(_) => 0,
        }
    }
}

impl Default for Cpu {
    fn default() -> (cpu: Self)
        ensures
            cpu == (Cpu { pc: 0, sp: 0, a: 0, x: 0, y: 0, flags: cleared_flags() }),
    {
        Cpu::new()
    }
}

} // verus!
