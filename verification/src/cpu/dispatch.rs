//! Executing one decoded instruction, by instruction group, and the
//! fetch-decode-execute step.

use vstd::prelude::*;

use super::{Cpu, ExecError, Reg};
use crate::isa::{
    Instruction, Mode, Op, decode, is_branch, modifies_operand, opcode_table, reads_operand,
    stores_register, well_formed,
};
use crate::mem::Mem;
use crate::model::{
    branch_effect, byte_at, effect, instruction_cycles, is_jump_op, is_stack_op, jump_effect,
    modify_effect, read_effect, register_effect, stack_effect, store_effect, wrap16,
};

verus! {

/// `ADC` and `SBC` are only implemented in binary mode.
pub open spec fn decimal_arithmetic(ins: Instruction, c: Cpu) -> bool {
    (ins.op == Op::Adc || ins.op == Op::Sbc) && c.flags.d
}

impl Cpu {
    /// The operand byte of an instruction that reads one: the byte after the
    /// opcode in immediate mode, otherwise the byte at the operand address.
    fn read_operand(&mut self, cycles: &mut i32, memory: &Mem, mode: Mode) -> (operand: u8)
        requires
            mode == Mode::Immediate || crate::isa::is_memory_mode(mode),
            *old(cycles) - 5 >= i32::MIN,
        ensures
            operand == (if mode == Mode::Immediate {
                byte_at(memory@, old(self).pc)
            } else {
                byte_at(
                    memory@,
                    crate::model::operand_address(
                        mode,
                        memory@,
                        old(self).pc,
                        old(self).x,
                        old(self).y,
                    ),
                )
            }),
            *final(self) == (Cpu {
                pc: wrap16(old(self).pc + crate::model::operand_length(mode)),
                ..*old(self)
            }),
            *final(cycles) == *old(cycles) - 1 - super::addressing_cycles(
                mode,
                crate::model::page_crossed(
                    mode,
                    memory@,
                    old(self).pc,
                    old(self).x,
                    old(self).y,
                ),
            ),
    {
        match mode {
            Mode::Immediate => self.fetch_byte(cycles, memory),
            _ => {
                let address = self.fetch_operand_address(cycles, memory, mode);
                self.read_byte(cycles, address, memory)
            },
        }
    }

    /// Loads, logical operations, `BIT`, arithmetic and comparisons.
    fn execute_read(&mut self, ins: Instruction, cycles: &mut i32, memory: &Mem)
        requires
            well_formed(ins),
            reads_operand(ins.op),
            !decimal_arithmetic(ins, *old(self)),
            *old(cycles) - 6 >= i32::MIN,
        ensures
            *final(self) == read_effect(*old(self), memory@, ins),
            *final(cycles) == *old(cycles) - (instruction_cycles(*old(self), memory@, ins) - 1),
    {
        reveal(read_effect);
        let mode = ins.mode;
        match ins.op {
            Op::Lda => match mode {
                Mode::Immediate => {
                    self.a = self.fetch_byte(cycles, memory);
                    self.set_zero_and_negative_flags(self.a);
                },
                _ => {
                    let address = self.fetch_operand_address(cycles, memory, mode);
                    self.load_register(cycles, address, Reg::A, memory);
                },
            },
            Op::Ldx => match mode {
                Mode::Immediate => {
                    self.x = self.fetch_byte(cycles, memory);
                    self.set_zero_and_negative_flags(self.x);
                },
                _ => {
                    let address = self.fetch_operand_address(cycles, memory, mode);
                    self.load_register(cycles, address, Reg::X, memory);
                },
            },
            Op::Ldy => match mode {
                Mode::Immediate => {
                    self.y = self.fetch_byte(cycles, memory);
                    self.set_zero_and_negative_flags(self.y);
                },
                _ => {
                    let address = self.fetch_operand_address(cycles, memory, mode);
                    self.load_register(cycles, address, Reg::Y, memory);
                },
            },
            Op::And => match mode {
                Mode::Immediate => {
                    let v = self.fetch_byte(cycles, memory);
                    self.a = self.a & v;
                    self.set_zero_and_negative_flags(self.a);
                },
                _ => {
                    let address = self.fetch_operand_address(cycles, memory, mode);
                    self.and(cycles, address, memory);
                },
            },
            Op::Ora => match mode {
                Mode::Immediate => {
                    let v = self.fetch_byte(cycles, memory);
                    self.a = self.a | v;
                    self.set_zero_and_negative_flags(self.a);
                },
                _ => {
                    let address = self.fetch_operand_address(cycles, memory, mode);
                    self.ora(cycles, address, memory);
                },
            },
            Op::Eor => match mode {
                Mode::Immediate => {
                    let v = self.fetch_byte(cycles, memory);
                    self.a = self.a ^ v;
                    self.set_zero_and_negative_flags(self.a);
                },
                _ => {
                    let address = self.fetch_operand_address(cycles, memory, mode);
                    self.eor(cycles, address, memory);
                },
            },
            Op::Bit => {
                let value = self.read_operand(cycles, memory, mode);
                proof {
                    crate::bits::lemma_byte_ops(value, 0);
                }
                self.flags.z = self.a & value == 0;
                self.flags.n = value & Self::NEGATIVE_FLAG_BIT != 0;
                self.flags.v = value & Self::OVERFLOW_FLAG_BIT != 0;
            },
            Op::Adc => {
                let operand = self.read_operand(cycles, memory, mode);
                self.adc(operand);
            },
            Op::Sbc => {
                let operand = self.read_operand(cycles, memory, mode);
                self.sbc(operand);
            },
            Op::Cmp => {
                let operand = self.read_operand(cycles, memory, mode);
                self.register_compare(operand, self.a);
            },
            Op::Cpx => {
                let operand = self.read_operand(cycles, memory, mode);
                self.register_compare(operand, self.x);
            },
            _ => {
                let operand = self.read_operand(cycles, memory, mode);
                self.register_compare(operand, self.y);
            },
        }
    }

    /// `STA`, `STX`, `STY`.
    fn execute_store(&mut self, ins: Instruction, cycles: &mut i32, memory: &mut Mem)
        requires
            well_formed(ins),
            stores_register(ins.op),
            *old(cycles) - 6 >= i32::MIN,
        ensures
            (*final(self), final(memory)@) == store_effect(*old(self), old(memory)@, ins),
            *final(cycles) == *old(cycles) - (instruction_cycles(*old(self), old(memory)@, ins)
                - 1),
    {
        reveal(store_effect);
        let address = self.fetch_target_address(cycles, memory, ins.mode);
        let value = match ins.op {
            Op::Sta => self.a,
            Op::Stx => self.x,
            _ => self.y,
        };
        self.write_byte(value, cycles, address, memory);
    }

    /// Shifts, rotates, and the memory increment and decrement.
    #[verifier::rlimit(40)]
    fn execute_modify(&mut self, ins: Instruction, cycles: &mut i32, memory: &mut Mem)
        requires
            well_formed(ins),
            modifies_operand(ins.op),
            *old(cycles) - 6 >= i32::MIN,
        ensures
            (*final(self), final(memory)@) == modify_effect(*old(self), old(memory)@, ins),
            *final(cycles) == *old(cycles) - (instruction_cycles(*old(self), old(memory)@, ins)
                - 1),
    {
        reveal(modify_effect);
        match ins.mode {
            Mode::Accumulator => {
                let operand = self.a;
                self.a = match ins.op {
                    Op::Asl => self.asl(cycles, operand),
                    Op::Lsr => self.lsr(cycles, operand),
                    Op::Rol => self.rol(cycles, operand),
                    _ => self.ror(cycles, operand),
                };
            },
            _ => {
                let address = self.fetch_target_address(cycles, memory, ins.mode);
                let operand = self.read_byte(cycles, address, memory);
                match ins.op {
                    Op::Inc | Op::Dec => {
                        let value = match ins.op {
                            Op::Inc => operand.wrapping_add(1),
                            _ => operand.wrapping_sub(1),
                        };
                        *cycles -= 1;
                        self.write_byte(value, cycles, address, memory);
                        self.set_zero_and_negative_flags(value);
                    },
                    _ => {
                        let result = match ins.op {
                            Op::Asl => self.asl(cycles, operand),
                            Op::Lsr => self.lsr(cycles, operand),
                            Op::Rol => self.rol(cycles, operand),
                            _ => self.ror(cycles, operand),
                        };
                        self.write_byte(result, cycles, address, memory);
                    },
                }
            },
        }
    }

    /// `PHA`, `PLA`, `PHP`, `PLP`.
    fn execute_stack(&mut self, ins: Instruction, cycles: &mut i32, memory: &mut Mem)
        requires
            is_stack_op(ins.op),
            *old(cycles) - 6 >= i32::MIN,
        ensures
            (*final(self), final(memory)@) == stack_effect(*old(self), old(memory)@, ins),
            *final(cycles) == *old(cycles) - (instruction_cycles(*old(self), old(memory)@, ins)
                - 1),
    {
        reveal(stack_effect);
        match ins.op {
            Op::Pha => {
                let a = self.a;
                self.push_byte_onto_stack(cycles, a, memory);
            },
            Op::Pla => {
                self.a = self.pop_byte_from_stack(cycles, memory);
                self.set_zero_and_negative_flags(self.a);
                *cycles -= 1;
            },
            Op::Php => {
                self.push_ps_to_stack(cycles, memory);
            },
            _ => {
                self.pop_ps_from_stack(cycles, memory);
                *cycles -= 1;
            },
        }
    }

    /// Jumps, subroutine calls and returns, `BRK` and `RTI`.
    #[verifier::rlimit(40)]
    fn execute_jump(&mut self, ins: Instruction, cycles: &mut i32, memory: &mut Mem)
        requires
            well_formed(ins),
            is_jump_op(ins.op),
            *old(cycles) - 6 >= i32::MIN,
        ensures
            (*final(self), final(memory)@) == jump_effect(*old(self), old(memory)@, ins),
            *final(cycles) == *old(cycles) - (instruction_cycles(*old(self), old(memory)@, ins)
                - 1),
    {
        reveal(jump_effect);
        match ins.op {
            Op::Jmp => match ins.mode {
                Mode::Absolute => {
                    let address = self.addr_absolute(cycles, memory);
                    self.pc = address;
                },
                _ => {
                    let mut address = self.addr_absolute(cycles, memory);
                    address = self.read_word(cycles, address, memory);
                    self.pc = address;
                },
            },
            Op::Jsr => {
                let sub_addr = self.fetch_word(cycles, memory);
                self.push_pc_minus_one_to_stack(cycles, memory);
                self.pc = sub_addr;
                *cycles -= 1;
            },
            Op::Rts => {
                let return_address = self.pop_word_from_stack(cycles, memory);
                self.pc = return_address.wrapping_add(1);
                *cycles -= 2;
            },
            Op::Brk => {
                self.push_pc_plus_one_to_stack(cycles, memory);
                self.push_ps_to_stack(cycles, memory);
                self.pc = self.read_word(cycles, 0xFFFE, memory);
                self.flags.b = true;
                self.flags.i = true;
            },
            _ => {
                self.pop_ps_from_stack(cycles, memory);
                self.pc = self.pop_word_from_stack(cycles, memory);
            },
        }
    }

    /// Register transfers, increments and decrements of X and Y, flag
    /// instructions and `NOP`.
    fn execute_register(&mut self, ins: Instruction, cycles: &mut i32, memory: &Mem)
        requires
            !reads_operand(ins.op),
            !stores_register(ins.op),
            !modifies_operand(ins.op),
            !is_stack_op(ins.op),
            !is_jump_op(ins.op),
            !is_branch(ins.op),
            *old(cycles) - 6 >= i32::MIN,
        ensures
            *final(self) == register_effect(*old(self), ins),
            *final(cycles) == *old(cycles) - (instruction_cycles(*old(self), memory@, ins) - 1),
    {
        reveal(register_effect);
        match ins.op {
            Op::Tsx => {
                self.x = self.sp;
                *cycles -= 1;
                self.set_zero_and_negative_flags(self.x);
            },
            Op::Txs => {
                self.sp = self.x;
                *cycles -= 1;
            },
            Op::Tax => {
                self.x = self.a;
                *cycles -= 1;
                self.set_zero_and_negative_flags(self.x);
            },
            Op::Tay => {
                self.y = self.a;
                *cycles -= 1;
                self.set_zero_and_negative_flags(self.y);
            },
            Op::Txa => {
                self.a = self.x;
                *cycles -= 1;
                self.set_zero_and_negative_flags(self.a);
            },
            Op::Tya => {
                self.a = self.y;
                *cycles -= 1;
                self.set_zero_and_negative_flags(self.a);
            },
            Op::Inx => {
                self.x = self.x.wrapping_add(1);
                *cycles -= 1;
                self.set_zero_and_negative_flags(self.x);
            },
            Op::Iny => {
                self.y = self.y.wrapping_add(1);
                *cycles -= 1;
                self.set_zero_and_negative_flags(self.y);
            },
            Op::Dex => {
                self.x = self.x.wrapping_sub(1);
                *cycles -= 1;
                self.set_zero_and_negative_flags(self.x);
            },
            Op::Dey => {
                self.y = self.y.wrapping_sub(1);
                *cycles -= 1;
                self.set_zero_and_negative_flags(self.y);
            },
            Op::Clc => {
                self.flags.c = false;
                *cycles -= 1;
            },
            Op::Sec => {
                self.flags.c = true;
                *cycles -= 1;
            },
            Op::Cld => {
                self.flags.d = false;
                *cycles -= 1;
            },
            Op::Sed => {
                self.flags.d = true;
                *cycles -= 1;
            },
            Op::Cli => {
                self.flags.i = false;
                *cycles -= 1;
            },
            Op::Sei => {
                self.flags.i = true;
                *cycles -= 1;
            },
            Op::Clv => {
                self.flags.v = false;
                *cycles -= 1;
            },
            _ => {
                *cycles -= 1;
            },
        }
    }

    /// The conditional branches.
    fn execute_branch(&mut self, ins: Instruction, cycles: &mut i32, memory: &Mem)
        requires
            is_branch(ins.op),
            *old(cycles) - 6 >= i32::MIN,
        ensures
            *final(self) == branch_effect(*old(self), memory@, ins),
            *final(cycles) == *old(cycles) - (instruction_cycles(*old(self), memory@, ins) - 1),
    {
        reveal(branch_effect);
        match ins.op {
            Op::Beq => {
                let z = self.flags.z;
                self.branch_if(cycles, z, true, memory);
            },
            Op::Bne => {
                let z = self.flags.z;
                self.branch_if(cycles, z, false, memory);
            },
            Op::Bcs => {
                let c = self.flags.c;
                self.branch_if(cycles, c, true, memory);
            },
            Op::Bcc => {
                let c = self.flags.c;
                self.branch_if(cycles, c, false, memory);
            },
            Op::Bmi => {
                let n = self.flags.n;
                self.branch_if(cycles, n, true, memory);
            },
            Op::Bpl => {
                let n = self.flags.n;
                self.branch_if(cycles, n, false, memory);
            },
            Op::Bvc => {
                let v = self.flags.v;
                self.branch_if(cycles, v, false, memory);
            },
            _ => {
                let v = self.flags.v;
                self.branch_if(cycles, v, true, memory);
            },
        }
    }

    /// Execute a decoded instruction whose opcode byte has just been fetched.
    fn execute_instruction(&mut self, ins: Instruction, cycles: &mut i32, memory: &mut Mem)
        requires
            well_formed(ins),
            !decimal_arithmetic(ins, *old(self)),
            *old(cycles) - 6 >= i32::MIN,
        ensures
            (*final(self), final(memory)@) == effect(*old(self), old(memory)@, ins),
            *final(cycles) == *old(cycles) - (instruction_cycles(*old(self), old(memory)@, ins)
                - 1),
    {
        match ins.op {
            Op::Lda | Op::Ldx | Op::Ldy | Op::And | Op::Ora | Op::Eor | Op::Bit | Op::Adc
            | Op::Sbc | Op::Cmp | Op::Cpx | Op::Cpy => self.execute_read(ins, cycles, memory),
            Op::Sta | Op::Stx | Op::Sty => self.execute_store(ins, cycles, memory),
            Op::Asl | Op::Lsr | Op::Rol | Op::Ror | Op::Inc | Op::Dec => self.execute_modify(
                ins,
                cycles,
                memory,
            ),
            Op::Pha | Op::Pla | Op::Php | Op::Plp => self.execute_stack(ins, cycles, memory),
            Op::Jmp | Op::Jsr | Op::Rts | Op::Brk | Op::Rti => self.execute_jump(
                ins,
                cycles,
                memory,
            ),
            Op::Beq | Op::Bne | Op::Bcs | Op::Bcc | Op::Bmi | Op::Bpl | Op::Bvc | Op::Bvs => {
                self.execute_branch(ins, cycles, memory)
            },
            _ => self.execute_register(ins, cycles, memory),
        }
    }

    /// Fetch, decode and execute the instruction at the program counter.
    /// When the emulator cannot execute it, nothing changes and the reason is returned.
    pub(super) fn step(&mut self, cycles: &mut i32, memory: &mut Mem) -> (r: Result<(), ExecError>)
        requires
            *old(cycles) - 7 >= i32::MIN,
        ensures
            match crate::model::step(*old(self), old(memory)@) {
                Ok((c, m, n)) => {
                    &&& r is Ok
                    &&& *final(self) == c
                    &&& final(memory)@ == m
                    &&& *final(cycles) == *old(cycles) - n
                },
                Err(e) => {
                    &&& r == Err::<(), ExecError>(e)
                    &&& *final(self) == *old(self)
                    &&& final(memory)@ == old(memory)@
                    &&& *final(cycles) == *old(cycles)
                },
            },
    {
        let opcode = memory.read(self.pc);
        let ins = match decode(opcode) {
            Some(ins) => ins,
            None => {
                return Err(ExecError::UnknownOpcode(opcode));
            },
        };
        match ins.op {
            Op::Adc | Op::Sbc => {
                if self.flags.d {
                    return Err(ExecError::DecimalMode);
                }
            },
            _ => {},
        }
        let _opcode = self.fetch_byte(cycles, memory);
        self.execute_instruction(ins, cycles, memory);
        Ok(())
    }
}

} // verus!
