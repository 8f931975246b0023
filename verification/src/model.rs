//! The mathematical model of the 6502: what one instruction does to the
//! registers and to memory, how many cycles it takes, and what running for a
//! cycle budget does.
//!
//! Memory is modelled as its 64 KiB view (`Seq<u8>`); addresses are `u16`.

use vstd::prelude::*;

use crate::cpu::{Cpu, ExecError};
use crate::flags::{StatusFlags, bit_value, pack_flags, unpack_flags};
use crate::isa::{
    Instruction, Mode, Op, is_branch, modifies_operand, opcode_table, reads_operand,
    stores_register,
};

verus! {

/// `v` reduced modulo 256.
pub open spec fn wrap8(v: int) -> u8 {
    (v % 256) as u8
}

/// `v` reduced modulo 65536.
pub open spec fn wrap16(v: int) -> u16 {
    (v % 65536) as u16
}

/// The byte stored at `address`.
pub open spec fn byte_at(m: Seq<u8>, address: u16) -> u8 {
    m[address as int]
}

/// The little-endian word stored at `address` (low byte) and the address after it.
pub open spec fn word_at(m: Seq<u8>, address: u16) -> u16 {
    (byte_at(m, address) + 256 * byte_at(m, wrap16(address + 1))) as u16
}

/// The low byte of a word.
pub open spec fn low_byte(w: u16) -> u8 {
    (w % 256) as u8
}

/// The high byte of a word.
pub open spec fn high_byte(w: u16) -> u8 {
    (w / 256) as u8
}

/// The address in page `$01xx` that the stack pointer `sp` designates.
pub open spec fn stack_address(sp: u8) -> u16 {
    (0x100 + sp) as u16
}

/// `m` with the little-endian word `w` stored at `address`.
pub open spec fn with_word(m: Seq<u8>, address: u16, w: u16) -> Seq<u8> {
    m.update(address as int, low_byte(w)).update(wrap16(address + 1) as int, high_byte(w))
}

/// The flags after loading `v` into a register: Z and N follow `v`.
pub open spec fn with_zero_negative(f: StatusFlags, v: u8) -> StatusFlags {
    StatusFlags { z: v == 0, n: v >= 0x80, ..f }
}

/// The status byte that `PHP` and `BRK` push: the flags with B and U set.
pub open spec fn pushed_status(f: StatusFlags) -> u8 {
    pack_flags(StatusFlags { b: true, unused: true, ..f })
}

/// The flags that `PLP` and `RTI` pull from a status byte: B and U read as clear.
pub open spec fn pulled_status(byte: u8) -> StatusFlags {
    StatusFlags { b: false, unused: false, ..unpack_flags(byte) }
}

/// Number of operand bytes that follow the opcode.
pub open spec fn operand_length(mode: Mode) -> int {
    match mode {
        Mode::Implied | Mode::Accumulator => 0,
        Mode::Absolute | Mode::AbsoluteX | Mode::AbsoluteY | Mode::Indirect => 2,
        _ => 1,
    }
}

/// The address an addressing mode designates, where `p` is the address of the
/// first operand byte and `x`, `y` are the index registers.
pub open spec fn operand_address(mode: Mode, m: Seq<u8>, p: u16, x: u8, y: u8) -> u16 {
    let b = byte_at(m, p);
    let w = word_at(m, p);
    match mode {
        Mode::ZeroPage => b as u16,
        Mode::ZeroPageX => wrap8(b + x) as u16,
        Mode::ZeroPageY => wrap8(b + y) as u16,
        Mode::Absolute => w,
        Mode::AbsoluteX => wrap16(w + x),
        Mode::AbsoluteY => wrap16(w + y),
        Mode::Indirect => word_at(m, w),
        Mode::IndirectX => word_at(m, wrap8(b + x) as u16),
        Mode::IndirectY => wrap16(word_at(m, b as u16) + y),
        _ => 0,
    }
}

/// The address an indexed mode adds its index register to.
pub open spec fn index_base(mode: Mode, m: Seq<u8>, p: u16) -> u16 {
    match mode {
        Mode::IndirectY => word_at(m, byte_at(m, p) as u16),
        _ => word_at(m, p),
    }
}

/// Whether an indexed mode (`abs,X`, `abs,Y`, `(zp),Y`) lands on another page
/// than its base address.
pub open spec fn page_crossed(mode: Mode, m: Seq<u8>, p: u16, x: u8, y: u8) -> bool {
    (mode == Mode::AbsoluteX || mode == Mode::AbsoluteY || mode == Mode::IndirectY)
        && high_byte(index_base(mode, m, p)) != high_byte(operand_address(mode, m, p, x, y))
}

/// A branch offset byte read as a two's complement number.
pub open spec fn signed_offset(b: u8) -> int {
    if b < 128 {
        b as int
    } else {
        b - 256
    }
}

/// Whether a conditional branch is taken under the flags `f`.
pub open spec fn branch_taken(op: Op, f: StatusFlags) -> bool {
    match op {
        Op::Beq => f.z,
        Op::Bne => !f.z,
        Op::Bcs => f.c,
        Op::Bcc => !f.c,
        Op::Bmi => f.n,
        Op::Bpl => !f.n,
        Op::Bvs => f.v,
        Op::Bvc => !f.v,
        _ => false,
    }
}

/// Binary addition of `operand` and the carry to `a`: the result byte and the
/// new flags (C = unsigned carry out, V = signed overflow, Z and N of the result).
pub open spec fn add_with_carry(f: StatusFlags, a: u8, operand: u8) -> (u8, StatusFlags) {
    let sum = a + operand + bit_value(f.c);
    let r = wrap8(sum);
    (
        r,
        StatusFlags {
            c: sum > 255,
            v: (a >= 128) == (operand >= 128) && (r >= 128) != (operand >= 128),
            z: r == 0,
            n: r >= 128,
            ..f
        },
    )
}

/// The flags after comparing a register with an operand (`CMP`, `CPX`, `CPY`).
pub open spec fn compare(f: StatusFlags, register: u8, operand: u8) -> StatusFlags {
    StatusFlags {
        n: wrap8(register - operand) >= 128,
        z: register == operand,
        c: register >= operand,
        ..f
    }
}

/// The result of a read-modify-write operation on `v`, and the new carry.
pub open spec fn modified(op: Op, v: u8, carry: bool) -> (u8, bool) {
    match op {
        Op::Asl => (wrap8(2 * v), v >= 128),
        Op::Lsr => ((v / 2) as u8, v % 2 == 1),
        Op::Rol => (wrap8(2 * v + bit_value(carry)), v >= 128),
        Op::Ror => ((v / 2 + 128 * bit_value(carry)) as u8, v % 2 == 1),
        Op::Inc => (wrap8(v + 1), carry),
        _ => (wrap8(v - 1), carry),
    }
}

/// The operand byte an instruction works on: the byte after the opcode in
/// immediate mode, the accumulator in accumulator mode, otherwise the byte at
/// the operand address (`c.pc` points just past the opcode byte).
pub open spec fn operand_value(c: Cpu, m: Seq<u8>, mode: Mode) -> u8 {
    if mode == Mode::Immediate {
        byte_at(m, c.pc)
    } else if mode == Mode::Accumulator {
        c.a
    } else {
        byte_at(m, operand_address(mode, m, c.pc, c.x, c.y))
    }
}

/// The program counter after the operand bytes of an instruction in `mode`.
pub open spec fn next_pc(c: Cpu, mode: Mode) -> u16 {
    wrap16(c.pc + operand_length(mode))
}

/// Loads, logical operations, `BIT`, arithmetic and comparisons: they read one
/// operand byte and change only registers and flags.
#[verifier::opaque]
pub open spec fn read_effect(c: Cpu, m: Seq<u8>, ins: Instruction) -> Cpu {
    let operand = operand_value(c, m, ins.mode);
    let f = c.flags;
    let c1 = Cpu { pc: next_pc(c, ins.mode), ..c };
    match ins.op {
        Op::Lda => Cpu { a: operand, flags: with_zero_negative(f, operand), ..c1 },
        Op::Ldx => Cpu { x: operand, flags: with_zero_negative(f, operand), ..c1 },
        Op::Ldy => Cpu { y: operand, flags: with_zero_negative(f, operand), ..c1 },
        Op::And => Cpu { a: c.a & operand, flags: with_zero_negative(f, c.a & operand), ..c1 },
        Op::Ora => Cpu { a: c.a | operand, flags: with_zero_negative(f, c.a | operand), ..c1 },
        Op::Eor => Cpu { a: c.a ^ operand, flags: with_zero_negative(f, c.a ^ operand), ..c1 },
        Op::Bit => Cpu {
            flags: StatusFlags {
                z: c.a & operand == 0,
                n: operand >= 128,
                v: (operand / 64) % 2 == 1,
                ..f
            },
            ..c1
        },
        Op::Adc => Cpu {
            a: add_with_carry(f, c.a, operand).0,
            flags: add_with_carry(f, c.a, operand).1,
            ..c1
        },
        Op::Sbc => Cpu {
            a: add_with_carry(f, c.a, (255 - operand) as u8).0,
            flags: add_with_carry(f, c.a, (255 - operand) as u8).1,
            ..c1
        },
        Op::Cmp => Cpu { flags: compare(f, c.a, operand), ..c1 },
        Op::Cpx => Cpu { flags: compare(f, c.x, operand), ..c1 },
        _ => Cpu { flags: compare(f, c.y, operand), ..c1 },
    }
}

/// `STA`, `STX`, `STY`: the register is written to the operand address.
#[verifier::opaque]
pub open spec fn store_effect(c: Cpu, m: Seq<u8>, ins: Instruction) -> (Cpu, Seq<u8>) {
    let ea = operand_address(ins.mode, m, c.pc, c.x, c.y);
    let v = match ins.op {
        Op::Sta => c.a,
        Op::Stx => c.x,
        _ => c.y,
    };
    (Cpu { pc: next_pc(c, ins.mode), ..c }, m.update(ea as int, v))
}

/// Shifts, rotates, and the memory increment and decrement: the result goes
/// back where the operand came from; Z and N follow the result, C the bit
/// shifted out.
#[verifier::opaque]
pub open spec fn modify_effect(c: Cpu, m: Seq<u8>, ins: Instruction) -> (Cpu, Seq<u8>) {
    let operand = operand_value(c, m, ins.mode);
    let (r, carry) = modified(ins.op, operand, c.flags.c);
    let f = with_zero_negative(StatusFlags { c: carry, ..c.flags }, r);
    let c1 = Cpu { pc: next_pc(c, ins.mode), flags: f, ..c };
    if ins.mode == Mode::Accumulator {
        (Cpu { a: r, ..c1 }, m)
    } else {
        (c1, m.update(operand_address(ins.mode, m, c.pc, c.x, c.y) as int, r))
    }
}

/// `PHA`, `PHP`, `PLA`, `PLP`: the stack grows downward from `$01FF`;
/// a push writes at the stack pointer, then decrements it.
#[verifier::opaque]
pub open spec fn stack_effect(c: Cpu, m: Seq<u8>, ins: Instruction) -> (Cpu, Seq<u8>) {
    let sp1 = wrap8(c.sp + 1);
    let pulled = byte_at(m, stack_address(sp1));
    match ins.op {
        Op::Pha => (Cpu { sp: wrap8(c.sp - 1), ..c }, m.update(stack_address(c.sp) as int, c.a)),
        Op::Php => (
            Cpu { sp: wrap8(c.sp - 1), ..c },
            m.update(stack_address(c.sp) as int, pushed_status(c.flags)),
        ),
        Op::Pla => (Cpu { sp: sp1, a: pulled, flags: with_zero_negative(c.flags, pulled), ..c }, m),
        _ => (Cpu { sp: sp1, flags: pulled_status(pulled), ..c }, m),
    }
}

/// `m` with the word `w` pushed at the stack pointer `sp`: high byte first.
pub open spec fn push_word(m: Seq<u8>, sp: u8, w: u16) -> Seq<u8> {
    m.update(stack_address(sp) as int, high_byte(w)).update(
        stack_address(wrap8(sp - 1)) as int,
        low_byte(w),
    )
}

/// `JMP`, `JSR`, `RTS`, `BRK`, `RTI`.
///
/// `JSR` pushes the address of its own last byte and `RTS` resumes one past
/// the pulled address; `BRK` pushes the address two past its opcode and the
/// status with B and U set, then jumps through the vector at `$FFFE`;
/// `RTI` pulls the status, then the return address.
#[verifier::opaque]
pub open spec fn jump_effect(c: Cpu, m: Seq<u8>, ins: Instruction) -> (Cpu, Seq<u8>) {
    let p = c.pc;
    match ins.op {
        Op::Jmp => (Cpu { pc: operand_address(ins.mode, m, p, c.x, c.y), ..c }, m),
        Op::Jsr => (
            Cpu { pc: word_at(m, p), sp: wrap8(c.sp - 2), ..c },
            push_word(m, c.sp, wrap16(p + 1)),
        ),
        Op::Rts => (
            Cpu {
                pc: wrap16(word_at(m, (stack_address(c.sp) + 1) as u16) + 1),
                sp: wrap8(c.sp + 2),
                ..c
            },
            m,
        ),
        Op::Brk => {
            let m1 = push_word(m, c.sp, wrap16(p + 1)).update(
                stack_address(wrap8(c.sp - 2)) as int,
                pushed_status(c.flags),
            );
            (
                Cpu {
                    pc: word_at(m1, 0xFFFE),
                    sp: wrap8(c.sp - 3),
                    flags: StatusFlags { b: true, i: true, ..c.flags },
                    ..c
                },
                m1,
            )
        },
        _ => {
            let sp1 = wrap8(c.sp + 1);
            (
                Cpu {
                    pc: word_at(m, (stack_address(sp1) + 1) as u16),
                    sp: wrap8(sp1 + 2),
                    flags: pulled_status(byte_at(m, stack_address(sp1))),
                    ..c
                },
                m,
            )
        },
    }
}

/// The conditional branches: when taken, the program counter moves by the
/// signed offset, counted from the instruction that follows the branch.
#[verifier::opaque]
pub open spec fn branch_effect(c: Cpu, m: Seq<u8>, ins: Instruction) -> Cpu {
    let next = wrap16(c.pc + 1);
    if branch_taken(ins.op, c.flags) {
        Cpu { pc: wrap16(next + signed_offset(byte_at(m, c.pc))), ..c }
    } else {
        Cpu { pc: next, ..c }
    }
}

/// Register transfers, increments and decrements of X and Y, flag
/// instructions and `NOP`: one byte long (no operand), registers and flags only.
#[verifier::opaque]
pub open spec fn register_effect(c: Cpu, ins: Instruction) -> Cpu {
    let f = c.flags;
    match ins.op {
        Op::Inx => Cpu { x: wrap8(c.x + 1), flags: with_zero_negative(f, wrap8(c.x + 1)), ..c },
        Op::Iny => Cpu { y: wrap8(c.y + 1), flags: with_zero_negative(f, wrap8(c.y + 1)), ..c },
        Op::Dex => Cpu { x: wrap8(c.x - 1), flags: with_zero_negative(f, wrap8(c.x - 1)), ..c },
        Op::Dey => Cpu { y: wrap8(c.y - 1), flags: with_zero_negative(f, wrap8(c.y - 1)), ..c },
        Op::Tax => Cpu { x: c.a, flags: with_zero_negative(f, c.a), ..c },
        Op::Tay => Cpu { y: c.a, flags: with_zero_negative(f, c.a), ..c },
        Op::Txa => Cpu { a: c.x, flags: with_zero_negative(f, c.x), ..c },
        Op::Tya => Cpu { a: c.y, flags: with_zero_negative(f, c.y), ..c },
        Op::Tsx => Cpu { x: c.sp, flags: with_zero_negative(f, c.sp), ..c },
        Op::Txs => Cpu { sp: c.x, ..c },
        Op::Clc => Cpu { flags: StatusFlags { c: false, ..f }, ..c },
        Op::Sec => Cpu { flags: StatusFlags { c: true, ..f }, ..c },
        Op::Cld => Cpu { flags: StatusFlags { d: false, ..f }, ..c },
        Op::Sed => Cpu { flags: StatusFlags { d: true, ..f }, ..c },
        Op::Cli => Cpu { flags: StatusFlags { i: false, ..f }, ..c },
        Op::Sei => Cpu { flags: StatusFlags { i: true, ..f }, ..c },
        Op::Clv => Cpu { flags: StatusFlags { v: false, ..f }, ..c },
        _ => c,
    }
}

/// Whether an operation is one of the stack instructions `PHA`, `PHP`, `PLA`, `PLP`.
pub open spec fn is_stack_op(op: Op) -> bool {
    op == Op::Pha || op == Op::Php || op == Op::Pla || op == Op::Plp
}

/// Whether an operation is one of `JMP`, `JSR`, `RTS`, `BRK`, `RTI`.
pub open spec fn is_jump_op(op: Op) -> bool {
    op == Op::Jmp || op == Op::Jsr || op == Op::Rts || op == Op::Brk || op == Op::Rti
}

/// The machine state after executing `ins`, where `c.pc` already points just
/// past the opcode byte.
pub open spec fn effect(c: Cpu, m: Seq<u8>, ins: Instruction) -> (Cpu, Seq<u8>) {
    if reads_operand(ins.op) {
        (read_effect(c, m, ins), m)
    } else if stores_register(ins.op) {
        store_effect(c, m, ins)
    } else if modifies_operand(ins.op) {
        modify_effect(c, m, ins)
    } else if is_stack_op(ins.op) {
        stack_effect(c, m, ins)
    } else if is_jump_op(ins.op) {
        jump_effect(c, m, ins)
    } else if is_branch(ins.op) {
        (branch_effect(c, m, ins), m)
    } else {
        (register_effect(c, ins), m)
    }
}

/// Documented cycle count of an instruction that reads its operand, before any
/// page-crossing penalty.
pub open spec fn read_cycles(mode: Mode) -> nat {
    match mode {
        Mode::ZeroPage => 3,
        Mode::ZeroPageX | Mode::ZeroPageY | Mode::Absolute | Mode::AbsoluteX | Mode::AbsoluteY => 4,
        Mode::IndirectX => 6,
        Mode::IndirectY => 5,
        _ => 2,
    }
}

/// Documented cycle count of a store: indexed stores always take the extra cycle.
pub open spec fn store_cycles(mode: Mode) -> nat {
    match mode {
        Mode::ZeroPage => 3,
        Mode::ZeroPageX | Mode::ZeroPageY | Mode::Absolute => 4,
        Mode::AbsoluteX | Mode::AbsoluteY => 5,
        _ => 6,
    }
}

/// Documented cycle count of a read-modify-write instruction.
pub open spec fn modify_cycles(mode: Mode) -> nat {
    match mode {
        Mode::Accumulator => 2,
        Mode::ZeroPage => 5,
        Mode::ZeroPageX | Mode::Absolute => 6,
        _ => 7,
    }
}

/// The number of cycles an instruction takes, opcode fetch included, where
/// `c.pc` points just past the opcode byte.
pub open spec fn instruction_cycles(c: Cpu, m: Seq<u8>, ins: Instruction) -> nat {
    let p = c.pc;
    let mode = ins.mode;
    match ins.op {
        Op::Lda | Op::Ldx | Op::Ldy | Op::And | Op::Ora | Op::Eor | Op::Bit | Op::Adc | Op::Sbc
        | Op::Cmp | Op::Cpx | Op::Cpy => read_cycles(mode) + if page_crossed(
            mode,
            m,
            p,
            c.x,
            c.y,
        ) {
            1nat
        } else {
            0nat
        },
        Op::Sta | Op::Stx | Op::Sty => store_cycles(mode),
        Op::Asl | Op::Lsr | Op::Rol | Op::Ror | Op::Inc | Op::Dec => modify_cycles(mode),
        Op::Pha | Op::Php => 3,
        Op::Pla | Op::Plp => 4,
        Op::Jmp => if mode == Mode::Indirect {
            5
        } else {
            3
        },
        Op::Jsr | Op::Rts | Op::Rti => 6,
        Op::Brk => 7,
        Op::Beq | Op::Bne | Op::Bcs | Op::Bcc | Op::Bmi | Op::Bpl | Op::Bvc | Op::Bvs => {
            let next = wrap16(p + 1);
            let target = wrap16(next + signed_offset(byte_at(m, p)));
            if !branch_taken(ins.op, c.flags) {
                2
            } else if high_byte(target) != high_byte(next) {
                4
            } else {
                3
            }
        },
        _ => 2,
    }
}

/// One fetch-decode-execute step from the state `(c, m)`: the new state and
/// the cycles it took, or the reason the emulator cannot execute the opcode at
/// `c.pc` (an opcode it does not implement, or `ADC`/`SBC` in decimal mode).
pub open spec fn step(c: Cpu, m: Seq<u8>) -> Result<(Cpu, Seq<u8>, nat), ExecError> {
    let opcode = byte_at(m, c.pc);
    match opcode_table(opcode) {
        None => Err(ExecError::UnknownOpcode(opcode)),
        Some(ins) => if (ins.op == Op::Adc || ins.op == Op::Sbc) && c.flags.d {
            Err(ExecError::DecimalMode)
        } else {
            let fetched = Cpu { pc: wrap16(c.pc + 1), ..c };
            let (c2, m2) = effect(fetched, m, ins);
            Ok((c2, m2, instruction_cycles(fetched, m, ins)))
        },
    }
}

/// Executing instructions while the cycle budget is positive: the final state,
/// the remaining budget (zero or negative), and the fault that stopped the run
/// early, if any (the state is then the one in which the faulting opcode was met).
pub open spec fn run(c: Cpu, m: Seq<u8>, cycles: int) -> (Cpu, Seq<u8>, int, Option<ExecError>)
    decreases if cycles > 0 {
        cycles
    } else {
        0
    },
{
    if cycles <= 0 {
        (c, m, cycles, None)
    } else {
        match step(c, m) {
            Err(e) => (c, m, cycles, Some(e)),
            Ok((c2, m2, n)) => {
                proof {
                    lemma_step_takes_cycles(c, m);
                    assert(n >= 2);
                }
                run(c2, m2, cycles - n)
            },
        }
    }
}

/// Every instruction takes at least two and at most seven cycles.
pub proof fn lemma_instruction_cycles_bounds(c: Cpu, m: Seq<u8>, ins: Instruction)
    ensures
        2 <= instruction_cycles(c, m, ins) <= 7,
{
}

/// A successful step consumes between two and seven cycles, so a run terminates.
pub proof fn lemma_step_takes_cycles(c: Cpu, m: Seq<u8>)
    ensures
        step(c, m) matches Ok((_, _, n)) ==> 2 <= n <= 7,
{
    let opcode = byte_at(m, c.pc);
    if let Some(ins) = opcode_table(opcode) {
        lemma_instruction_cycles_bounds(Cpu { pc: wrap16(c.pc + 1), ..c }, m, ins);
    }
}

/// A run without a positive budget does nothing; a run with a positive budget
/// that meets no fault overshoots the budget by at most six cycles.
pub proof fn lemma_run_budget(c: Cpu, m: Seq<u8>, cycles: int)
    ensures
        cycles <= 0 ==> run(c, m, cycles) == (c, m, cycles, None::<ExecError>),
        cycles > 0 && run(c, m, cycles).3 is None ==> -6 <= run(c, m, cycles).2 <= 0,
        cycles > 0 && run(c, m, cycles).3 is Some ==> run(c, m, cycles).2 > 0,
    decreases if cycles > 0 {
        cycles
    } else {
        0
    },
{
    if cycles > 0 {
        lemma_step_takes_cycles(c, m);
        if let Ok((c2, m2, n)) = step(c, m) {
            lemma_run_budget(c2, m2, cycles - n);
        }
    }
}

/// Whether running `cycles` from `(c, m)` meets no fault and the cycles used fit in an `i32`.
pub open spec fn runs_without_fault(c: Cpu, m: Seq<u8>, cycles: int) -> bool {
    let r = run(c, m, cycles);
    r.3 is None && cycles - r.2 <= i32::MAX
}

/// `m` with `bytes` stored from `start` on, one address after another,
/// wrapping from `$FFFF` to `$0000` (later bytes overwrite earlier ones).
pub open spec fn load_bytes(m: Seq<u8>, start: u16, bytes: Seq<u8>) -> Seq<u8>
    decreases bytes.len(),
{
    if bytes.len() == 0 {
        m
    } else {
        load_bytes(m, start, bytes.drop_last()).update(
            wrap16(start + bytes.len() - 1) as int,
            bytes.last(),
        )
    }
}

} // verus!
