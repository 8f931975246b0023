//! Properties of the emulator that span several operations.

use vstd::prelude::*;

use crate::cpu::Cpu;
use crate::flags::{StatusFlags, bit_value, pack_flags, unpack_flags};
use crate::isa::Mode;
use crate::mem::Mem;
use crate::cpu::ExecError;
use crate::model::{
    add_with_carry, pulled_status, byte_at, jump_effect, load_bytes, operand_address, push_word, pushed_status,
    stack_address, stack_effect, step, with_word, with_zero_negative, word_at, wrap16, wrap8,
    compare, branch_effect, read_effect,
};

verus! {

/// Unpacking a packed status byte gives back the flags.
pub proof fn flags_survive_packing(f: StatusFlags)
    ensures
        unpack_flags(pack_flags(f)) == f,
{
}

/// Packing the flags read off a status byte gives back the byte.
pub proof fn status_byte_survives_unpacking(byte: u8)
    ensures
        pack_flags(unpack_flags(byte)) == byte,
{
    assert(byte == byte % 2 + 2 * ((byte / 2) % 2) + 4 * ((byte / 4) % 2) + 8 * ((byte / 8) % 2)
        + 16 * ((byte / 16) % 2) + 32 * ((byte / 32) % 2) + 64 * ((byte / 64) % 2) + 128 * ((
    byte / 128) % 2)) by (bit_vector);
}

/// Every memory holds exactly one byte per `u16` address.
pub proof fn memory_covers_the_address_space(m: &Mem)
    ensures
        m@.len() == 65536,
{
}

/// A word written with `write_word` reads back unchanged.
pub proof fn word_write_then_read(m: Seq<u8>, address: u16, w: u16)
    requires
        m.len() == 65536,
    ensures
        word_at(with_word(m, address, w), address) == w,
{
}

/// Zero-page indexed addressing wraps around inside the zero page.
pub proof fn zero_page_indexing_stays_in_zero_page(m: Seq<u8>, p: u16, x: u8, y: u8)
    ensures
        operand_address(Mode::ZeroPageX, m, p, x, y) < 256,
        operand_address(Mode::ZeroPageY, m, p, x, y) < 256,
{
}

/// A byte read as a two's complement number.
pub open spec fn signed(v: u8) -> int {
    if v < 128 {
        v as int
    } else {
        v - 256
    }
}

/// `ADC` adds modulo 256; C is the unsigned carry out and V says that the
/// signed sum does not fit in a byte.
pub proof fn add_with_carry_is_addition(f: StatusFlags, a: u8, operand: u8)
    ensures
        ({
            let (r, g) = add_with_carry(f, a, operand);
            let sum = a + operand + bit_value(f.c);
            let signed_sum = signed(a) + signed(operand) + bit_value(f.c);
            &&& r == wrap8(sum)
            &&& g.c == (sum > 255)
            &&& g.v == !(-128 <= signed_sum <= 127)
            &&& g.z == (r == 0)
            &&& g.n == (r >= 128)
        }),
{
}

/// `SBC` subtracts the operand and the borrow (the complement of C) modulo 256;
/// C afterwards says that no borrow was needed and V that the signed difference
/// does not fit in a byte.
pub proof fn subtract_with_carry_is_subtraction(f: StatusFlags, a: u8, operand: u8)
    ensures
        ({
            let (r, g) = add_with_carry(f, a, (255 - operand) as u8);
            let borrow = 1 - bit_value(f.c);
            let difference = a - operand - borrow;
            let signed_difference = signed(a) - signed(operand) - borrow;
            &&& r == wrap8(difference)
            &&& g.c == (difference >= 0)
            &&& g.v == !(-128 <= signed_difference <= 127)
        }),
{
}

/// `PHA` followed by `PLA` restores the accumulator and the stack pointer;
/// Z and N then describe the accumulator.
pub proof fn pha_then_pla_restores_the_accumulator(c: Cpu, m: Seq<u8>)
    requires
        m.len() == 65536,
        byte_at(m, c.pc) == Cpu::INS_PHA,
        byte_at(m, wrap16(c.pc + 1)) == Cpu::INS_PLA,
        wrap16(c.pc + 1) != stack_address(c.sp),
    ensures
        ({
            &&& step(c, m) matches Ok((c1, m1, n1))
            &&& n1 == 3
            &&& step(c1, m1) matches Ok((c2, m2, n2))
            &&& n2 == 4
            &&& m2 == m1
            &&& c2 == (Cpu { pc: wrap16(c.pc + 2), flags: with_zero_negative(c.flags, c.a), ..c })
        }),
{
    reveal(stack_effect);
}

/// `PHP` followed by `PLP` restores the flags, except B and U which read as clear.
pub proof fn php_then_plp_restores_the_flags(c: Cpu, m: Seq<u8>)
    requires
        m.len() == 65536,
        byte_at(m, c.pc) == Cpu::INS_PHP,
        byte_at(m, wrap16(c.pc + 1)) == Cpu::INS_PLP,
        wrap16(c.pc + 1) != stack_address(c.sp),
    ensures
        ({
            &&& step(c, m) matches Ok((c1, m1, _))
            &&& step(c1, m1) matches Ok((c2, m2, _))
            &&& m2 == m1
            &&& c2 == (Cpu {
                pc: wrap16(c.pc + 2),
                flags: StatusFlags { b: false, unused: false, ..c.flags },
                ..c
            })
        }),
{
    reveal(stack_effect);
    flags_survive_packing(StatusFlags { b: true, unused: true, ..c.flags });
}

/// The step of a `JSR`: push the address of its last byte, jump to the operand.
proof fn jsr_step(c: Cpu, m: Seq<u8>)
    requires
        byte_at(m, c.pc) == Cpu::INS_JSR,
    ensures
        step(c, m) == Ok::<(Cpu, Seq<u8>, nat), ExecError>((
            Cpu { pc: word_at(m, wrap16(c.pc + 1)), sp: wrap8(c.sp - 2), ..c },
            push_word(m, c.sp, wrap16(c.pc + 2)),
            6,
        )),
{
    reveal(jump_effect);
}

/// The step of an `RTS`: pull the return address, resume one past it.
proof fn rts_step(c: Cpu, m: Seq<u8>)
    requires
        byte_at(m, c.pc) == Cpu::INS_RTS,
    ensures
        step(c, m) == Ok::<(Cpu, Seq<u8>, nat), ExecError>((
            Cpu {
                pc: wrap16(word_at(m, (stack_address(c.sp) + 1) as u16) + 1),
                sp: wrap8(c.sp + 2),
                ..c
            },
            m,
            6,
        )),
{
    reveal(jump_effect);
}

/// The step of a `BRK`: push the address two past it and the status with B
/// and U set, set B and I, jump through the vector at `$FFFE`.
#[verifier::rlimit(40)]
proof fn brk_step(c: Cpu, m: Seq<u8>)
    requires
        byte_at(m, c.pc) == Cpu::INS_BRK,
    ensures
        ({
            let m1 = push_word(m, c.sp, wrap16(c.pc + 2)).update(
                stack_address(wrap8(c.sp - 2)) as int,
                pushed_status(c.flags),
            );
            step(c, m) == Ok::<(Cpu, Seq<u8>, nat), ExecError>((
                Cpu {
                    pc: word_at(m1, 0xFFFE),
                    sp: wrap8(c.sp - 3),
                    flags: StatusFlags { b: true, i: true, ..c.flags },
                    ..c
                },
                m1,
                7,
            ))
        }),
{
    reveal(jump_effect);
}

/// The step of an `RTI`: pull the status (B and U read as clear), then the
/// return address.
proof fn rti_step(c: Cpu, m: Seq<u8>)
    requires
        byte_at(m, c.pc) == Cpu::INS_RTI,
    ensures
        ({
            let sp1 = wrap8(c.sp + 1);
            step(c, m) == Ok::<(Cpu, Seq<u8>, nat), ExecError>((
                Cpu {
                    pc: word_at(m, (stack_address(sp1) + 1) as u16),
                    sp: wrap8(sp1 + 2),
                    flags: pulled_status(byte_at(m, stack_address(sp1))),
                    ..c
                },
                m,
                6,
            ))
        }),
{
    reveal(jump_effect);
}

/// `JSR` to a subroutine that is just `RTS` returns to the instruction after
/// the `JSR`, with the stack pointer and all other registers as before.
/// (With the stack pointer at `$00` or `$01` the return address is not read
/// back from where `JSR` pushed it: the pull does not wrap inside page `$01`.)
pub proof fn jsr_then_rts_returns_after_the_call(c: Cpu, m: Seq<u8>)
    requires
        m.len() == 65536,
        c.sp >= 2,
        byte_at(m, c.pc) == Cpu::INS_JSR,
        byte_at(m, word_at(m, wrap16(c.pc + 1))) == Cpu::INS_RTS,
        word_at(m, wrap16(c.pc + 1)) != stack_address(c.sp),
        word_at(m, wrap16(c.pc + 1)) != stack_address(wrap8(c.sp - 1)),
    ensures
        ({
            &&& step(c, m) matches Ok((c1, m1, n1))
            &&& n1 == 6
            &&& step(c1, m1) matches Ok((c2, m2, n2))
            &&& n2 == 6
            &&& m2 == m1
            &&& c2 == (Cpu { pc: wrap16(c.pc + 3), ..c })
        }),
{
    let target = word_at(m, wrap16(c.pc + 1));
    let ret = wrap16(c.pc + 2);
    let c1 = Cpu { pc: target, sp: wrap8(c.sp - 2), ..c };
    let m1 = push_word(m, c.sp, ret);
    jsr_step(c, m);
    assert(byte_at(m1, target) == Cpu::INS_RTS);
    rts_step(c1, m1);
    let low_address = stack_address(wrap8(c.sp - 1));
    assert((stack_address(c1.sp) + 1) as u16 == low_address);
    assert(wrap16(low_address + 1) == stack_address(c.sp));
    assert(word_at(m1, low_address) == ret);
}

/// `BRK` into an interrupt handler that is just `RTI` resumes two bytes past
/// the `BRK` with the stack pointer, registers and flags as before, except B
/// and U which read as clear. (Not for the stack pointer at `$00` or `$01`,
/// for the reason given at `jsr_then_rts_returns_after_the_call`.)
pub proof fn brk_then_rti_resumes_after_the_break(c: Cpu, m: Seq<u8>)
    requires
        m.len() == 65536,
        c.sp >= 2,
        byte_at(m, c.pc) == Cpu::INS_BRK,
        byte_at(m, word_at(m, 0xFFFE)) == Cpu::INS_RTI,
        word_at(m, 0xFFFE) != stack_address(c.sp),
        word_at(m, 0xFFFE) != stack_address(wrap8(c.sp - 1)),
        word_at(m, 0xFFFE) != stack_address(wrap8(c.sp - 2)),
    ensures
        ({
            &&& step(c, m) matches Ok((c1, m1, n1))
            &&& n1 == 7
            &&& step(c1, m1) matches Ok((c2, m2, n2))
            &&& n2 == 6
            &&& m2 == m1
            &&& c2 == (Cpu {
                pc: wrap16(c.pc + 2),
                flags: StatusFlags { b: false, unused: false, ..c.flags },
                ..c
            })
        }),
{
    flags_survive_packing(StatusFlags { b: true, unused: true, ..c.flags });
    let ret = wrap16(c.pc + 2);
    let m1 = push_word(m, c.sp, ret).update(
        stack_address(wrap8(c.sp - 2)) as int,
        pushed_status(c.flags),
    );
    let handler = word_at(m, 0xFFFE);
    assert(word_at(m1, 0xFFFE) == handler);
    let c1 = Cpu {
        pc: handler,
        sp: wrap8(c.sp - 3),
        flags: StatusFlags { b: true, i: true, ..c.flags },
        ..c
    };
    brk_step(c, m);
    assert(byte_at(m1, handler) == Cpu::INS_RTI);
    rti_step(c1, m1);
    let sp1 = wrap8(c1.sp + 1);
    assert(sp1 == wrap8(c.sp - 2));
    assert(byte_at(m1, stack_address(sp1)) == pushed_status(c.flags));
    let low_address = stack_address(wrap8(c.sp - 1));
    assert((stack_address(sp1) + 1) as u16 == low_address);
    assert(wrap16(low_address + 1) == stack_address(c.sp));
    assert(word_at(m1, low_address) == ret);
}

/// Loading a program image of at most 64 KiB stores its `k`-th byte at
/// `start + k` (wrapping) and leaves every other address unchanged.
pub proof fn loaded_bytes_land_in_order(m: Seq<u8>, start: u16, bytes: Seq<u8>)
    requires
        m.len() == 65536,
        bytes.len() <= 65536,
    ensures
        load_bytes(m, start, bytes).len() == 65536,
        forall|k: int| 0 <= k < bytes.len() ==> #[trigger] load_bytes(m, start, bytes)[wrap16(start + k) as int] == bytes[k],
        forall|a: u16| (forall|k: int| 0 <= k < bytes.len() ==> a != #[trigger] wrap16(start + k)) ==> load_bytes(m, start, bytes)[a as int] == m[a as int],
    decreases bytes.len(),
{
    if bytes.len() > 0 {
        let front = bytes.drop_last();
        loaded_bytes_land_in_order(m, start, front);
        let last = bytes.len() - 1;
        assert forall|k: int| 0 <= k < bytes.len() implies #[trigger] load_bytes(m, start, bytes)[wrap16(start + k) as int] == bytes[k] by {
            if k < last {
                assert(wrap16(start + k) != wrap16(start + last));
                assert(front[k] == bytes[k]);
            }
        }
        assert forall|a: u16| (forall|k: int| 0 <= k < bytes.len() ==> a != #[trigger] wrap16(start + k)) implies load_bytes(m, start, bytes)[a as int] == m[a as int] by {
            assert(a != wrap16(start + last));
            assert forall|k: int| 0 <= k < front.len() implies a != #[trigger] wrap16(start + k) by {
                assert(a != wrap16(start + k));
            }
        }
    }
}

/// A comparison sets C when the register is not below the operand, Z when
/// they are equal, and N to bit 7 of their difference modulo 256; it leaves
/// the other flags alone.
pub proof fn comparison_flags_follow_the_difference(f: StatusFlags, register: u8, operand: u8)
    ensures
        ({
            let g = compare(f, register, operand);
            let difference = (register as int - operand as int + 256) % 256;
            &&& g.c == (register as int >= operand as int)
            &&& g.z == (register as int == operand as int)
            &&& g.n == (difference >= 128)
            &&& g.i == f.i && g.d == f.d && g.b == f.b && g.unused == f.unused && g.v == f.v
        }),
{
}

/// `CMP #`, `CPX #` and `CPY #` compare the accumulator, X or Y with the byte
/// after the opcode: C when the register is not below it, Z when equal, N to
/// bit 7 of the difference modulo 256. Registers, memory and the other flags
/// stay; the program counter moves past the two bytes; two cycles are used.
pub proof fn immediate_comparisons_set_the_flags(c: Cpu, m: Seq<u8>)
    requires
        m.len() == 65536,
        byte_at(m, c.pc) == Cpu::INS_CMP || byte_at(m, c.pc) == Cpu::INS_CPX || byte_at(m, c.pc)
            == Cpu::INS_CPY,
    ensures
        ({
            let opcode = byte_at(m, c.pc);
            let register = if opcode == Cpu::INS_CMP {
                c.a
            } else if opcode == Cpu::INS_CPX {
                c.x
            } else {
                c.y
            };
            let operand = m[(c.pc + 1) % 65536];
            let difference = (register as int - operand as int + 256) % 256;
            &&& step(c, m) matches Ok((c2, m2, n))
            &&& n == 2
            &&& m2 == m
            &&& c2.pc as int == (c.pc + 2) % 65536
            &&& c2.a == c.a && c2.x == c.x && c2.y == c.y && c2.sp == c.sp
            &&& c2.flags.c == (register >= operand)
            &&& c2.flags.z == (register == operand)
            &&& c2.flags.n == (difference >= 128)
            &&& c2.flags.i == c.flags.i && c2.flags.d == c.flags.d && c2.flags.b == c.flags.b
            &&& c2.flags.unused == c.flags.unused && c2.flags.v == c.flags.v
        }),
{
    let opcode = byte_at(m, c.pc);
    let operand = m[(c.pc + 1) % 65536];
    let register = if opcode == Cpu::INS_CMP {
        c.a
    } else if opcode == Cpu::INS_CPX {
        c.x
    } else {
        c.y
    };
    immediate_comparison_step(c, m);
    comparison_flags_follow_the_difference(c.flags, register, operand);
}

/// The step of an immediate comparison, in terms of `compare`.
proof fn immediate_comparison_step(c: Cpu, m: Seq<u8>)
    requires
        byte_at(m, c.pc) == Cpu::INS_CMP || byte_at(m, c.pc) == Cpu::INS_CPX || byte_at(m, c.pc)
            == Cpu::INS_CPY,
    ensures
        ({
            let opcode = byte_at(m, c.pc);
            let register = if opcode == Cpu::INS_CMP {
                c.a
            } else if opcode == Cpu::INS_CPX {
                c.x
            } else {
                c.y
            };
            step(c, m) == Ok::<(Cpu, Seq<u8>, nat), ExecError>((
                Cpu {
                    pc: wrap16(c.pc + 2),
                    flags: compare(c.flags, register, byte_at(m, wrap16(c.pc + 1))),
                    ..c
                },
                m,
                2,
            ))
        }),
{
    reveal(read_effect);
}

/// Each conditional branch tests one flag: `BEQ`/`BNE` test Z (set/clear),
/// `BCS`/`BCC` test C, `BMI`/`BPL` test N, `BVS`/`BVC` test V, and no other
/// flag matters. When the test fails the program counter moves past the two
/// bytes of the branch in two cycles; when it succeeds it moves from there by
/// the signed offset byte, in three cycles, or four when the target lies on
/// another page. Nothing else changes.
pub proof fn branches_test_their_flag(c: Cpu, m: Seq<u8>)
    requires
        m.len() == 65536,
        ({
            let opcode = byte_at(m, c.pc);
            opcode == Cpu::INS_BEQ || opcode == Cpu::INS_BNE || opcode == Cpu::INS_BCS || opcode
                == Cpu::INS_BCC || opcode == Cpu::INS_BMI || opcode == Cpu::INS_BPL || opcode
                == Cpu::INS_BVS || opcode == Cpu::INS_BVC
        }),
    ensures
        ({
            let opcode = byte_at(m, c.pc);
            let f = c.flags;
            let taken = (opcode == Cpu::INS_BEQ && f.z) || (opcode == Cpu::INS_BNE && !f.z) || (
            opcode == Cpu::INS_BCS && f.c) || (opcode == Cpu::INS_BCC && !f.c) || (opcode
                == Cpu::INS_BMI && f.n) || (opcode == Cpu::INS_BPL && !f.n) || (opcode
                == Cpu::INS_BVS && f.v) || (opcode == Cpu::INS_BVC && !f.v);
            let next = (c.pc + 2) % 65536;
            let offset_byte = m[(c.pc + 1) % 65536];
            let offset = if offset_byte < 128 {
                offset_byte as int
            } else {
                offset_byte - 256
            };
            let target = (next + offset) % 65536;
            &&& step(c, m) matches Ok((c2, m2, n))
            &&& m2 == m
            &&& c2 == (Cpu { pc: (if taken { target } else { next }) as u16, ..c })
            &&& n == (if !taken {
                2int
            } else if target / 256 != next / 256 {
                4int
            } else {
                3int
            })
        }),
{
    reveal(branch_effect);
}

} // verus!
