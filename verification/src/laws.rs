//! Laws of the instruction set and of the scheduler, proved of the step and
//! run semantics.
use crate::condition_codes::{
    add_flags, bit_count, parity_of, step_flags, sub_flags, ConditionCodes,
};
use crate::cycles::lemma_cycle_bounds;
use crate::instruction::{instruction_of, AluOp, Condition, Instruction, Register, StackPair};
use crate::intel8080_state::{
    lemma_push_then_pop, lemma_word_halves, lemma_wrap16_sum, wrap16, wrap8, Machine,
};
use crate::interpreter::{
    after_steps, alu, bit, decimal_adjusted, execute, flags_of_psw, image_byte, immediate_word,
    instruction_in_image, moves_data, opcode_at, port_output, psw_byte, rotated_left, rotates,
    step_spec, stops, transfers_control, StepOutcome,
};
use crate::scheduler::{run_spec, RunOutcome, HALF_FRAME_CYCLES};
use vstd::prelude::*;

verus! {

/// A step that executes is the instruction's effect on the machine.
pub proof fn lemma_step_executes(m: Machine, rom: Seq<u8>)
    requires
        !stops(instruction_of(opcode_at(m, rom)), image_byte(rom, m.pc, 1)),
    ensures
        step_spec(m, rom).machine == execute(
            m,
            instruction_of(opcode_at(m, rom)),
            image_byte(rom, m.pc, 1),
            image_byte(rom, m.pc, 2),
        ),
        step_spec(m, rom).result.outcome == StepOutcome::Continue,
{
}

/// An accumulator operation on a register or memory operand is the
/// operation applied to the operand's value; the program counter moves on by
/// one.
pub proof fn lemma_execute_alu(m: Machine, op: AluOp, r: Register, b1: u8, b2: u8)
    ensures
        execute(m, Instruction::Alu(op, r), b1, b2) == alu(m, op, m.reg(r), false).at(
            wrap16(m.pc + 1),
        ),
{
    reveal(execute);
}

/// An accumulator operation on the immediate byte is the operation applied
/// to that byte; the program counter moves on by two.
pub proof fn lemma_execute_alu_immediate(m: Machine, op: AluOp, b1: u8, b2: u8)
    ensures
        execute(m, Instruction::AluImmediate(op), b1, b2) == alu(m, op, b1, true).at(
            wrap16(m.pc + 2),
        ),
{
    reveal(execute);
}

/// Addition on the accumulator: the sum modulo 256 is stored, carry is set
/// if and only if the sum exceeds `0xFF`, and zero, sign and parity describe
/// the stored byte.
pub proof fn lemma_alu_add(m: Machine, operand: u8, immediate: bool)
    ensures
        alu(m, AluOp::Add, operand, immediate).a == (m.a + operand) % 256,
        alu(m, AluOp::Add, operand, immediate).condition.cy == (m.a + operand > 0xff),
        alu(m, AluOp::Add, operand, immediate).condition.z == ((m.a + operand) % 256 == 0),
        alu(m, AluOp::Add, operand, immediate).condition.s == ((m.a + operand) % 256 >= 128),
        alu(m, AluOp::Add, operand, immediate).condition.p == (bit_count(
            ((m.a + operand) % 256) as nat,
        ) % 2 == 0),
{
    reveal(alu);
    reveal(add_flags);
    reveal(parity_of);
    reveal(wrap8);
}

/// Subtraction on the accumulator: the difference modulo 256 is stored,
/// carry is set if and only if the operand exceeds the accumulator, and zero
/// if and only if they are equal.
pub proof fn lemma_alu_sub(m: Machine, operand: u8, immediate: bool)
    ensures
        alu(m, AluOp::Sub, operand, immediate).a == (m.a - operand) % 256,
        alu(m, AluOp::Sub, operand, immediate).condition.cy == (m.a < operand),
        alu(m, AluOp::Sub, operand, immediate).condition.z == (m.a == operand),
{
    reveal(alu);
    reveal(sub_flags);
    reveal(wrap8);
}

/// Comparison: the flags of the subtraction, and the accumulator as it was.
pub proof fn lemma_alu_compare(m: Machine, operand: u8, immediate: bool)
    ensures
        alu(m, AluOp::Compare, operand, immediate).a == m.a,
        alu(m, AluOp::Compare, operand, immediate).condition.cy == (m.a < operand),
        alu(m, AluOp::Compare, operand, immediate).condition.z == (m.a == operand),
{
    reveal(alu);
    reveal(sub_flags);
}

/// Addition with carry: the carry flag counts as one more; the sum modulo
/// 256 is stored and carry is set if and only if the sum exceeds `0xFF`.
pub proof fn lemma_alu_adc(m: Machine, operand: u8, immediate: bool)
    ensures
        alu(m, AluOp::Adc, operand, immediate).a == (m.a + operand + bit(m.condition.cy)) % 256,
        alu(m, AluOp::Adc, operand, immediate).condition.cy == (m.a + operand + bit(
            m.condition.cy,
        ) > 0xff),
{
    reveal(alu);
    reveal(add_flags);
    reveal(wrap8);
}

/// Subtraction with borrow: the operand and the carry flag are added modulo
/// 256 and the result is subtracted in one subtraction, so an operand of
/// `0xFF` with carry set subtracts nothing and borrows nothing.
pub proof fn lemma_alu_sbb(m: Machine, operand: u8, immediate: bool)
    ensures
        alu(m, AluOp::Sbb, operand, immediate).a == (m.a - (operand + bit(m.condition.cy)) % 256)
            % 256,
        alu(m, AluOp::Sbb, operand, immediate).condition.cy == (m.a < (operand + bit(
            m.condition.cy,
        )) % 256),
{
    reveal(alu);
    reveal(sub_flags);
    reveal(wrap8);
}

/// The logical operations store the bitwise result, clear carry, and set
/// zero and sign from the stored byte. AND clears auxiliary carry, and so
/// does XOR on a register or memory operand.
pub proof fn lemma_alu_logic(m: Machine, operand: u8, immediate: bool)
    ensures
        alu(m, AluOp::And, operand, immediate).a == m.a & operand,
        alu(m, AluOp::Xor, operand, immediate).a == m.a ^ operand,
        alu(m, AluOp::Or, operand, immediate).a == m.a | operand,
        !alu(m, AluOp::And, operand, immediate).condition.cy,
        !alu(m, AluOp::Xor, operand, immediate).condition.cy,
        !alu(m, AluOp::Or, operand, immediate).condition.cy,
        !alu(m, AluOp::And, operand, immediate).condition.ac,
        !immediate ==> !alu(m, AluOp::Xor, operand, immediate).condition.ac,
        alu(m, AluOp::And, operand, immediate).condition.z == (m.a & operand == 0),
        alu(m, AluOp::Xor, operand, immediate).condition.z == (m.a ^ operand == 0),
        alu(m, AluOp::Or, operand, immediate).condition.z == (m.a | operand == 0),
        alu(m, AluOp::And, operand, immediate).condition.s == (m.a & operand >= 128),
        alu(m, AluOp::Xor, operand, immediate).condition.s == (m.a ^ operand >= 128),
        alu(m, AluOp::Or, operand, immediate).condition.s == (m.a | operand >= 128),
{
    reveal(alu);
    reveal(step_flags);
}

/// ADD with a register or memory operand stores the sum of the accumulator
/// and the operand modulo 256, and sets carry if and only if the sum exceeds
/// `0xFF`. Zero and parity describe the stored byte.
pub proof fn law_add(m: Machine, rom: Seq<u8>, r: Register)
    requires
        instruction_of(opcode_at(m, rom)) == Instruction::Alu(AluOp::Add, r),
    ensures
        step_spec(m, rom).machine.a == (m.a + m.reg(r)) % 256,
        step_spec(m, rom).machine.condition.cy == (m.a + m.reg(r) > 0xff),
        step_spec(m, rom).machine.condition.z == (step_spec(m, rom).machine.a == 0),
        step_spec(m, rom).machine.condition.p == (bit_count(step_spec(m, rom).machine.a as nat) % 2
            == 0),
{
    lemma_step_executes(m, rom);
    lemma_execute_alu(m, AluOp::Add, r, image_byte(rom, m.pc, 1), image_byte(rom, m.pc, 2));
    lemma_alu_add(m, m.reg(r), false);
}

/// ADI stores the sum of the accumulator and the immediate byte modulo 256,
/// and sets carry if and only if the sum exceeds `0xFF`.
pub proof fn law_add_immediate(m: Machine, rom: Seq<u8>)
    requires
        instruction_of(opcode_at(m, rom)) == Instruction::AluImmediate(AluOp::Add),
        m.pc + 1 < rom.len(),
    ensures
        step_spec(m, rom).machine.a == (m.a + rom[m.pc + 1]) % 256,
        step_spec(m, rom).machine.condition.cy == (m.a + rom[m.pc + 1] > 0xff),
{
    lemma_step_executes(m, rom);
    lemma_execute_alu_immediate(
        m,
        AluOp::Add,
        image_byte(rom, m.pc, 1),
        image_byte(rom, m.pc, 2),
    );
    lemma_alu_add(m, rom[m.pc + 1], true);
}

/// SUB with a register or memory operand stores the difference modulo 256
/// and sets carry if and only if the operand exceeds the accumulator.
pub proof fn law_sub(m: Machine, rom: Seq<u8>, r: Register)
    requires
        instruction_of(opcode_at(m, rom)) == Instruction::Alu(AluOp::Sub, r),
    ensures
        step_spec(m, rom).machine.a == (m.a - m.reg(r)) % 256,
        step_spec(m, rom).machine.condition.cy == (m.a < m.reg(r)),
        step_spec(m, rom).machine.condition.z == (m.a == m.reg(r)),
{
    lemma_step_executes(m, rom);
    lemma_execute_alu(m, AluOp::Sub, r, image_byte(rom, m.pc, 1), image_byte(rom, m.pc, 2));
    lemma_alu_sub(m, m.reg(r), false);
}

/// Subtracting the accumulator from itself yields zero, clears carry and
/// sets the zero flag, whatever the accumulator held.
pub proof fn law_sub_self(m: Machine, rom: Seq<u8>)
    requires
        instruction_of(opcode_at(m, rom)) == Instruction::Alu(AluOp::Sub, Register::A),
    ensures
        step_spec(m, rom).machine.a == 0,
        !step_spec(m, rom).machine.condition.cy,
        step_spec(m, rom).machine.condition.z,
{
    law_sub(m, rom, Register::A);
}

/// CMP sets the flags of a subtraction and keeps the accumulator: zero when
/// the operand equals it, carry when the operand exceeds it.
pub proof fn law_compare(m: Machine, rom: Seq<u8>, r: Register)
    requires
        instruction_of(opcode_at(m, rom)) == Instruction::Alu(AluOp::Compare, r),
    ensures
        step_spec(m, rom).machine.a == m.a,
        step_spec(m, rom).machine.condition.cy == (m.a < m.reg(r)),
        step_spec(m, rom).machine.condition.z == (m.a == m.reg(r)),
{
    lemma_step_executes(m, rom);
    lemma_execute_alu(m, AluOp::Compare, r, image_byte(rom, m.pc, 1), image_byte(rom, m.pc, 2));
    lemma_alu_compare(m, m.reg(r), false);
}

/// The flags byte that PUSH PSW stores gives back the same flags when POP
/// PSW loads it.
pub proof fn law_flags_byte_round_trip(m: Machine)
    ensures
        flags_of_psw(m.condition, psw_byte(m.condition)) == m.condition,
{
    reveal(psw_byte);
    reveal(flags_of_psw);
}

/// Loading a pair with its own value changes nothing.
pub proof fn lemma_stack_pair_identity(m: Machine, p: StackPair)
    ensures
        m.with_stack_pair(p, m.stack_pair(p)) == m,
{
    law_flags_byte_round_trip(m);
    lemma_word_halves(m.b, m.c, 0);
    lemma_word_halves(m.d, m.e, 0);
    lemma_word_halves(m.h, m.l, 0);
    lemma_word_halves(m.a, psw_byte(m.condition), 0);
}

/// PUSH of a pair followed at once by POP of the same pair restores every
/// register and flag and leaves the stack pointer where it was; only the
/// program counter and the two bytes below the stack pointer change.
pub proof fn law_push_pop(m: Machine, rom: Seq<u8>, p: StackPair)
    requires
        m.wf(),
        instruction_of(opcode_at(m, rom)) == Instruction::Push(p),
        instruction_of(rom[wrap16(m.pc + 1) as int]) == Instruction::Pop(p),
    ensures
        after_steps(m, rom, 2) == (Machine {
            pc: wrap16(m.pc + 2),
            memory: m.pushed(m.stack_pair(p)).memory,
            ..m
        }),
        after_steps(m, rom, 2).stack_pair(p) == m.stack_pair(p),
        after_steps(m, rom, 2).sp == m.sp,
{
    reveal(execute);
    reveal_with_fuel(after_steps, 3);
    let v = m.stack_pair(p);
    lemma_push_then_pop(m, v);
    lemma_wrap16_sum(m.pc, 1, 1);
    let m1 = step_spec(m, rom).machine;
    assert(m1 == m.pushed(v).at(wrap16(m.pc + 1)));
    assert(m1.stack_top() == m.pushed(v).stack_top());
    assert(m1.stack_pair(p) == v);
    lemma_stack_pair_identity(m1, p);
    let m2 = step_spec(m1, rom).machine;
    assert(m2 == m1.with_stack_pair(p, v).popped().at(wrap16(m1.pc + 1)));
    assert(m2 == m1.popped().at(wrap16(m.pc + 2)));
    assert(m1.popped().sp == m.pushed(v).popped().sp);
    assert(after_steps(m, rom, 2) == m2);
}

/// CALL followed by RET at the called address returns to the instruction
/// after the CALL and restores the stack pointer.
pub proof fn law_call_return(m: Machine, rom: Seq<u8>)
    requires
        m.wf(),
        instruction_of(opcode_at(m, rom)) == Instruction::Call,
        instruction_of(rom[immediate_word(m, rom) as int]) == Instruction::Ret,
    ensures
        step_spec(m, rom).machine.pc == immediate_word(m, rom),
        after_steps(m, rom, 2).pc == wrap16(m.pc + 3),
        after_steps(m, rom, 2).sp == m.sp,
{
    reveal(execute);
    reveal_with_fuel(after_steps, 3);
    let next = wrap16(m.pc + 3);
    lemma_push_then_pop(m, next);
    let m1 = step_spec(m, rom).machine;
    assert(m1 == m.pushed(next).at(immediate_word(m, rom)));
    assert(m1.stack_top() == m.pushed(next).stack_top());
    assert(m1.popped().sp == m.pushed(next).popped().sp);
    let m2 = step_spec(m1, rom).machine;
    assert(m2 == m1.popped().at(next));
    assert(after_steps(m, rom, 2) == m2);
}

/// A conditional call that is taken, followed by RET at the called address,
/// returns to the instruction after the call and restores the stack pointer.
pub proof fn law_conditional_call_return(m: Machine, rom: Seq<u8>, c: Condition)
    requires
        m.wf(),
        instruction_of(opcode_at(m, rom)) == Instruction::CallIf(c),
        m.holds(c),
        instruction_of(rom[immediate_word(m, rom) as int]) == Instruction::Ret,
    ensures
        after_steps(m, rom, 2).pc == wrap16(m.pc + 3),
        after_steps(m, rom, 2).sp == m.sp,
{
    reveal(execute);
    reveal_with_fuel(after_steps, 3);
    let next = wrap16(m.pc + 3);
    lemma_push_then_pop(m, next);
    let m1 = step_spec(m, rom).machine;
    assert(m1 == m.pushed(next).at(immediate_word(m, rom)));
    assert(m1.stack_top() == m.pushed(next).stack_top());
    assert(m1.popped().sp == m.pushed(next).popped().sp);
    let m2 = step_spec(m1, rom).machine;
    assert(m2 == m1.popped().at(next));
    assert(after_steps(m, rom, 2) == m2);
}

/// RST pushes the address of the next instruction and continues at eight
/// times its number; RET at the vector comes back to that address.
pub proof fn law_restart_return(m: Machine, rom: Seq<u8>, n: u8)
    requires
        m.wf(),
        n < 8,
        instruction_of(opcode_at(m, rom)) == Instruction::Rst(n),
        instruction_of(rom[8 * n]) == Instruction::Ret,
    ensures
        step_spec(m, rom).machine.pc == 8 * n,
        after_steps(m, rom, 2).pc == wrap16(m.pc + 1),
        after_steps(m, rom, 2).sp == m.sp,
{
    reveal(execute);
    reveal_with_fuel(after_steps, 3);
    let next = wrap16(m.pc + 1);
    lemma_push_then_pop(m, next);
    let m1 = step_spec(m, rom).machine;
    assert(m1 == m.pushed(next).at((8 * n) as u16));
    assert(m1.stack_top() == m.pushed(next).stack_top());
    assert(m1.popped().sp == m.pushed(next).popped().sp);
    let m2 = step_spec(m1, rom).machine;
    assert(m2 == m1.popped().at(next));
    assert(after_steps(m, rom, 2) == m2);
}

/// A conditional jump goes to the address in its two immediate bytes, low
/// byte first, when its condition holds, and to the next instruction, three
/// bytes on, when it does not. Nothing else changes.
pub proof fn law_conditional_jump(m: Machine, rom: Seq<u8>, c: Condition)
    requires
        instruction_of(opcode_at(m, rom)) == Instruction::JumpIf(c),
    ensures
        m.holds(c) ==> step_spec(m, rom).machine == m.at(immediate_word(m, rom)),
        !m.holds(c) ==> step_spec(m, rom).machine == m.at(wrap16(m.pc + 3)),
{
    reveal(execute);
}

/// A left rotation as shifts: bit 7 moves to bit 0.
pub open spec fn rotated_left_bits(a: u8) -> u8 {
    (a << 1) | (a >> 7)
}

/// The arithmetic and the bitwise statement of the left rotation agree.
pub proof fn lemma_rotated_left_bits(a: u8)
    ensures
        rotated_left(a) == rotated_left_bits(a),
{
    reveal(rotated_left);
    reveal(wrap8);
    assert(((a << 1) | (a >> 7)) as u16 == ((a as u16) * 2 + (a as u16) / 128) % 256)
        by (bit_vector);
}

/// Eight left rotations give back the byte, and the bit that the eighth
/// moves out is bit 0 of the byte it started from.
pub proof fn lemma_eight_rotations(a: u8)
    ensures
        rotated_left_bits(
            rotated_left_bits(
                rotated_left_bits(
                    rotated_left_bits(
                        rotated_left_bits(
                            rotated_left_bits(rotated_left_bits(rotated_left_bits(a))),
                        ),
                    ),
                ),
            ),
        ) == a,
        (rotated_left_bits(
            rotated_left_bits(
                rotated_left_bits(
                    rotated_left_bits(rotated_left_bits(rotated_left_bits(rotated_left_bits(a)))),
                ),
            ),
        ) >= 128) == (a % 2 == 1),
{
    assert(rotated_left_bits(
        rotated_left_bits(
            rotated_left_bits(
                rotated_left_bits(
                    rotated_left_bits(rotated_left_bits(rotated_left_bits(rotated_left_bits(a)))),
                ),
            ),
        ),
    ) == a) by (bit_vector);
    assert((rotated_left_bits(
        rotated_left_bits(
            rotated_left_bits(
                rotated_left_bits(rotated_left_bits(rotated_left_bits(rotated_left_bits(a)))),
            ),
        ),
    ) >= 128) == (a % 2 == 1)) by (bit_vector);
}

/// RLC rotates the accumulator left by one bit and copies the bit that it
/// moves out into carry.
pub proof fn law_rotate_left(m: Machine, rom: Seq<u8>)
    requires
        instruction_of(opcode_at(m, rom)) == Instruction::Rlc,
    ensures
        step_spec(m, rom).machine == m.with_a(rotated_left(m.a)).with_carry(m.a >= 128).at(
            wrap16(m.pc + 1),
        ),
{
    reveal(execute);
}

/// A byte after `n` left rotations.
pub open spec fn rotated_left_times(a: u8, n: nat) -> u8
    decreases n,
{
    if n == 0 {
        a
    } else {
        rotated_left_times(rotated_left(a), (n - 1) as nat)
    }
}

/// The machine after `n` RLC in a row, `n` at least one: the accumulator
/// has been rotated `n` times, carry holds bit 7 of what the last rotation
/// found, and the program counter has moved on by `n`.
pub open spec fn after_rotations(m: Machine, n: nat) -> Machine {
    m.with_a(rotated_left_times(m.a, n)).with_carry(
        rotated_left_times(m.a, (n - 1) as nat) >= 128,
    ).at(wrap16(m.pc + n))
}

/// A run of `n` RLC rotates the accumulator `n` times.
pub proof fn law_left_rotations(m: Machine, rom: Seq<u8>, n: nat)
    requires
        n >= 1,
        forall|k: int| 0 <= k < n ==> instruction_of(#[trigger] rom[wrap16(m.pc + k) as int])
            == Instruction::Rlc,
    ensures
        after_steps(m, rom, n) == after_rotations(m, n),
    decreases n,
{
    let m1 = step_spec(m, rom).machine;
    assert(m1 == m.with_a(rotated_left(m.a)).with_carry(m.a >= 128).at(wrap16(m.pc + 1))) by {
        lemma_wrap16_sum(m.pc, 0, 0);
        assert(instruction_of(rom[wrap16(m.pc + 0) as int]) == Instruction::Rlc);
        law_rotate_left(m, rom);
    }
    if n == 1 {
        reveal_with_fuel(rotated_left_times, 2);
        reveal_with_fuel(after_steps, 2);
    } else {
        assert forall|k: int| 0 <= k < n - 1 implies instruction_of(
            #[trigger] rom[wrap16(m1.pc + k) as int],
        ) == Instruction::Rlc by {
            lemma_wrap16_sum(m.pc, 1, k);
            assert(instruction_of(rom[wrap16(m.pc + (k + 1)) as int]) == Instruction::Rlc);
        }
        law_left_rotations(m1, rom, (n - 1) as nat);
        lemma_wrap16_sum(m.pc, 1, n - 1);
        assert(after_steps(m, rom, n) == after_steps(m1, rom, (n - 1) as nat));
        assert(rotated_left_times(m.a, n) == rotated_left_times(m1.a, (n - 1) as nat));
        assert(rotated_left_times(m.a, (n - 1) as nat) == rotated_left_times(
            m1.a,
            (n - 2) as nat,
        ));
    }
}

/// Eight RLC in a row give the accumulator back, and leave in carry the
/// last bit rotated out, which is bit 0 of the accumulator at the start. Only
/// carry and the program counter differ from the start.
pub proof fn law_eight_left_rotations(m: Machine, rom: Seq<u8>)
    requires
        forall|k: int| 0 <= k < 8 ==> instruction_of(#[trigger] rom[wrap16(m.pc + k) as int])
            == Instruction::Rlc,
    ensures
        after_steps(m, rom, 8) == m.with_carry(m.a % 2 == 1).at(wrap16(m.pc + 8)),
        after_steps(m, rom, 8).a == m.a,
{
    law_left_rotations(m, rom, 8);
    let a0 = m.a;
    let a1 = rotated_left(a0);
    let a2 = rotated_left(a1);
    let a3 = rotated_left(a2);
    let a4 = rotated_left(a3);
    let a5 = rotated_left(a4);
    let a6 = rotated_left(a5);
    let a7 = rotated_left(a6);
    let a8 = rotated_left(a7);
    assert(a8 == a0 && (a7 >= 128) == (a0 % 2 == 1)) by {
        lemma_rotated_left_bits(a0);
        lemma_rotated_left_bits(a1);
        lemma_rotated_left_bits(a2);
        lemma_rotated_left_bits(a3);
        lemma_rotated_left_bits(a4);
        lemma_rotated_left_bits(a5);
        lemma_rotated_left_bits(a6);
        lemma_rotated_left_bits(a7);
        lemma_eight_rotations(a0);
    }
    assert(rotated_left_times(a0, 8) == a8 && rotated_left_times(a0, 7) == a7) by {
        reveal_with_fuel(rotated_left_times, 9);
    }
}

/// Whether the instruction leaves every flag as it was: the data moves other
/// than POP PSW, the jumps, calls and returns, the pair increments and
/// decrements, the port and interrupt instructions, CMA and NOP.
pub open spec fn leaves_flags(i: Instruction) -> bool {
    match i {
        Instruction::Pop(StackPair::PSW) => false,
        Instruction::Nop
        | Instruction::Inx(_)
        | Instruction::Dcx(_)
        | Instruction::Cma
        | Instruction::In
        | Instruction::Out
        | Instruction::Di
        | Instruction::Ei
        | Instruction::Hlt
        | Instruction::Unimplemented => true,
        _ => moves_data(i) || transfers_control(i),
    }
}

/// Whether the instruction touches the carry flag and no other: DAD, the
/// four rotations, STC and CMC.
pub open spec fn touches_carry_only(i: Instruction) -> bool {
    match i {
        Instruction::Dad(_) | Instruction::Stc | Instruction::Cmc => true,
        _ => rotates(i),
    }
}

/// An instruction that documents no effect on the flags leaves them all
/// untouched.
pub proof fn law_flags_untouched(m: Machine, i: Instruction, b1: u8, b2: u8)
    requires
        leaves_flags(i),
    ensures
        execute(m, i, b1, b2).condition == m.condition,
{
    reveal(execute);
    reveal(port_output);
}

/// DAD, the rotations, STC and CMC change no flag but carry.
pub proof fn law_carry_only(m: Machine, i: Instruction, b1: u8, b2: u8)
    requires
        touches_carry_only(i),
    ensures
        execute(m, i, b1, b2).condition == (ConditionCodes {
            cy: execute(m, i, b1, b2).condition.cy,
            ..m.condition
        }),
{
    reveal(execute);
}

/// INR and DCR leave the carry flag as it was, whatever their operand and
/// result.
pub proof fn law_count_keeps_carry(m: Machine, r: Register, b1: u8, b2: u8)
    ensures
        execute(m, Instruction::Inr(r), b1, b2).condition.cy == m.condition.cy,
        execute(m, Instruction::Dcr(r), b1, b2).condition.cy == m.condition.cy,
{
    reveal(execute);
    reveal(step_flags);
}

/// An accumulator operation changes the accumulator and the flags and
/// nothing else.
pub proof fn lemma_alu_frame(m: Machine, op: AluOp, operand: u8, immediate: bool)
    ensures
        alu(m, op, operand, immediate) == m.with_a(alu(m, op, operand, immediate).a).with_flags(
            alu(m, op, operand, immediate).condition,
        ),
{
    reveal(alu);
}

/// A write to a port leaves memory alone and keeps the shift offset within
/// three bits.
pub proof fn lemma_port_output_well_formed(m: Machine, port: u8, value: u8)
    requires
        m.wf(),
    ensures
        port_output(m, port, value).wf(),
{
    reveal(port_output);
    assert(value & 0x7 < 8) by (bit_vector);
}

/// No instruction can leave the address space or widen the shift offset: a
/// step of a well-formed machine gives a well-formed machine.
pub proof fn law_step_keeps_well_formed(m: Machine, rom: Seq<u8>)
    requires
        m.wf(),
    ensures
        step_spec(m, rom).machine.wf(),
{
    let i = instruction_of(opcode_at(m, rom));
    let b1 = image_byte(rom, m.pc, 1);
    let b2 = image_byte(rom, m.pc, 2);
    if !stops(i, b1) {
        lemma_step_executes(m, rom);
        lemma_port_output_well_formed(m, b1, m.a);
        assert(execute(m, i, b1, b2).wf()) by {
            reveal(execute);
            reveal(decimal_adjusted);
            match i {
                Instruction::Alu(op, r) => {
                    lemma_alu_frame(m, op, m.reg(r), false);
                },
                Instruction::AluImmediate(op) => {
                    lemma_alu_frame(m, op, b1, true);
                },
                _ => {},
            }
        }
    }
}

/// A run from within the budget spends at most the cost of one instruction
/// beyond it, and it is complete exactly when the budget is used up.
pub proof fn law_run_spends_the_budget(m: Machine, rom: Seq<u8>, cycles: nat)
    requires
        cycles < HALF_FRAME_CYCLES + 24,
    ensures
        cycles <= run_spec(m, rom, cycles).cycles < HALF_FRAME_CYCLES + 24,
        run_spec(m, rom, cycles).outcome == RunOutcome::Completed <==> run_spec(
            m,
            rom,
            cycles,
        ).cycles >= HALF_FRAME_CYCLES,
    decreases HALF_FRAME_CYCLES + 32 - cycles,
{
    if cycles < HALF_FRAME_CYCLES && instruction_in_image(rom, m.pc) {
        let s = step_spec(m, rom);
        if s.result.outcome == StepOutcome::Continue {
            lemma_cycle_bounds(opcode_at(m, rom));
            law_run_spends_the_budget(s.machine, rom, cycles + s.result.cycles as nat);
        }
    }
}

/// A run of a well-formed machine ends in a well-formed machine.
pub proof fn law_run_keeps_well_formed(m: Machine, rom: Seq<u8>, cycles: nat)
    requires
        m.wf(),
    ensures
        run_spec(m, rom, cycles).machine.wf(),
    decreases HALF_FRAME_CYCLES + 32 - cycles,
{
    if cycles < HALF_FRAME_CYCLES && instruction_in_image(rom, m.pc) {
        let s = step_spec(m, rom);
        law_step_keeps_well_formed(m, rom);
        if s.result.outcome == StepOutcome::Continue {
            lemma_cycle_bounds(opcode_at(m, rom));
            law_run_keeps_well_formed(s.machine, rom, cycles + s.result.cycles as nat);
        }
    }
}

} // verus!
