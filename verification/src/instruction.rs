//! The instruction set: operands, instruction forms, and the decoding of an
//! opcode byte.
//!
//! An opcode is three bit fields, `hh mmm lll`. The specification decodes by
//! those fields; the executable decoder is a 256-entry dispatch on the byte
//! and is proved to agree with it on every opcode.
use vstd::prelude::*;

verus! {

/// An eight-bit operand: a register, or `M`, the memory byte that H:L
/// addresses.
#[derive(Debug, Clone, Copy, PartialEq, Eq, Structural)]
pub enum Register {
    B,
    C,
    D,
    E,
    H,
    L,
    M,
    A,
}

/// A sixteen-bit operand of the data and arithmetic instructions.
#[derive(Debug, Clone, Copy, PartialEq, Eq, Structural)]
pub enum RegisterPair {
    BC,
    DE,
    HL,
    SP,
}

/// A sixteen-bit operand of PUSH and POP; `PSW` is the accumulator with the
/// flags byte.
#[derive(Debug, Clone, Copy, PartialEq, Eq, Structural)]
pub enum StackPair {
    BC,
    DE,
    HL,
    PSW,
}

/// The eight predicates of the conditional jumps, calls and returns. Each
/// tests one flag.
#[derive(Debug, Clone, Copy, PartialEq, Eq, Structural)]
pub enum Condition {
    NotZero,
    Zero,
    NoCarry,
    Carry,
    ParityOdd,
    ParityEven,
    Plus,
    Minus,
}

/// The eight accumulator operations.
#[derive(Debug, Clone, Copy, PartialEq, Eq, Structural)]
pub enum AluOp {
    Add,
    Adc,
    Sub,
    Sbb,
    And,
    Xor,
    Or,
    Compare,
}

/// A decoded instruction. Immediate bytes are not part of it: they follow the
/// opcode in the instruction stream.
#[derive(Debug, Clone, Copy, PartialEq, Eq, Structural)]
pub enum Instruction {
    Nop,
    /// Load a pair from the two immediate bytes.
    Lxi(RegisterPair),
    /// Store the accumulator at the address in the pair.
    Stax(RegisterPair),
    /// Load the accumulator from the address in the pair.
    Ldax(RegisterPair),
    /// Store H:L at the immediate address.
    Shld,
    /// Load H:L from the immediate address.
    Lhld,
    /// Store the accumulator at the immediate address.
    Sta,
    /// Load the accumulator from the immediate address.
    Lda,
    Inx(RegisterPair),
    Dcx(RegisterPair),
    Inr(Register),
    Dcr(Register),
    /// Load the operand from the immediate byte.
    Mvi(Register),
    /// Add the pair to H:L.
    Dad(RegisterPair),
    Rlc,
    Rrc,
    Ral,
    Rar,
    Daa,
    Cma,
    Stc,
    Cmc,
    /// Copy the second operand into the first.
    Mov(Register, Register),
    Hlt,
    /// An accumulator operation with a register or memory operand.
    Alu(AluOp, Register),
    /// An accumulator operation with the immediate byte.
    AluImmediate(AluOp),
    ReturnIf(Condition),
    Ret,
    Pop(StackPair),
    Push(StackPair),
    JumpIf(Condition),
    Jmp,
    CallIf(Condition),
    Call,
    /// Call the fixed vector at eight times the number.
    Rst(u8),
    Out,
    In,
    Xthl,
    Xchg,
    Pchl,
    Sphl,
    Di,
    Ei,
    /// An opcode without a handler.
    Unimplemented,
}

/// The operand that a three-bit register field names.
pub open spec fn register_of(code: int) -> Register {
    if code == 0 {
        Register::B
    } else if code == 1 {
        Register::C
    } else if code == 2 {
        Register::D
    } else if code == 3 {
        Register::E
    } else if code == 4 {
        Register::H
    } else if code == 5 {
        Register::L
    } else if code == 6 {
        Register::M
    } else {
        Register::A
    }
}

/// The pair that a two-bit pair field names.
pub open spec fn pair_of(code: int) -> RegisterPair {
    if code == 0 {
        RegisterPair::BC
    } else if code == 1 {
        RegisterPair::DE
    } else if code == 2 {
        RegisterPair::HL
    } else {
        RegisterPair::SP
    }
}

/// The pair that a two-bit pair field names in PUSH and POP.
pub open spec fn stack_pair_of(code: int) -> StackPair {
    if code == 0 {
        StackPair::BC
    } else if code == 1 {
        StackPair::DE
    } else if code == 2 {
        StackPair::HL
    } else {
        StackPair::PSW
    }
}

/// The predicate that a three-bit condition field names.
pub open spec fn condition_of(code: int) -> Condition {
    if code == 0 {
        Condition::NotZero
    } else if code == 1 {
        Condition::Zero
    } else if code == 2 {
        Condition::NoCarry
    } else if code == 3 {
        Condition::Carry
    } else if code == 4 {
        Condition::ParityOdd
    } else if code == 5 {
        Condition::ParityEven
    } else if code == 6 {
        Condition::Plus
    } else {
        Condition::Minus
    }
}

/// The accumulator operation that a three-bit operation field names.
pub open spec fn alu_op_of(code: int) -> AluOp {
    if code == 0 {
        AluOp::Add
    } else if code == 1 {
        AluOp::Adc
    } else if code == 2 {
        AluOp::Sub
    } else if code == 3 {
        AluOp::Sbb
    } else if code == 4 {
        AluOp::And
    } else if code == 5 {
        AluOp::Xor
    } else if code == 6 {
        AluOp::Or
    } else {
        AluOp::Compare
    }
}

/// Whether the move group has a handler for this pair of register fields.
/// The moves of B, E, H, L and A onto themselves have none; `M` onto `M` is
/// the encoding of HLT.
pub open spec fn move_handled(dst: int, src: int) -> bool {
    dst != src || dst == 1 || dst == 2
}

/// Opcodes `00 mmm lll`: loads, stores, pair arithmetic, increments and the
/// accumulator rotations.
pub open spec fn low_group(mid: int, low: int) -> Instruction {
    if low == 0 {
        if mid == 0 {
            Instruction::Nop
        } else {
            Instruction::Unimplemented
        }
    } else if low == 1 {
        if mid % 2 == 0 {
            Instruction::Lxi(pair_of(mid / 2))
        } else {
            Instruction::Dad(pair_of(mid / 2))
        }
    } else if low == 2 {
        if mid == 0 {
            Instruction::Stax(RegisterPair::BC)
        } else if mid == 1 {
            Instruction::Ldax(RegisterPair::BC)
        } else if mid == 2 {
            Instruction::Stax(RegisterPair::DE)
        } else if mid == 3 {
            Instruction::Ldax(RegisterPair::DE)
        } else if mid == 4 {
            Instruction::Shld
        } else if mid == 5 {
            Instruction::Lhld
        } else if mid == 6 {
            Instruction::Sta
        } else {
            Instruction::Lda
        }
    } else if low == 3 {
        if mid % 2 == 0 {
            Instruction::Inx(pair_of(mid / 2))
        } else {
            Instruction::Dcx(pair_of(mid / 2))
        }
    } else if low == 4 {
        Instruction::Inr(register_of(mid))
    } else if low == 5 {
        Instruction::Dcr(register_of(mid))
    } else if low == 6 {
        Instruction::Mvi(register_of(mid))
    } else if mid == 0 {
        Instruction::Rlc
    } else if mid == 1 {
        Instruction::Rrc
    } else if mid == 2 {
        Instruction::Ral
    } else if mid == 3 {
        Instruction::Rar
    } else if mid == 4 {
        Instruction::Daa
    } else if mid == 5 {
        Instruction::Cma
    } else if mid == 6 {
        Instruction::Stc
    } else {
        Instruction::Cmc
    }
}

/// Opcodes `11 mmm lll`: control transfer, the stack, immediate arithmetic,
/// ports and interrupt control.
pub open spec fn high_group(mid: int, low: int) -> Instruction {
    if low == 0 {
        Instruction::ReturnIf(condition_of(mid))
    } else if low == 1 {
        if mid % 2 == 0 {
            Instruction::Pop(stack_pair_of(mid / 2))
        } else if mid == 1 {
            Instruction::Ret
        } else if mid == 5 {
            Instruction::Pchl
        } else if mid == 7 {
            Instruction::Sphl
        } else {
            Instruction::Unimplemented
        }
    } else if low == 2 {
        Instruction::JumpIf(condition_of(mid))
    } else if low == 3 {
        if mid == 0 {
            Instruction::Jmp
        } else if mid == 1 {
            Instruction::Unimplemented
        } else if mid == 2 {
            Instruction::Out
        } else if mid == 3 {
            Instruction::In
        } else if mid == 4 {
            Instruction::Xthl
        } else if mid == 5 {
            Instruction::Xchg
        } else if mid == 6 {
            Instruction::Di
        } else {
            Instruction::Ei
        }
    } else if low == 4 {
        Instruction::CallIf(condition_of(mid))
    } else if low == 5 {
        if mid % 2 == 0 {
            Instruction::Push(stack_pair_of(mid / 2))
        } else if mid == 1 {
            Instruction::Call
        } else {
            Instruction::Unimplemented
        }
    } else if low == 6 {
        Instruction::AluImmediate(alu_op_of(mid))
    } else {
        Instruction::Rst(mid as u8)
    }
}

/// The instruction that an opcode byte selects.
///
/// With the byte read as `hh mmm lll`: `01` is the move group (and HLT), `10`
/// the accumulator operations on a register, `00` and `11` the two mixed
/// groups. The twelve opcodes that the processor's manual leaves undefined,
/// and the five moves of a register onto itself listed under
/// `move_handled`, decode to `Unimplemented`.
pub open spec fn instruction_of(opcode: u8) -> Instruction {
    let high = opcode as int / 64;
    let mid = (opcode as int / 8) % 8;
    let low = opcode as int % 8;
    if high == 0 {
        low_group(mid, low)
    } else if high == 1 {
        if mid == 6 && low == 6 {
            Instruction::Hlt
        } else if move_handled(mid, low) {
            Instruction::Mov(register_of(mid), register_of(low))
        } else {
            Instruction::Unimplemented
        }
    } else if high == 2 {
        Instruction::Alu(alu_op_of(mid), register_of(low))
    } else {
        high_group(mid, low)
    }
}

impl Instruction {
    /// Length of the instruction in bytes, opcode included.
    pub open spec fn length(self) -> int {
        match self {
            Instruction::Lxi(_)
            | Instruction::Shld
            | Instruction::Lhld
            | Instruction::Sta
            | Instruction::Lda
            | Instruction::JumpIf(_)
            | Instruction::Jmp
            | Instruction::CallIf(_)
            | Instruction::Call => 3,
            Instruction::Mvi(_)
            | Instruction::AluImmediate(_)
            | Instruction::Out
            | Instruction::In => 2,
            _ => 1,
        }
    }

    /// Length of the instruction in bytes, opcode included.
    pub fn len(&self) -> (n: u16)
        ensures
            n == self.length(),
            1 <= n <= 3,
    {
        match self {
            Instruction::Lxi(_)
            | Instruction::Shld
            | Instruction::Lhld
            | Instruction::Sta
            | Instruction::Lda
            | Instruction::JumpIf(_)
            | Instruction::Jmp
            | Instruction::CallIf(_)
            | Instruction::Call => 3,
            Instruction::Mvi(_)
            | Instruction::AluImmediate(_)
            | Instruction::Out
            | Instruction::In => 2,
            _ => 1,
        }
    }
}

/// Decodes an opcode byte.
pub fn decode(opcode: u8) -> (instruction: Instruction)
    ensures
        instruction == instruction_of(opcode),
{
    match opcode {
        0x00 => Instruction::Nop,
        0x01 => Instruction::Lxi(RegisterPair::BC),
        0x02 => Instruction::Stax(RegisterPair::BC),
        0x03 => Instruction::Inx(RegisterPair::BC),
        0x04 => Instruction::Inr(Register::B),
        0x05 => Instruction::Dcr(Register::B),
        0x06 => Instruction::Mvi(Register::B),
        0x07 => Instruction::Rlc,
        0x08 => Instruction::Unimplemented,
        0x09 => Instruction::Dad(RegisterPair::BC),
        0x0a => Instruction::Ldax(RegisterPair::BC),
        0x0b => Instruction::Dcx(RegisterPair::BC),
        0x0c => Instruction::Inr(Register::C),
        0x0d => Instruction::Dcr(Register::C),
        0x0e => Instruction::Mvi(Register::C),
        0x0f => Instruction::Rrc,
        0x10 => Instruction::Unimplemented,
        0x11 => Instruction::Lxi(RegisterPair::DE),
        0x12 => Instruction::Stax(RegisterPair::DE),
        0x13 => Instruction::Inx(RegisterPair::DE),
        0x14 => Instruction::Inr(Register::D),
        0x15 => Instruction::Dcr(Register::D),
        0x16 => Instruction::Mvi(Register::D),
        0x17 => Instruction::Ral,
        0x18 => Instruction::Unimplemented,
        0x19 => Instruction::Dad(RegisterPair::DE),
        0x1a => Instruction::Ldax(RegisterPair::DE),
        0x1b => Instruction::Dcx(RegisterPair::DE),
        0x1c => Instruction::Inr(Register::E),
        0x1d => Instruction::Dcr(Register::E),
        0x1e => Instruction::Mvi(Register::E),
        0x1f => Instruction::Rar,
        0x20 => Instruction::Unimplemented,
        0x21 => Instruction::Lxi(RegisterPair::HL),
        0x22 => Instruction::Shld,
        0x23 => Instruction::Inx(RegisterPair::HL),
        0x24 => Instruction::Inr(Register::H),
        0x25 => Instruction::Dcr(Register::H),
        0x26 => Instruction::Mvi(Register::H),
        0x27 => Instruction::Daa,
        0x28 => Instruction::Unimplemented,
        0x29 => Instruction::Dad(RegisterPair::HL),
        0x2a => Instruction::Lhld,
        0x2b => Instruction::Dcx(RegisterPair::HL),
        0x2c => Instruction::Inr(Register::L),
        0x2d => Instruction::Dcr(Register::L),
        0x2e => Instruction::Mvi(Register::L),
        0x2f => Instruction::Cma,
        0x30 => Instruction::Unimplemented,
        0x31 => Instruction::Lxi(RegisterPair::SP),
        0x32 => Instruction::Sta,
        0x33 => Instruction::Inx(RegisterPair::SP),
        0x34 => Instruction::Inr(Register::M),
        0x35 => Instruction::Dcr(Register::M),
        0x36 => Instruction::Mvi(Register::M),
        0x37 => Instruction::Stc,
        0x38 => Instruction::Unimplemented,
        0x39 => Instruction::Dad(RegisterPair::SP),
        0x3a => Instruction::Lda,
        0x3b => Instruction::Dcx(RegisterPair::SP),
        0x3c => Instruction::Inr(Register::A),
        0x3d => Instruction::Dcr(Register::A),
        0x3e => Instruction::Mvi(Register::A),
        0x3f => Instruction::Cmc,
        0x40 => Instruction::Unimplemented,
        0x41 => Instruction::Mov(Register::B, Register::C),
        0x42 => Instruction::Mov(Register::B, Register::D),
        0x43 => Instruction::Mov(Register::B, Register::E),
        0x44 => Instruction::Mov(Register::B, Register::H),
        0x45 => Instruction::Mov(Register::B, Register::L),
        0x46 => Instruction::Mov(Register::B, Register::M),
        0x47 => Instruction::Mov(Register::B, Register::A),
        0x48 => Instruction::Mov(Register::C, Register::B),
        0x49 => Instruction::Mov(Register::C, Register::C),
        0x4a => Instruction::Mov(Register::C, Register::D),
        0x4b => Instruction::Mov(Register::C, Register::E),
        0x4c => Instruction::Mov(Register::C, Register::H),
        0x4d => Instruction::Mov(Register::C, Register::L),
        0x4e => Instruction::Mov(Register::C, Register::M),
        0x4f => Instruction::Mov(Register::C, Register::A),
        0x50 => Instruction::Mov(Register::D, Register::B),
        0x51 => Instruction::Mov(Register::D, Register::C),
        0x52 => Instruction::Mov(Register::D, Register::D),
        0x53 => Instruction::Mov(Register::D, Register::E),
        0x54 => Instruction::Mov(Register::D, Register::H),
        0x55 => Instruction::Mov(Register::D, Register::L),
        0x56 => Instruction::Mov(Register::D, Register::M),
        0x57 => Instruction::Mov(Register::D, Register::A),
        0x58 => Instruction::Mov(Register::E, Register::B),
        0x59 => Instruction::Mov(Register::E, Register::C),
        0x5a => Instruction::Mov(Register::E, Register::D),
        0x5b => Instruction::Unimplemented,
        0x5c => Instruction::Mov(Register::E, Register::H),
        0x5d => Instruction::Mov(Register::E, Register::L),
        0x5e => Instruction::Mov(Register::E, Register::M),
        0x5f => Instruction::Mov(Register::E, Register::A),
        0x60 => Instruction::Mov(Register::H, Register::B),
        0x61 => Instruction::Mov(Register::H, Register::C),
        0x62 => Instruction::Mov(Register::H, Register::D),
        0x63 => Instruction::Mov(Register::H, Register::E),
        0x64 => Instruction::Unimplemented,
        0x65 => Instruction::Mov(Register::H, Register::L),
        0x66 => Instruction::Mov(Register::H, Register::M),
        0x67 => Instruction::Mov(Register::H, Register::A),
        0x68 => Instruction::Mov(Register::L, Register::B),
        0x69 => Instruction::Mov(Register::L, Register::C),
        0x6a => Instruction::Mov(Register::L, Register::D),
        0x6b => Instruction::Mov(Register::L, Register::E),
        0x6c => Instruction::Mov(Register::L, Register::H),
        0x6d => Instruction::Unimplemented,
        0x6e => Instruction::Mov(Register::L, Register::M),
        0x6f => Instruction::Mov(Register::L, Register::A),
        0x70 => Instruction::Mov(Register::M, Register::B),
        0x71 => Instruction::Mov(Register::M, Register::C),
        0x72 => Instruction::Mov(Register::M, Register::D),
        0x73 => Instruction::Mov(Register::M, Register::E),
        0x74 => Instruction::Mov(Register::M, Register::H),
        0x75 => Instruction::Mov(Register::M, Register::L),
        0x76 => Instruction::Hlt,
        0x77 => Instruction::Mov(Register::M, Register::A),
        0x78 => Instruction::Mov(Register::A, Register::B),
        0x79 => Instruction::Mov(Register::A, Register::C),
        0x7a => Instruction::Mov(Register::A, Register::D),
        0x7b => Instruction::Mov(Register::A, Register::E),
        0x7c => Instruction::Mov(Register::A, Register::H),
        0x7d => Instruction::Mov(Register::A, Register::L),
        0x7e => Instruction::Mov(Register::A, Register::M),
        0x7f => Instruction::Unimplemented,
        0x80 => Instruction::Alu(AluOp::Add, Register::B),
        0x81 => Instruction::Alu(AluOp::Add, Register::C),
        0x82 => Instruction::Alu(AluOp::Add, Register::D),
        0x83 => Instruction::Alu(AluOp::Add, Register::E),
        0x84 => Instruction::Alu(AluOp::Add, Register::H),
        0x85 => Instruction::Alu(AluOp::Add, Register::L),
        0x86 => Instruction::Alu(AluOp::Add, Register::M),
        0x87 => Instruction::Alu(AluOp::Add, Register::A),
        0x88 => Instruction::Alu(AluOp::Adc, Register::B),
        0x89 => Instruction::Alu(AluOp::Adc, Register::C),
        0x8a => Instruction::Alu(AluOp::Adc, Register::D),
        0x8b => Instruction::Alu(AluOp::Adc, Register::E),
        0x8c => Instruction::Alu(AluOp::Adc, Register::H),
        0x8d => Instruction::Alu(AluOp::Adc, Register::L),
        0x8e => Instruction::Alu(AluOp::Adc, Register::M),
        0x8f => Instruction::Alu(AluOp::Adc, Register::A),
        0x90 => Instruction::Alu(AluOp::Sub, Register::B),
        0x91 => Instruction::Alu(AluOp::Sub, Register::C),
        0x92 => Instruction::Alu(AluOp::Sub, Register::D),
        0x93 => Instruction::Alu(AluOp::Sub, Register::E),
        0x94 => Instruction::Alu(AluOp::Sub, Register::H),
        0x95 => Instruction::Alu(AluOp::Sub, Register::L),
        0x96 => Instruction::Alu(AluOp::Sub, Register::M),
        0x97 => Instruction::Alu(AluOp::Sub, Register::A),
        0x98 => Instruction::Alu(AluOp::Sbb, Register::B),
        0x99 => Instruction::Alu(AluOp::Sbb, Register::C),
        0x9a => Instruction::Alu(AluOp::Sbb, Register::D),
        0x9b => Instruction::Alu(AluOp::Sbb, Register::E),
        0x9c => Instruction::Alu(AluOp::Sbb, Register::H),
        0x9d => Instruction::Alu(AluOp::Sbb, Register::L),
        0x9e => Instruction::Alu(AluOp::Sbb, Register::M),
        0x9f => Instruction::Alu(AluOp::Sbb, Register::A),
        0xa0 => Instruction::Alu(AluOp::And, Register::B),
        0xa1 => Instruction::Alu(AluOp::And, Register::C),
        0xa2 => Instruction::Alu(AluOp::And, Register::D),
        0xa3 => Instruction::Alu(AluOp::And, Register::E),
        0xa4 => Instruction::Alu(AluOp::And, Register::H),
        0xa5 => Instruction::Alu(AluOp::And, Register::L),
        0xa6 => Instruction::Alu(AluOp::And, Register::M),
        0xa7 => Instruction::Alu(AluOp::And, Register::A),
        0xa8 => Instruction::Alu(AluOp::Xor, Register::B),
        0xa9 => Instruction::Alu(AluOp::Xor, Register::C),
        0xaa => Instruction::Alu(AluOp::Xor, Register::D),
        0xab => Instruction::Alu(AluOp::Xor, Register::E),
        0xac => Instruction::Alu(AluOp::Xor, Register::H),
        0xad => Instruction::Alu(AluOp::Xor, Register::L),
        0xae => Instruction::Alu(AluOp::Xor, Register::M),
        0xaf => Instruction::Alu(AluOp::Xor, Register::A),
        0xb0 => Instruction::Alu(AluOp::Or, Register::B),
        0xb1 => Instruction::Alu(AluOp::Or, Register::C),
        0xb2 => Instruction::Alu(AluOp::Or, Register::D),
        0xb3 => Instruction::Alu(AluOp::Or, Register::E),
        0xb4 => Instruction::Alu(AluOp::Or, Register::H),
        0xb5 => Instruction::Alu(AluOp::Or, Register::L),
        0xb6 => Instruction::Alu(AluOp::Or, Register::M),
        0xb7 => Instruction::Alu(AluOp::Or, Register::A),
        0xb8 => Instruction::Alu(AluOp::Compare, Register::B),
        0xb9 => Instruction::Alu(AluOp::Compare, Register::C),
        0xba => Instruction::Alu(AluOp::Compare, Register::D),
        0xbb => Instruction::Alu(AluOp::Compare, Register::E),
        0xbc => Instruction::Alu(AluOp::Compare, Register::H),
        0xbd => Instruction::Alu(AluOp::Compare, Register::L),
        0xbe => Instruction::Alu(AluOp::Compare, Register::M),
        0xbf => Instruction::Alu(AluOp::Compare, Register::A),
        0xc0 => Instruction::ReturnIf(Condition::NotZero),
        0xc1 => Instruction::Pop(StackPair::BC),
        0xc2 => Instruction::JumpIf(Condition::NotZero),
        0xc3 => Instruction::Jmp,
        0xc4 => Instruction::CallIf(Condition::NotZero),
        0xc5 => Instruction::Push(StackPair::BC),
        0xc6 => Instruction::AluImmediate(AluOp::Add),
        0xc7 => Instruction::Rst(0),
        0xc8 => Instruction::ReturnIf(Condition::Zero),
        0xc9 => Instruction::Ret,
        0xca => Instruction::JumpIf(Condition::Zero),
        0xcb => Instruction::Unimplemented,
        0xcc => Instruction::CallIf(Condition::Zero),
        0xcd => Instruction::Call,
        0xce => Instruction::AluImmediate(AluOp::Adc),
        0xcf => Instruction::Rst(1),
        0xd0 => Instruction::ReturnIf(Condition::NoCarry),
        0xd1 => Instruction::Pop(StackPair::DE),
        0xd2 => Instruction::JumpIf(Condition::NoCarry),
        0xd3 => Instruction::Out,
        0xd4 => Instruction::CallIf(Condition::NoCarry),
        0xd5 => Instruction::Push(StackPair::DE),
        0xd6 => Instruction::AluImmediate(AluOp::Sub),
        0xd7 => Instruction::Rst(2),
        0xd8 => Instruction::ReturnIf(Condition::Carry),
        0xd9 => Instruction::Unimplemented,
        0xda => Instruction::JumpIf(Condition::Carry),
        0xdb => Instruction::In,
        0xdc => Instruction::CallIf(Condition::Carry),
        0xdd => Instruction::Unimplemented,
        0xde => Instruction::AluImmediate(AluOp::Sbb),
        0xdf => Instruction::Rst(3),
        0xe0 => Instruction::ReturnIf(Condition::ParityOdd),
        0xe1 => Instruction::Pop(StackPair::HL),
        0xe2 => Instruction::JumpIf(Condition::ParityOdd),
        0xe3 => Instruction::Xthl,
        0xe4 => Instruction::CallIf(Condition::ParityOdd),
        0xe5 => Instruction::Push(StackPair::HL),
        0xe6 => Instruction::AluImmediate(AluOp::And),
        0xe7 => Instruction::Rst(4),
        0xe8 => Instruction::ReturnIf(Condition::ParityEven),
        0xe9 => Instruction::Pchl,
        0xea => Instruction::JumpIf(Condition::ParityEven),
        0xeb => Instruction::Xchg,
        0xec => Instruction::CallIf(Condition::ParityEven),
        0xed => Instruction::Unimplemented,
        0xee => Instruction::AluImmediate(AluOp::Xor),
        0xef => Instruction::Rst(5),
        0xf0 => Instruction::ReturnIf(Condition::Plus),
        0xf1 => Instruction::Pop(StackPair::PSW),
        0xf2 => Instruction::JumpIf(Condition::Plus),
        0xf3 => Instruction::Di,
        0xf4 => Instruction::CallIf(Condition::Plus),
        0xf5 => Instruction::Push(StackPair::PSW),
        0xf6 => Instruction::AluImmediate(AluOp::Or),
        0xf7 => Instruction::Rst(6),
        0xf8 => Instruction::ReturnIf(Condition::Minus),
        0xf9 => Instruction::Sphl,
        0xfa => Instruction::JumpIf(Condition::Minus),
        0xfb => Instruction::Ei,
        0xfc => Instruction::CallIf(Condition::Minus),
        0xfd => Instruction::Unimplemented,
        0xfe => Instruction::AluImmediate(AluOp::Compare),
        0xff => Instruction::Rst(7),
    }
}

} // verus!
