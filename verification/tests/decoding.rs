use intel8080::cycles::get_cycles;
use intel8080::instruction::{
    decode, AluOp, Condition, Instruction, Register, RegisterPair, StackPair,
};

#[test]
fn undefined_opcodes_have_no_handler() {
    for op in [0x08u8, 0x10, 0x18, 0x20, 0x28, 0x30, 0x38, 0xcb, 0xd9, 0xdd, 0xed, 0xfd] {
        assert_eq!(decode(op), Instruction::Unimplemented, "opcode {:#04x}", op);
    }
}

#[test]
fn self_moves_without_handler() {
    for op in [0x40u8, 0x5b, 0x64, 0x6d, 0x7f] {
        assert_eq!(decode(op), Instruction::Unimplemented, "opcode {:#04x}", op);
    }
    assert_eq!(decode(0x49), Instruction::Mov(Register::C, Register::C));
    assert_eq!(decode(0x52), Instruction::Mov(Register::D, Register::D));
}

#[test]
fn exactly_seventeen_opcodes_have_no_handler() {
    let mut count = 0;
    for op in 0..=255u8 {
        if decode(op) == Instruction::Unimplemented {
            count += 1;
        }
    }
    assert_eq!(count, 17);
}

#[test]
fn decode_of_chosen_opcodes() {
    assert_eq!(decode(0x00), Instruction::Nop);
    assert_eq!(decode(0x01), Instruction::Lxi(RegisterPair::BC));
    assert_eq!(decode(0x31), Instruction::Lxi(RegisterPair::SP));
    assert_eq!(decode(0x02), Instruction::Stax(RegisterPair::BC));
    assert_eq!(decode(0x12), Instruction::Stax(RegisterPair::DE));
    assert_eq!(decode(0x0a), Instruction::Ldax(RegisterPair::BC));
    assert_eq!(decode(0x1a), Instruction::Ldax(RegisterPair::DE));
    assert_eq!(decode(0x22), Instruction::Shld);
    assert_eq!(decode(0x2a), Instruction::Lhld);
    assert_eq!(decode(0x32), Instruction::Sta);
    assert_eq!(decode(0x3a), Instruction::Lda);
    assert_eq!(decode(0x23), Instruction::Inx(RegisterPair::HL));
    assert_eq!(decode(0x3b), Instruction::Dcx(RegisterPair::SP));
    assert_eq!(decode(0x34), Instruction::Inr(Register::M));
    assert_eq!(decode(0x3d), Instruction::Dcr(Register::A));
    assert_eq!(decode(0x36), Instruction::Mvi(Register::M));
    assert_eq!(decode(0x09), Instruction::Dad(RegisterPair::BC));
    assert_eq!(decode(0x39), Instruction::Dad(RegisterPair::SP));
    assert_eq!(decode(0x07), Instruction::Rlc);
    assert_eq!(decode(0x0f), Instruction::Rrc);
    assert_eq!(decode(0x17), Instruction::Ral);
    assert_eq!(decode(0x1f), Instruction::Rar);
    assert_eq!(decode(0x27), Instruction::Daa);
    assert_eq!(decode(0x2f), Instruction::Cma);
    assert_eq!(decode(0x37), Instruction::Stc);
    assert_eq!(decode(0x3f), Instruction::Cmc);
    assert_eq!(decode(0x41), Instruction::Mov(Register::B, Register::C));
    assert_eq!(decode(0x77), Instruction::Mov(Register::M, Register::A));
    assert_eq!(decode(0x7e), Instruction::Mov(Register::A, Register::M));
    assert_eq!(decode(0x76), Instruction::Hlt);
    assert_eq!(decode(0x80), Instruction::Alu(AluOp::Add, Register::B));
    assert_eq!(decode(0x8e), Instruction::Alu(AluOp::Adc, Register::M));
    assert_eq!(decode(0x97), Instruction::Alu(AluOp::Sub, Register::A));
    assert_eq!(decode(0x9b), Instruction::Alu(AluOp::Sbb, Register::E));
    assert_eq!(decode(0xa4), Instruction::Alu(AluOp::And, Register::H));
    assert_eq!(decode(0xad), Instruction::Alu(AluOp::Xor, Register::L));
    assert_eq!(decode(0xb2), Instruction::Alu(AluOp::Or, Register::D));
    assert_eq!(decode(0xb9), Instruction::Alu(AluOp::Compare, Register::C));
    assert_eq!(decode(0xc0), Instruction::ReturnIf(Condition::NotZero));
    assert_eq!(decode(0xc8), Instruction::ReturnIf(Condition::Zero));
    assert_eq!(decode(0xd0), Instruction::ReturnIf(Condition::NoCarry));
    assert_eq!(decode(0xd8), Instruction::ReturnIf(Condition::Carry));
    assert_eq!(decode(0xe0), Instruction::ReturnIf(Condition::ParityOdd));
    assert_eq!(decode(0xe8), Instruction::ReturnIf(Condition::ParityEven));
    assert_eq!(decode(0xf0), Instruction::ReturnIf(Condition::Plus));
    assert_eq!(decode(0xf8), Instruction::ReturnIf(Condition::Minus));
    assert_eq!(decode(0xc9), Instruction::Ret);
    assert_eq!(decode(0xc1), Instruction::Pop(StackPair::BC));
    assert_eq!(decode(0xf1), Instruction::Pop(StackPair::PSW));
    assert_eq!(decode(0xd5), Instruction::Push(StackPair::DE));
    assert_eq!(decode(0xe5), Instruction::Push(StackPair::HL));
    assert_eq!(decode(0xc2), Instruction::JumpIf(Condition::NotZero));
    assert_eq!(decode(0xfa), Instruction::JumpIf(Condition::Minus));
    assert_eq!(decode(0xc3), Instruction::Jmp);
    assert_eq!(decode(0xe4), Instruction::CallIf(Condition::ParityOdd));
    assert_eq!(decode(0xcd), Instruction::Call);
    assert_eq!(decode(0xc6), Instruction::AluImmediate(AluOp::Add));
    assert_eq!(decode(0xce), Instruction::AluImmediate(AluOp::Adc));
    assert_eq!(decode(0xd6), Instruction::AluImmediate(AluOp::Sub));
    assert_eq!(decode(0xde), Instruction::AluImmediate(AluOp::Sbb));
    assert_eq!(decode(0xe6), Instruction::AluImmediate(AluOp::And));
    assert_eq!(decode(0xee), Instruction::AluImmediate(AluOp::Xor));
    assert_eq!(decode(0xf6), Instruction::AluImmediate(AluOp::Or));
    assert_eq!(decode(0xfe), Instruction::AluImmediate(AluOp::Compare));
    assert_eq!(decode(0xc7), Instruction::Rst(0));
    assert_eq!(decode(0xff), Instruction::Rst(7));
    assert_eq!(decode(0xd3), Instruction::Out);
    assert_eq!(decode(0xdb), Instruction::In);
    assert_eq!(decode(0xe3), Instruction::Xthl);
    assert_eq!(decode(0xeb), Instruction::Xchg);
    assert_eq!(decode(0xe9), Instruction::Pchl);
    assert_eq!(decode(0xf9), Instruction::Sphl);
    assert_eq!(decode(0xf3), Instruction::Di);
    assert_eq!(decode(0xfb), Instruction::Ei);
}

#[test]
fn instruction_lengths() {
    assert_eq!(decode(0x00).len(), 1);
    assert_eq!(decode(0x06).len(), 2);
    assert_eq!(decode(0xc6).len(), 2);
    assert_eq!(decode(0xd3).len(), 2);
    assert_eq!(decode(0xdb).len(), 2);
    assert_eq!(decode(0x01).len(), 3);
    assert_eq!(decode(0x22).len(), 3);
    assert_eq!(decode(0x2a).len(), 3);
    assert_eq!(decode(0x32).len(), 3);
    assert_eq!(decode(0x3a).len(), 3);
    assert_eq!(decode(0xc3).len(), 3);
    assert_eq!(decode(0xc2).len(), 3);
    assert_eq!(decode(0xcd).len(), 3);
    assert_eq!(decode(0xc4).len(), 3);
    assert_eq!(decode(0xc9).len(), 1);
    assert_eq!(decode(0xc7).len(), 1);
    assert_eq!(decode(0x08).len(), 1);
}

#[test]
fn cycle_costs_of_chosen_opcodes() {
    assert_eq!(get_cycles(0x00), 4);
    assert_eq!(get_cycles(0x01), 10);
    assert_eq!(get_cycles(0x22), 16);
    assert_eq!(get_cycles(0x32), 13);
    assert_eq!(get_cycles(0x34), 10);
    assert_eq!(get_cycles(0x41), 5);
    assert_eq!(get_cycles(0x46), 7);
    assert_eq!(get_cycles(0x76), 7);
    assert_eq!(get_cycles(0x80), 4);
    assert_eq!(get_cycles(0x86), 7);
    assert_eq!(get_cycles(0xc0), 11);
    assert_eq!(get_cycles(0xc3), 10);
    assert_eq!(get_cycles(0xc4), 17);
    assert_eq!(get_cycles(0xcd), 17);
    assert_eq!(get_cycles(0xc9), 10);
    assert_eq!(get_cycles(0xe3), 18);
    assert_eq!(get_cycles(0xe9), 5);
    assert_eq!(get_cycles(0xeb), 5);
    assert_eq!(get_cycles(0xf9), 5);
    assert_eq!(get_cycles(0xfb), 4);
    assert_eq!(get_cycles(0xff), 11);
}

#[test]
fn cycle_costs_add_up_and_stay_in_range() {
    let mut total: u32 = 0;
    for op in 0..=255u8 {
        let c = get_cycles(op);
        assert!(c >= 4 && c <= 18, "opcode {:#04x}", op);
        total += c as u32;
    }
    assert_eq!(total, 1750);
}
