//! The instruction interpreter: what one instruction does to the machine.
//!
//! `step_spec` is the semantics of a single step as a function on `Machine`;
//! `step` executes it on the state and is proved to compute exactly that.
//! Instructions are fetched from the program image, data is read from and
//! written to the machine's memory. Eight- and sixteen-bit results wrap.
use crate::condition_codes::{
    add_flags, aux_carry_of, step_flags, sub_flags, widened_difference, ConditionCodes,
};
use crate::cycles::{cycle_table, get_cycles, TAKEN_BRANCH_CYCLES};
use crate::instruction::{
    decode, instruction_of, AluOp, Condition, Instruction, Register, RegisterPair, StackPair,
};
use crate::intel8080_state::{
    add16, add8, high, low, make_word, sub16, sub8, word, word_high, word_low, wrap16, wrap8,
    Machine, StateIntel8080,
};
use vstd::prelude::*;

verus! {

/// A value written to one of the two sound ports, for the audio side.
#[derive(Debug, Clone, Copy, PartialEq, Eq, Structural)]
pub struct PortEvent {
    pub port: u8,
    pub value: u8,
}

/// How a step ended.
#[derive(Debug, Clone, Copy, PartialEq, Eq, Structural)]
pub enum StepOutcome {
    /// The instruction was executed.
    Continue,
    /// The instruction is HLT; the machine is left as it was.
    Halted,
    /// The opcode has no handler, or it is an OUT to a port that the board
    /// does not have; the machine is left as it was.
    Unimplemented(u8),
}

/// What a step reports besides the new machine state.
#[derive(Debug, Clone, Copy, PartialEq, Eq, Structural)]
pub struct StepResult {
    pub outcome: StepOutcome,
    /// Clock cycles spent; zero unless the outcome is `Continue`.
    pub cycles: u32,
    /// Whether the instruction set the program counter itself, as a jump,
    /// call or return that is taken does, instead of moving on to the
    /// instruction that follows it.
    pub jumped: bool,
    /// The sound-port write of this step, if it made one.
    pub event: Option<PortEvent>,
}

/// A step in the model: the machine after it, and what it reports.
pub struct Step {
    pub machine: Machine,
    pub result: StepResult,
}

impl Machine {
    /// The value of an eight-bit operand; `M` is the byte that H:L addresses.
    pub open spec fn reg(self, r: Register) -> u8 {
        match r {
            Register::B => self.b,
            Register::C => self.c,
            Register::D => self.d,
            Register::E => self.e,
            Register::H => self.h,
            Register::L => self.l,
            Register::M => self.read(self.hl()),
            Register::A => self.a,
        }
    }

    /// The state with `v` written to an eight-bit operand.
    pub open spec fn with_reg(self, r: Register, v: u8) -> Machine {
        match r {
            Register::B => Machine { b: v, ..self },
            Register::C => Machine { c: v, ..self },
            Register::D => Machine { d: v, ..self },
            Register::E => Machine { e: v, ..self },
            Register::H => Machine { h: v, ..self },
            Register::L => Machine { l: v, ..self },
            Register::M => self.write(self.hl(), v),
            Register::A => Machine { a: v, ..self },
        }
    }

    /// The value of a sixteen-bit operand.
    pub open spec fn pair(self, p: RegisterPair) -> u16 {
        match p {
            RegisterPair::BC => self.bc(),
            RegisterPair::DE => self.de(),
            RegisterPair::HL => self.hl(),
            RegisterPair::SP => self.sp,
        }
    }

    /// The state with `v` written to a sixteen-bit operand.
    pub open spec fn with_pair(self, p: RegisterPair, v: u16) -> Machine {
        match p {
            RegisterPair::BC => self.with_bc(v),
            RegisterPair::DE => self.with_de(v),
            RegisterPair::HL => self.with_hl(v),
            RegisterPair::SP => Machine { sp: v, ..self },
        }
    }

    /// Whether the condition holds of the flags.
    pub open spec fn holds(self, c: Condition) -> bool {
        match c {
            Condition::NotZero => !self.condition.z,
            Condition::Zero => self.condition.z,
            Condition::NoCarry => !self.condition.cy,
            Condition::Carry => self.condition.cy,
            Condition::ParityOdd => !self.condition.p,
            Condition::ParityEven => self.condition.p,
            Condition::Plus => !self.condition.s,
            Condition::Minus => self.condition.s,
        }
    }

    /// The state with the flags replaced.
    pub open spec fn with_flags(self, flags: ConditionCodes) -> Machine {
        Machine { condition: flags, ..self }
    }

    /// The state with only the carry flag replaced.
    pub open spec fn with_carry(self, cy: bool) -> Machine {
        Machine { condition: ConditionCodes { cy: cy, ..self.condition }, ..self }
    }

    /// The state with the accumulator replaced.
    pub open spec fn with_a(self, v: u8) -> Machine {
        Machine { a: v, ..self }
    }

    /// The state with the program counter replaced.
    pub open spec fn at(self, pc: u16) -> Machine {
        Machine { pc: pc, ..self }
    }

    /// The word that PUSH stores for a pair.
    pub open spec fn stack_pair(self, p: StackPair) -> u16 {
        match p {
            StackPair::BC => self.bc(),
            StackPair::DE => self.de(),
            StackPair::HL => self.hl(),
            StackPair::PSW => word(self.a, psw_byte(self.condition)),
        }
    }

    /// The state with a pair loaded from the word that POP read.
    pub open spec fn with_stack_pair(self, p: StackPair, v: u16) -> Machine {
        match p {
            StackPair::BC => self.with_bc(v),
            StackPair::DE => self.with_de(v),
            StackPair::HL => self.with_hl(v),
            StackPair::PSW => Machine {
                a: high(v),
                condition: flags_of_psw(self.condition, low(v)),
                ..self
            },
        }
    }
}

/// One if the flag is set, zero if not.
pub open spec fn bit(flag: bool) -> int {
    if flag {
        1
    } else {
        0
    }
}

/// The flags as PUSH PSW stores them: zero in bit 0, sign in bit 1, parity
/// in bit 2, carry in bit 3, auxiliary carry in bit 4.
#[verifier::opaque]
pub open spec fn psw_byte(c: ConditionCodes) -> u8 {
    (bit(c.z) + 2 * bit(c.s) + 4 * bit(c.p) + 8 * bit(c.cy) + 16 * bit(c.ac)) as u8
}

/// The flags as POP PSW loads them from a byte; the inverse of `psw_byte`
/// on the five low bits.
#[verifier::opaque]
pub open spec fn flags_of_psw(c: ConditionCodes, byte: u8) -> ConditionCodes {
    ConditionCodes {
        z: byte as int % 2 == 1,
        s: (byte as int / 2) % 2 == 1,
        p: (byte as int / 4) % 2 == 1,
        cy: (byte as int / 8) % 2 == 1,
        ac: (byte as int / 16) % 2 == 1,
        pad: c.pad,
    }
}

/// The state after an accumulator operation on `operand`.
///
/// ADD and ADC store the sum modulo 256 and set all five flags from the
/// widened sum. SUB, SBB and CMP set them from the widened difference, so
/// that carry is the borrow; CMP keeps the accumulator. SBB subtracts the
/// operand plus carry, reduced modulo 256, in one subtraction. The logical
/// operations clear carry; AND clears auxiliary carry too, as XOR does on a
/// register operand.
#[verifier::opaque]
pub open spec fn alu(m: Machine, op: AluOp, operand: u8, immediate: bool) -> Machine {
    let c = m.condition;
    match op {
        AluOp::Add => {
            let v = m.a as int + operand as int;
            m.with_a(wrap8(v)).with_flags(add_flags(c, v))
        },
        AluOp::Adc => {
            let v = m.a as int + operand as int + bit(c.cy);
            m.with_a(wrap8(v)).with_flags(add_flags(c, v))
        },
        AluOp::Sub => {
            let v = widened_difference(m.a as int, operand as int);
            m.with_a(wrap8(v)).with_flags(sub_flags(c, v))
        },
        AluOp::Sbb => {
            let v = widened_difference(m.a as int, wrap8(operand as int + bit(c.cy)) as int);
            m.with_a(wrap8(v)).with_flags(sub_flags(c, v))
        },
        AluOp::And => {
            let x = m.a & operand;
            m.with_a(x).with_flags(
                ConditionCodes { cy: false, ac: false, ..step_flags(c, x as int) },
            )
        },
        AluOp::Xor => {
            let x = m.a ^ operand;
            m.with_a(x).with_flags(
                ConditionCodes {
                    cy: false,
                    ac: immediate && aux_carry_of(x as int),
                    ..step_flags(c, x as int)
                },
            )
        },
        AluOp::Or => {
            let x = m.a | operand;
            m.with_a(x).with_flags(ConditionCodes { cy: false, ..step_flags(c, x as int) })
        },
        AluOp::Compare => {
            let v = widened_difference(m.a as int, operand as int);
            m.with_flags(sub_flags(c, v))
        },
    }
}

/// The state after the decimal adjustment of the accumulator: six is added
/// when the low digit exceeds nine; then `0x60` is added, and carry set,
/// when the high digit exceeds nine or carry was set.
#[verifier::opaque]
pub open spec fn decimal_adjusted(m: Machine) -> Machine {
    let a1 = if m.a as int % 16 > 9 {
        wrap8(m.a as int + 6)
    } else {
        m.a
    };
    let adjust = a1 >= 0xa0 || m.condition.cy;
    let a2 = if adjust {
        wrap8(a1 as int + 0x60)
    } else {
        a1
    };
    m.with_a(a2).with_flags(ConditionCodes { cy: adjust, ..step_flags(m.condition, a2 as int) })
}

/// The accumulator rotated left by one bit; bit 7 comes back in as bit 0.
#[verifier::opaque]
pub open spec fn rotated_left(a: u8) -> u8 {
    wrap8(a as int * 2 + a as int / 128)
}

/// The accumulator rotated right by one bit; bit 0 comes back in as bit 7.
#[verifier::opaque]
pub open spec fn rotated_right(a: u8) -> u8 {
    (a as int / 2 + (a as int % 2) * 128) as u8
}

/// The accumulator rotated left by one bit through the carry: the carry
/// comes in as bit 0.
#[verifier::opaque]
pub open spec fn rotated_left_through(a: u8, carry: bool) -> u8 {
    wrap8(a as int * 2 + bit(carry))
}

/// The accumulator rotated right by one bit through the carry: the carry
/// comes in as bit 7.
#[verifier::opaque]
pub open spec fn rotated_right_through(a: u8, carry: bool) -> u8 {
    (a as int / 2 + bit(carry) * 128) as u8
}

/// What IN reads from a port: a constant on port 0, the input latches on
/// ports 1 and 2, the window of the shift register on port 3, zero
/// elsewhere.
#[verifier::opaque]
pub open spec fn port_input(m: Machine, port: u8) -> u8 {
    if port == 0 {
        0x0f
    } else if port == 1 {
        m.input_1
    } else if port == 2 {
        m.input_2
    } else if port == 3 {
        low(word(m.shift_1, m.shift_0) >> ((8 - m.shift_offset) as u16))
    } else {
        0
    }
}

/// Whether the board has an output port of this number.
pub open spec fn port_known(port: u8) -> bool {
    2 <= port <= 6
}

/// The state after OUT wrote `value` to a known port: port 2 sets the shift
/// offset, port 4 shifts a byte into the shift register, ports 3 and 5 latch
/// the value for the audio side, port 6 does nothing.
#[verifier::opaque]
pub open spec fn port_output(m: Machine, port: u8, value: u8) -> Machine {
    if port == 2 {
        Machine { shift_offset: value & 0x7, ..m }
    } else if port == 3 {
        Machine { output_3: value, ..m }
    } else if port == 4 {
        Machine { shift_0: m.shift_1, shift_1: value, ..m }
    } else if port == 5 {
        Machine { output_5: value, ..m }
    } else {
        m
    }
}

/// The sound-port write that an instruction makes, if any.
pub open spec fn port_event(m: Machine, i: Instruction, port: u8) -> Option<PortEvent> {
    if i == Instruction::Out && (port == 3 || port == 5) {
        Some(PortEvent { port: port, value: m.a })
    } else {
        None
    }
}

/// Whether the instruction is a conditional call or return whose condition
/// holds.
pub open spec fn branch_taken(m: Machine, i: Instruction) -> bool {
    match i {
        Instruction::CallIf(c) => m.holds(c),
        Instruction::ReturnIf(c) => m.holds(c),
        _ => false,
    }
}

/// Whether the instruction sets the program counter itself: an
/// unconditional transfer of control, or a conditional one whose condition
/// holds.
pub open spec fn jumps(m: Machine, i: Instruction) -> bool {
    match i {
        Instruction::JumpIf(c) => m.holds(c),
        Instruction::CallIf(c) => m.holds(c),
        Instruction::ReturnIf(c) => m.holds(c),
        Instruction::Jmp
        | Instruction::Call
        | Instruction::Ret
        | Instruction::Rst(_)
        | Instruction::Pchl => true,
        _ => false,
    }
}

/// Clock cycles of an executed instruction: the cost of its opcode, and six
/// more for a conditional call or return that is taken.
pub open spec fn step_cycles(m: Machine, opcode: u8, i: Instruction) -> u32 {
    (cycle_table()[opcode as int] + if branch_taken(m, i) {
        TAKEN_BRANCH_CYCLES as int
    } else {
        0
    }) as u32
}

/// The machine after the instruction `i` with immediate bytes `b1` and `b2`.
///
/// The program counter moves past the instruction unless the instruction
/// transfers control. Calls and RST push the address of the following
/// instruction; returns pop the new program counter.
#[verifier::opaque]
pub open spec fn execute(m: Machine, i: Instruction, b1: u8, b2: u8) -> Machine {
    let next = wrap16(m.pc + i.length());
    let imm = word(b2, b1);
    match i {
        Instruction::Nop => m.at(next),
        Instruction::Lxi(p) => m.with_pair(p, imm).at(next),
        Instruction::Stax(p) => m.write(m.pair(p), m.a).at(next),
        Instruction::Ldax(p) => m.with_a(m.read(m.pair(p))).at(next),
        Instruction::Shld => m.write_word(imm, m.hl()).at(next),
        Instruction::Lhld => m.with_hl(m.read_word(imm)).at(next),
        Instruction::Sta => m.write(imm, m.a).at(next),
        Instruction::Lda => m.with_a(m.read(imm)).at(next),
        Instruction::Inx(p) => m.with_pair(p, wrap16(m.pair(p) + 1)).at(next),
        Instruction::Dcx(p) => m.with_pair(p, wrap16(m.pair(p) - 1)).at(next),
        Instruction::Inr(r) => {
            let v = wrap8(m.reg(r) + 1);
            m.with_reg(r, v).with_flags(step_flags(m.condition, v as int)).at(next)
        },
        Instruction::Dcr(r) => {
            let v = wrap8(m.reg(r) - 1);
            m.with_reg(r, v).with_flags(step_flags(m.condition, v as int)).at(next)
        },
        Instruction::Mvi(r) => m.with_reg(r, b1).at(next),
        Instruction::Dad(p) => {
            let sum = m.hl() as int + m.pair(p) as int;
            m.with_hl(wrap16(sum)).with_carry(sum > 0xffff).at(next)
        },
        Instruction::Rlc => m.with_a(rotated_left(m.a)).with_carry(m.a >= 128).at(next),
        Instruction::Rrc => m.with_a(rotated_right(m.a)).with_carry(m.a % 2 == 1).at(next),
        Instruction::Ral => m.with_a(rotated_left_through(m.a, m.condition.cy)).with_carry(
            m.a >= 128,
        ).at(next),
        Instruction::Rar => m.with_a(rotated_right_through(m.a, m.condition.cy)).with_carry(
            m.a % 2 == 1,
        ).at(next),
        Instruction::Daa => decimal_adjusted(m).at(next),
        Instruction::Cma => m.with_a(!m.a).at(next),
        Instruction::Stc => m.with_carry(true).at(next),
        Instruction::Cmc => m.with_carry(!m.condition.cy).at(next),
        Instruction::Mov(dst, src) => m.with_reg(dst, m.reg(src)).at(next),
        Instruction::Hlt => m,
        Instruction::Alu(op, r) => alu(m, op, m.reg(r), false).at(next),
        Instruction::AluImmediate(op) => alu(m, op, b1, true).at(next),
        Instruction::ReturnIf(c) => if m.holds(c) {
            m.popped().at(m.stack_top())
        } else {
            m.at(next)
        },
        Instruction::Ret => m.popped().at(m.stack_top()),
        Instruction::Pop(p) => m.with_stack_pair(p, m.stack_top()).popped().at(next),
        Instruction::Push(p) => m.pushed(m.stack_pair(p)).at(next),
        Instruction::JumpIf(c) => if m.holds(c) {
            m.at(imm)
        } else {
            m.at(next)
        },
        Instruction::Jmp => m.at(imm),
        Instruction::CallIf(c) => if m.holds(c) {
            m.pushed(next).at(imm)
        } else {
            m.at(next)
        },
        Instruction::Call => m.pushed(next).at(imm),
        Instruction::Rst(n) => m.pushed(next).at((8 * n) as u16),
        Instruction::Out => port_output(m, b1, m.a).at(next),
        Instruction::In => m.with_a(port_input(m, b1)).at(next),
        Instruction::Xthl => m.write_word(m.sp, m.hl()).with_hl(m.read_word(m.sp)).at(next),
        Instruction::Xchg => m.with_de(m.hl()).with_hl(m.de()).at(next),
        Instruction::Pchl => m.at(m.hl()),
        Instruction::Sphl => Machine { sp: m.hl(), ..m }.at(next),
        Instruction::Di => Machine { interrupts: false, ..m }.at(next),
        Instruction::Ei => Machine { interrupts: true, ..m }.at(next),
        Instruction::Unimplemented => m,
    }
}

/// Whether the instruction that starts at `pc` lies within the program
/// image, opcode and immediate bytes.
pub open spec fn instruction_in_image(rom: Seq<u8>, pc: u16) -> bool {
    pc < rom.len() && pc + instruction_of(rom[pc as int]).length() <= rom.len()
}

/// The byte of the program image at offset `k` from `pc`, or zero beyond the
/// image.
pub open spec fn image_byte(rom: Seq<u8>, pc: u16, k: int) -> u8 {
    if pc + k < rom.len() {
        rom[pc + k]
    } else {
        0
    }
}

/// Whether the instruction stops the run instead of executing: HLT, an
/// opcode without a handler, or OUT to a port that the board does not have.
pub open spec fn stops(i: Instruction, b1: u8) -> bool {
    i == Instruction::Hlt || i == Instruction::Unimplemented || (i == Instruction::Out
        && !port_known(b1))
}

/// The opcode at the program counter.
pub open spec fn opcode_at(m: Machine, rom: Seq<u8>) -> u8 {
    rom[m.pc as int]
}

/// The address formed by the two immediate bytes at the program counter,
/// low byte first.
pub open spec fn immediate_word(m: Machine, rom: Seq<u8>) -> u16 {
    word(image_byte(rom, m.pc, 2), image_byte(rom, m.pc, 1))
}

/// One step of the machine on the program image `rom`: the instruction at
/// the program counter is decoded and executed.
pub open spec fn step_spec(m: Machine, rom: Seq<u8>) -> Step {
    let opcode = rom[m.pc as int];
    let i = instruction_of(opcode);
    let b1 = image_byte(rom, m.pc, 1);
    let b2 = image_byte(rom, m.pc, 2);
    if stops(i, b1) {
        Step {
            machine: m,
            result: StepResult {
                outcome: if i == Instruction::Hlt {
                    StepOutcome::Halted
                } else {
                    StepOutcome::Unimplemented(opcode)
                },
                cycles: 0,
                jumped: false,
                event: None,
            },
        }
    } else {
        Step {
            machine: execute(m, i, b1, b2),
            result: StepResult {
                outcome: StepOutcome::Continue,
                cycles: step_cycles(m, opcode, i),
                jumped: jumps(m, i),
                event: port_event(m, i, b1),
            },
        }
    }
}

impl StateIntel8080 {
    /// Reads an eight-bit operand.
    pub fn reg(&self, r: Register) -> (v: u8)
        requires
            self.wf(),
        ensures
            v == self@.reg(r),
    {
        match r {
            Register::B => self.b,
            Register::C => self.c,
            Register::D => self.d,
            Register::E => self.e,
            Register::H => self.h,
            Register::L => self.l,
            Register::M => self.read(self.hl()),
            Register::A => self.a,
        }
    }

    /// Writes an eight-bit operand.
    pub fn set_reg(&mut self, r: Register, v: u8)
        requires
            old(self).wf(),
        ensures
            final(self)@ == old(self)@.with_reg(r, v),
            final(self).wf(),
    {
        match r {
            Register::B => {
                self.b = v;
            },
            Register::C => {
                self.c = v;
            },
            Register::D => {
                self.d = v;
            },
            Register::E => {
                self.e = v;
            },
            Register::H => {
                self.h = v;
            },
            Register::L => {
                self.l = v;
            },
            Register::M => {
                let addr = self.hl();
                self.write(addr, v);
            },
            Register::A => {
                self.a = v;
            },
        }
    }

    /// Reads a sixteen-bit operand.
    pub fn pair(&self, p: RegisterPair) -> (v: u16)
        ensures
            v == self@.pair(p),
    {
        match p {
            RegisterPair::BC => self.bc(),
            RegisterPair::DE => self.de(),
            RegisterPair::HL => self.hl(),
            RegisterPair::SP => self.sp,
        }
    }

    /// Writes a sixteen-bit operand.
    pub fn set_pair(&mut self, p: RegisterPair, v: u16)
        ensures
            final(self)@ == old(self)@.with_pair(p, v),
    {
        match p {
            RegisterPair::BC => self.set_bc(v),
            RegisterPair::DE => self.set_de(v),
            RegisterPair::HL => self.set_hl(v),
            RegisterPair::SP => {
                self.sp = v;
            },
        }
    }

    /// Tests a condition against the flags.
    pub fn condition_holds(&self, c: Condition) -> (holds: bool)
        ensures
            holds == self@.holds(c),
    {
        match c {
            Condition::NotZero => !self.condition.z,
            Condition::Zero => self.condition.z,
            Condition::NoCarry => !self.condition.cy,
            Condition::Carry => self.condition.cy,
            Condition::ParityOdd => !self.condition.p,
            Condition::ParityEven => self.condition.p,
            Condition::Plus => !self.condition.s,
            Condition::Minus => self.condition.s,
        }
    }

    /// The flags packed into the byte that PUSH PSW stores.
    pub fn flags_byte(&self) -> (byte: u8)
        ensures
            byte == psw_byte(self.condition),
    {
        reveal(psw_byte);
        let mut byte: u8 = 0;
        if self.condition.z {
            byte = byte + 1;
        }
        if self.condition.s {
            byte = byte + 2;
        }
        if self.condition.p {
            byte = byte + 4;
        }
        if self.condition.cy {
            byte = byte + 8;
        }
        if self.condition.ac {
            byte = byte + 16;
        }
        byte
    }

    /// Loads the flags from the byte that POP PSW read.
    pub fn set_flags_byte(&mut self, byte: u8)
        ensures
            final(self)@ == old(self)@.with_flags(flags_of_psw(old(self).condition, byte)),
    {
        reveal(flags_of_psw);
        self.condition.z = byte % 2 == 1;
        self.condition.s = (byte / 2) % 2 == 1;
        self.condition.p = (byte / 4) % 2 == 1;
        self.condition.cy = (byte / 8) % 2 == 1;
        self.condition.ac = (byte / 16) % 2 == 1;
    }

    /// The word that PUSH stores for a pair.
    pub fn stack_pair(&self, p: StackPair) -> (v: u16)
        ensures
            v == self@.stack_pair(p),
    {
        match p {
            StackPair::BC => self.bc(),
            StackPair::DE => self.de(),
            StackPair::HL => self.hl(),
            StackPair::PSW => make_word(self.a, self.flags_byte()),
        }
    }

    /// Loads a pair from the word that POP read.
    pub fn set_stack_pair(&mut self, p: StackPair, v: u16)
        ensures
            final(self)@ == old(self)@.with_stack_pair(p, v),
    {
        match p {
            StackPair::BC => self.set_bc(v),
            StackPair::DE => self.set_de(v),
            StackPair::HL => self.set_hl(v),
            StackPair::PSW => {
                self.a = word_high(v);
                self.set_flags_byte(word_low(v));
            },
        }
    }

    /// Performs an accumulator operation on `operand`; `immediate` tells
    /// whether the operand is the immediate byte.
    pub fn alu(&mut self, op: AluOp, operand: u8, immediate: bool)
        ensures
            final(self)@ == alu(old(self)@, op, operand, immediate),
            old(self).wf() ==> final(self).wf(),
    {
        reveal(alu);
        let carry: u8 = if self.condition.cy {
            1
        } else {
            0
        };
        match op {
            AluOp::Add => {
                let v: u16 = self.a as u16 + operand as u16;
                self.condition.set_add_flags(v);
                self.a = word_low(v);
            },
            AluOp::Adc => {
                let v: u16 = self.a as u16 + operand as u16 + carry as u16;
                self.condition.set_add_flags(v);
                self.a = word_low(v);
            },
            AluOp::Sub => {
                let v: u16 = self.a as u16 + 0x100 - operand as u16;
                self.condition.set_sub_flags(v);
                self.a = word_low(v);
            },
            AluOp::Sbb => {
                let subtrahend: u8 = add8(operand, carry);
                let v: u16 = self.a as u16 + 0x100 - subtrahend as u16;
                self.condition.set_sub_flags(v);
                self.a = word_low(v);
            },
            AluOp::And => {
                let x: u8 = self.a & operand;
                self.condition.set_dcr_flags(x as u16);
                self.condition.cy = false;
                self.condition.ac = false;
                self.a = x;
            },
            AluOp::Xor => {
                let x: u8 = self.a ^ operand;
                self.condition.set_dcr_flags(x as u16);
                self.condition.cy = false;
                self.condition.ac = immediate && x > 0xf;
                self.a = x;
            },
            AluOp::Or => {
                let x: u8 = self.a | operand;
                self.condition.set_dcr_flags(x as u16);
                self.condition.cy = false;
                self.a = x;
            },
            AluOp::Compare => {
                let v: u16 = self.a as u16 + 0x100 - operand as u16;
                self.condition.set_sub_flags(v);
            },
        }
    }

    /// Adjusts the accumulator to two decimal digits.
    pub fn decimal_adjust(&mut self)
        ensures
            final(self)@ == decimal_adjusted(old(self)@),
            old(self).wf() ==> final(self).wf(),
    {
        reveal(decimal_adjusted);
        let a0: u8 = self.a;
        assert(a0 & 0x0f == a0 % 16) by (bit_vector);
        let a1: u8 = if a0 & 0x0f > 9 {
            add8(a0, 6)
        } else {
            a0
        };
        assert(((a1 & 0xf0) > 0x90) == (a1 >= 0xa0)) by (bit_vector);
        let adjust: bool = (a1 & 0xf0) > 0x90 || self.condition.cy;
        let a2: u8 = if adjust {
            add8(a1, 0x60)
        } else {
            a1
        };
        self.condition.set_inr_flags(a2 as u16);
        self.condition.cy = adjust;
        self.a = a2;
    }

    /// Reads an input port.
    pub fn port_in(&self, port: u8) -> (v: u8)
        requires
            self.wf(),
        ensures
            v == port_input(self@, port),
    {
        reveal(port_input);
        if port == 0 {
            0x0f
        } else if port == 1 {
            self.input_1
        } else if port == 2 {
            self.input_2
        } else if port == 3 {
            let visual: u16 = make_word(self.shift_1, self.shift_0);
            let shift: u16 = 8 - (self.shift_offset as u16);
            word_low(visual >> shift)
        } else {
            0
        }
    }

    /// Writes `value` to an output port of the board.
    pub fn port_out(&mut self, port: u8, value: u8)
        requires
            old(self).wf(),
            port_known(port),
        ensures
            final(self)@ == port_output(old(self)@, port, value),
            final(self).wf(),
    {
        reveal(port_output);
        if port == 2 {
            assert(value & 0x7 < 8) by (bit_vector);
            self.shift_offset = value & 0x7;
        } else if port == 3 {
            self.output_3 = value;
        } else if port == 4 {
            self.shift_0 = self.shift_1;
            self.shift_1 = value;
        } else if port == 5 {
            self.output_5 = value;
        }
    }
}

/// Rotates a byte left by one bit.
pub fn rotate_left(a: u8) -> (r: u8)
    ensures
        r == rotated_left(a),
{
    reveal(rotated_left);
    reveal(wrap8);
    assert(((a << 1) | (a >> 7)) as u16 == ((a as u16) * 2 + (a as u16) / 128) % 256)
        by (bit_vector);
    (a << 1) | (a >> 7)
}

/// Rotates a byte right by one bit.
pub fn rotate_right(a: u8) -> (r: u8)
    ensures
        r == rotated_right(a),
{
    reveal(rotated_right);
    assert(((a >> 1) | (a << 7)) as u16 == (a as u16) / 2 + ((a as u16) % 2) * 128)
        by (bit_vector);
    (a >> 1) | (a << 7)
}

/// Rotates a byte left by one bit through the carry: the carry comes in as
/// bit 0.
pub fn rotate_left_through(a: u8, carry: bool) -> (r: u8)
    ensures
        r == rotated_left_through(a, carry),
{
    reveal(rotated_left_through);
    reveal(wrap8);
    let carry_in: u8 = if carry {
        1
    } else {
        0
    };
    (a % 128) * 2 + carry_in
}

/// Rotates a byte right by one bit through the carry: the carry comes in as
/// bit 7.
pub fn rotate_right_through(a: u8, carry: bool) -> (r: u8)
    ensures
        r == rotated_right_through(a, carry),
{
    reveal(rotated_right_through);
    let carry_in: u8 = if carry {
        128
    } else {
        0
    };
    a / 2 + carry_in
}

/// Adds two words; returns the sum modulo 65536 and whether it left the
/// sixteen-bit range.
pub fn add_words(x: u16, y: u16) -> (r: (u16, bool))
    ensures
        r.0 == wrap16(x as int + y as int),
        r.1 == (x as int + y as int > 0xffff),
{
    reveal(wrap16);
    let sum: u32 = x as u32 + y as u32;
    ((sum % 0x10000) as u16, sum > 0xffff)
}

/// Whether the instruction that starts at `pc` lies within the program
/// image.
pub fn instruction_fits(rom: &Vec<u8>, pc: u16) -> (fits: bool)
    ensures
        fits == instruction_in_image(rom@, pc),
{
    let at: usize = pc as usize;
    if at >= rom.len() {
        return false;
    }
    let length: usize = decode(rom[at]).len() as usize;
    length <= rom.len() - at
}

/// The byte of the program image at offset `k` from `pc`, or zero beyond the
/// image.
fn fetch(rom: &Vec<u8>, pc: u16, k: u16) -> (byte: u8)
    requires
        k <= 2,
    ensures
        byte == image_byte(rom@, pc, k as int),
{
    let at: usize = pc as usize + k as usize;
    if at < rom.len() {
        rom[at]
    } else {
        0
    }
}


/// The machine after `n` steps on the program image `rom`.
pub open spec fn after_steps(m: Machine, rom: Seq<u8>, n: nat) -> Machine
    decreases n,
{
    if n == 0 {
        m
    } else {
        after_steps(step_spec(m, rom).machine, rom, (n - 1) as nat)
    }
}

/// Whether the instruction only moves data between registers, memory and
/// the stack.
pub open spec fn moves_data(i: Instruction) -> bool {
    match i {
        Instruction::Lxi(_)
        | Instruction::Stax(_)
        | Instruction::Ldax(_)
        | Instruction::Shld
        | Instruction::Lhld
        | Instruction::Sta
        | Instruction::Lda
        | Instruction::Mvi(_)
        | Instruction::Mov(_, _)
        | Instruction::Pop(_)
        | Instruction::Push(_)
        | Instruction::Xthl
        | Instruction::Xchg
        | Instruction::Sphl => true,
        _ => false,
    }
}

/// Whether the instruction is arithmetic on a register pair.
pub open spec fn counts_pair(i: Instruction) -> bool {
    match i {
        Instruction::Inx(_) | Instruction::Dcx(_) | Instruction::Dad(_) => true,
        _ => false,
    }
}

/// Whether the instruction rotates the accumulator.
pub open spec fn rotates(i: Instruction) -> bool {
    match i {
        Instruction::Rlc | Instruction::Rrc | Instruction::Ral | Instruction::Rar => true,
        _ => false,
    }
}

/// Whether the instruction is eight-bit arithmetic or logic, or sets the
/// carry flag.
pub open spec fn computes(i: Instruction) -> bool {
    match i {
        Instruction::Inr(_)
        | Instruction::Dcr(_)
        | Instruction::Daa
        | Instruction::Cma
        | Instruction::Stc
        | Instruction::Cmc
        | Instruction::Alu(_, _)
        | Instruction::AluImmediate(_) => true,
        _ => false,
    }
}

/// Whether the instruction may transfer control.
pub open spec fn transfers_control(i: Instruction) -> bool {
    match i {
        Instruction::ReturnIf(_)
        | Instruction::Ret
        | Instruction::JumpIf(_)
        | Instruction::Jmp
        | Instruction::CallIf(_)
        | Instruction::Call
        | Instruction::Rst(_)
        | Instruction::Pchl => true,
        _ => false,
    }
}

/// Executes a data-movement instruction.
fn move_data(state: &mut StateIntel8080, instruction: Instruction, b1: u8, b2: u8)
    requires
        old(state).wf(),
        moves_data(instruction),
    ensures
        final(state)@ == execute(old(state)@, instruction, b1, b2),
        final(state).wf(),
{
    reveal(execute);
    let next: u16 = add16(state.pc, instruction.len());
    let imm: u16 = make_word(b2, b1);
    match instruction {
        Instruction::Lxi(p) => {
            state.set_pair(p, imm);
        },
        Instruction::Stax(p) => {
            let addr = state.pair(p);
            state.write(addr, state.a);
        },
        Instruction::Ldax(p) => {
            state.a = state.read(state.pair(p));
        },
        Instruction::Shld => {
            let hl = state.hl();
            state.write_word(imm, hl);
        },
        Instruction::Lhld => {
            let v = state.read_word(imm);
            state.set_hl(v);
        },
        Instruction::Sta => {
            state.write(imm, state.a);
        },
        Instruction::Lda => {
            state.a = state.read(imm);
        },
        Instruction::Mvi(r) => {
            state.set_reg(r, b1);
        },
        Instruction::Mov(dst, src) => {
            let v = state.reg(src);
            state.set_reg(dst, v);
        },
        Instruction::Pop(p) => {
            let v = state.pop();
            state.set_stack_pair(p, v);
        },
        Instruction::Push(p) => {
            let v = state.stack_pair(p);
            state.push(v);
        },
        Instruction::Xthl => {
            let top = state.read_word(state.sp);
            let hl = state.hl();
            state.write_word(state.sp, hl);
            state.set_hl(top);
        },
        Instruction::Xchg => {
            let de = state.de();
            let hl = state.hl();
            state.set_de(hl);
            state.set_hl(de);
        },
        Instruction::Sphl => {
            state.sp = state.hl();
        },
        _ => {},
    }
    state.pc = next;
}

/// Executes an instruction that counts or adds on a register pair.
fn count_pair(state: &mut StateIntel8080, instruction: Instruction, b1: u8, b2: u8)
    requires
        old(state).wf(),
        counts_pair(instruction),
    ensures
        final(state)@ == execute(old(state)@, instruction, b1, b2),
        final(state).wf(),
{
    reveal(execute);
    let next: u16 = add16(state.pc, instruction.len());
    match instruction {
        Instruction::Inx(p) => {
            let v = add16(state.pair(p), 1);
            state.set_pair(p, v);
        },
        Instruction::Dcx(p) => {
            let v = sub16(state.pair(p), 1);
            state.set_pair(p, v);
        },
        Instruction::Dad(p) => {
            let (sum, carry) = add_words(state.hl(), state.pair(p));
            state.condition.cy = carry;
            state.set_hl(sum);
        },
        _ => {},
    }
    state.pc = next;
}

/// Executes a rotation of the accumulator.
fn rotate(state: &mut StateIntel8080, instruction: Instruction, b1: u8, b2: u8)
    requires
        old(state).wf(),
        rotates(instruction),
    ensures
        final(state)@ == execute(old(state)@, instruction, b1, b2),
        final(state).wf(),
{
    reveal(execute);
    let next: u16 = add16(state.pc, instruction.len());
    let a: u8 = state.a;
    match instruction {
        Instruction::Rlc => {
            state.a = rotate_left(a);
            state.condition.cy = a >= 128;
        },
        Instruction::Rrc => {
            state.a = rotate_right(a);
            state.condition.cy = a % 2 == 1;
        },
        Instruction::Ral => {
            state.a = rotate_left_through(a, state.condition.cy);
            state.condition.cy = a >= 128;
        },
        Instruction::Rar => {
            state.a = rotate_right_through(a, state.condition.cy);
            state.condition.cy = a % 2 == 1;
        },
        _ => {},
    }
    state.pc = next;
}

/// Executes an eight-bit arithmetic or logical instruction.
fn compute(state: &mut StateIntel8080, instruction: Instruction, b1: u8, b2: u8)
    requires
        old(state).wf(),
        computes(instruction),
    ensures
        final(state)@ == execute(old(state)@, instruction, b1, b2),
        final(state).wf(),
{
    reveal(execute);
    let next: u16 = add16(state.pc, instruction.len());
    match instruction {
        Instruction::Inr(r) => {
            let v = add8(state.reg(r), 1);
            state.set_reg(r, v);
            state.condition.set_inr_flags(v as u16);
        },
        Instruction::Dcr(r) => {
            let v = sub8(state.reg(r), 1);
            state.set_reg(r, v);
            state.condition.set_dcr_flags(v as u16);
        },
        Instruction::Daa => {
            state.decimal_adjust();
        },
        Instruction::Cma => {
            state.a = !state.a;
        },
        Instruction::Stc => {
            state.condition.cy = true;
        },
        Instruction::Cmc => {
            state.condition.cy = !state.condition.cy;
        },
        Instruction::Alu(op, r) => {
            let operand = state.reg(r);
            state.alu(op, operand, false);
        },
        Instruction::AluImmediate(op) => {
            state.alu(op, b1, true);
        },
        _ => {},
    }
    state.pc = next;
}

/// Executes a jump, call, return or RST. Tells whether it set the program
/// counter itself.
fn transfer_control(state: &mut StateIntel8080, instruction: Instruction, b1: u8, b2: u8) -> (jumped:
    bool)
    requires
        old(state).wf(),
        transfers_control(instruction),
    ensures
        final(state)@ == execute(old(state)@, instruction, b1, b2),
        final(state).wf(),
        jumped == jumps(old(state)@, instruction),
{
    reveal(execute);
    let next: u16 = add16(state.pc, instruction.len());
    let imm: u16 = make_word(b2, b1);
    let mut target: u16 = next;
    let mut jumped: bool = true;
    match instruction {
        Instruction::ReturnIf(c) => {
            if state.condition_holds(c) {
                target = state.pop();
            } else {
                jumped = false;
            }
        },
        Instruction::Ret => {
            target = state.pop();
        },
        Instruction::JumpIf(c) => {
            if state.condition_holds(c) {
                target = imm;
            } else {
                jumped = false;
            }
        },
        Instruction::Jmp => {
            target = imm;
        },
        Instruction::CallIf(c) => {
            if state.condition_holds(c) {
                state.push(next);
                target = imm;
            } else {
                jumped = false;
            }
        },
        Instruction::Call => {
            state.push(next);
            target = imm;
        },
        Instruction::Rst(n) => {
            state.push(next);
            target = 8 * (n as u16);
        },
        Instruction::Pchl => {
            target = state.hl();
        },
        _ => {},
    }
    state.pc = target;
    jumped
}

/// Executes the instruction at the program counter.
///
/// The instruction is fetched from the program image `rom`; the caller makes
/// sure that it lies within the image (see `instruction_fits`). The state
/// after the call and the reported result are exactly those of `step_spec`:
/// on HLT, on an opcode without a handler and on OUT to an unknown port the
/// state is unchanged and the outcome says which of them it was; otherwise
/// the instruction has been executed, the outcome is `Continue`, and the
/// result carries the cycles spent, whether control was transferred, and
/// the sound-port write, if any.
pub fn step(state: &mut StateIntel8080, rom: &Vec<u8>) -> (result: StepResult)
    requires
        old(state).wf(),
        instruction_in_image(rom@, old(state).pc),
    ensures
        final(state)@ == step_spec(old(state)@, rom@).machine,
        result == step_spec(old(state)@, rom@).result,
        final(state).wf(),
        result.outcome == StepOutcome::Continue ==> 4 <= result.cycles <= 24,
{
    reveal(execute);
    let pc: u16 = state.pc;
    let opcode: u8 = rom[pc as usize];
    let instruction = decode(opcode);
    let b1: u8 = fetch(rom, pc, 1);
    let b2: u8 = fetch(rom, pc, 2);
    let next: u16 = add16(pc, instruction.len());
    let mut cycles: u32 = get_cycles(opcode) as u32;
    let mut jumped: bool = false;
    let mut event: Option<PortEvent> = None;
    match instruction {
        Instruction::Hlt => {
            return StepResult {
                outcome: StepOutcome::Halted,
                cycles: 0,
                jumped: false,
                event: None,
            };
        },
        Instruction::Unimplemented => {
            return StepResult {
                outcome: StepOutcome::Unimplemented(opcode),
                cycles: 0,
                jumped: false,
                event: None,
            };
        },
        Instruction::Nop => {
            state.pc = next;
        },
        Instruction::Out => {
            if b1 < 2 || b1 > 6 {
                return StepResult {
                    outcome: StepOutcome::Unimplemented(opcode),
                    cycles: 0,
                    jumped: false,
                    event: None,
                };
            }
            if b1 == 3 || b1 == 5 {
                event = Some(PortEvent { port: b1, value: state.a });
            }
            state.port_out(b1, state.a);
            state.pc = next;
        },
        Instruction::In => {
            state.a = state.port_in(b1);
            state.pc = next;
        },
        Instruction::Di => {
            state.interrupts = false;
            state.pc = next;
        },
        Instruction::Ei => {
            state.interrupts = true;
            state.pc = next;
        },
        Instruction::CallIf(_) | Instruction::ReturnIf(_) => {
            jumped = transfer_control(state, instruction, b1, b2);
            if jumped {
                cycles = cycles + TAKEN_BRANCH_CYCLES;
            }
        },
        Instruction::Ret
        | Instruction::JumpIf(_)
        | Instruction::Jmp
        | Instruction::Call
        | Instruction::Rst(_)
        | Instruction::Pchl => {
            jumped = transfer_control(state, instruction, b1, b2);
        },
        Instruction::Inx(_) | Instruction::Dcx(_) | Instruction::Dad(_) => {
            count_pair(state, instruction, b1, b2);
        },
        Instruction::Rlc | Instruction::Rrc | Instruction::Ral | Instruction::Rar => {
            rotate(state, instruction, b1, b2);
        },
        Instruction::Inr(_)
        | Instruction::Dcr(_)
        | Instruction::Daa
        | Instruction::Cma
        | Instruction::Stc
        | Instruction::Cmc
        | Instruction::Alu(_, _)
        | Instruction::AluImmediate(_) => {
            compute(state, instruction, b1, b2);
        },
        _ => {
            move_data(state, instruction, b1, b2);
        },
    }
    StepResult { outcome: StepOutcome::Continue, cycles: cycles, jumped: jumped, event: event }
}

/// Executes the instruction at the program counter if it lies within the
/// program image, as `step` does; otherwise returns `None` and leaves the
/// state as it is.
pub fn try_step(state: &mut StateIntel8080, rom: &Vec<u8>) -> (result: Option<StepResult>)
    requires
        old(state).wf(),
    ensures
        result.is_some() == instruction_in_image(rom@, old(state).pc),
        result.is_some() ==> final(state)@ == step_spec(old(state)@, rom@).machine && result
            == Some(step_spec(old(state)@, rom@).result),
        result.is_none() ==> final(state)@ == old(state)@,
        final(state).wf(),
{
    if instruction_fits(rom, state.pc) {
        Some(step(state, rom))
    } else {
        None
    }
}

} // verus!
