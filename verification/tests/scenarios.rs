use intel8080::condition_codes::ConditionCodes;
use intel8080::intel8080_state::StateIntel8080;
use intel8080::interpreter::{
    instruction_fits, step, try_step, PortEvent, StepOutcome, StepResult,
};

fn machine(program: &[u8]) -> (StateIntel8080, Vec<u8>) {
    let rom = program.to_vec();
    let mut state = StateIntel8080::default();
    state.init_mem(&rom);
    (state, rom)
}

fn run_steps(state: &mut StateIntel8080, rom: &Vec<u8>, n: usize) {
    for _ in 0..n {
        assert!(state.is_well_formed());
        assert!(instruction_fits(rom, state.pc));
        assert_eq!(step(state, rom).outcome, StepOutcome::Continue);
    }
}

fn one_step(state: &mut StateIntel8080, rom: &Vec<u8>) -> StepResult {
    assert!(state.is_well_formed());
    assert!(instruction_fits(rom, state.pc));
    step(state, rom)
}

#[test]
fn second_immediate_load_overwrites_first() {
    let (mut state, rom) = machine(&[0x3e, 0x05, 0x3e, 0x03, 0x80]);
    run_steps(&mut state, &rom, 1);
    assert_eq!(state.a, 5);
    run_steps(&mut state, &rom, 1);
    assert_eq!(state.a, 3);
    assert_eq!(state.pc, 4);
}

#[test]
fn add_b_after_two_immediate_loads() {
    let (mut state, rom) = machine(&[0x06, 0x05, 0x0e, 0x03, 0x80]);
    run_steps(&mut state, &rom, 3);
    assert_eq!(state.a, 5);
    assert_eq!(state.b, 5);
    assert_eq!(state.c, 3);
    assert!(!state.condition.z);
    assert!(!state.condition.cy);
    assert_eq!(state.pc, 5);
}

#[test]
fn input_from_shift_register_window() {
    let (mut state, rom) = machine(&[0xdb, 0x03]);
    state.shift_1 = 0xff;
    state.shift_0 = 0x00;
    state.shift_offset = 4;
    run_steps(&mut state, &rom, 1);
    assert_eq!(state.a, 0xf0);
    assert_eq!(state.pc, 2);
}

#[test]
fn shift_register_window_at_every_offset() {
    for offset in 0..8u8 {
        let (mut state, rom) = machine(&[0xdb, 0x03]);
        state.shift_1 = 0xa5;
        state.shift_0 = 0x3c;
        state.shift_offset = offset;
        run_steps(&mut state, &rom, 1);
        let expected = ((0xa53cu16 >> (8 - offset as u16)) & 0xff) as u8;
        assert_eq!(state.a, expected, "offset {}", offset);
    }
}

#[test]
fn jnz_taken_when_zero_flag_is_clear() {
    let (mut state, rom) = machine(&[0xc2, 0x34, 0x12]);
    state.condition.z = false;
    let result = one_step(&mut state, &rom);
    assert_eq!(result, StepResult { outcome: StepOutcome::Continue, cycles: 10, jumped: true, event: None });
    assert_eq!(state.pc, 0x1234);
}

#[test]
fn jnz_not_taken_when_zero_flag_is_set() {
    let (mut state, rom) = machine(&[0xc2, 0x34, 0x12]);
    state.condition.z = true;
    let result = one_step(&mut state, &rom);
    assert_eq!(result, StepResult { outcome: StepOutcome::Continue, cycles: 10, jumped: false, event: None });
    assert_eq!(state.pc, 3);
}

#[test]
fn every_conditional_jump_tests_its_flag() {
    // opcode, flags that make it jump
    let cases: [(u8, ConditionCodes); 8] = [
        (0xc2, ConditionCodes { z: false, s: true, p: true, cy: true, ac: true, pad: 0 }),
        (0xca, ConditionCodes { z: true, s: false, p: false, cy: false, ac: false, pad: 0 }),
        (0xd2, ConditionCodes { z: true, s: true, p: true, cy: false, ac: true, pad: 0 }),
        (0xda, ConditionCodes { z: false, s: false, p: false, cy: true, ac: false, pad: 0 }),
        (0xe2, ConditionCodes { z: true, s: true, p: false, cy: true, ac: true, pad: 0 }),
        (0xea, ConditionCodes { z: false, s: false, p: true, cy: false, ac: false, pad: 0 }),
        (0xf2, ConditionCodes { z: true, s: false, p: true, cy: true, ac: true, pad: 0 }),
        (0xfa, ConditionCodes { z: false, s: true, p: false, cy: false, ac: false, pad: 0 }),
    ];
    for (opcode, taken) in cases {
        let (mut state, rom) = machine(&[opcode, 0xcd, 0xab]);
        state.condition = taken;
        run_steps(&mut state, &rom, 1);
        assert_eq!(state.pc, 0xabcd, "opcode {:#04x} taken", opcode);
        assert_eq!(state.condition, taken);

        let other = ConditionCodes {
            z: !taken.z,
            s: !taken.s,
            p: !taken.p,
            cy: !taken.cy,
            ac: !taken.ac,
            pad: 0,
        };
        let (mut state, rom) = machine(&[opcode, 0xcd, 0xab]);
        state.condition = other;
        run_steps(&mut state, &rom, 1);
        assert_eq!(state.pc, 3, "opcode {:#04x} not taken", opcode);
    }
}

#[test]
fn add_sets_carry_and_wraps_for_all_operands() {
    let (state0, rom) = machine(&[0x80]);
    for a in 0..=255u16 {
        for b in 0..=255u16 {
            let mut state = state0.clone();
            state.a = a as u8;
            state.b = b as u8;
            run_steps(&mut state, &rom, 1);
            assert_eq!(state.a as u16, (a + b) % 256);
            assert_eq!(state.condition.cy, a + b > 0xff);
            assert_eq!(state.condition.z, (a + b) % 256 == 0);
            assert_eq!(state.condition.s, (a + b) % 256 >= 128);
            assert_eq!(state.condition.p, ((a + b) as u8).count_ones() % 2 == 0);
            assert_eq!(state.condition.ac, (a + b) % 256 > 0xf);
            assert_eq!(state.b as u16, b);
        }
    }
}

#[test]
fn add_a_doubles_the_accumulator() {
    let (mut state, rom) = machine(&[0x87]);
    state.a = 0x90;
    run_steps(&mut state, &rom, 1);
    assert_eq!(state.a, 0x20);
    assert!(state.condition.cy);
}

#[test]
fn adc_adds_the_carry() {
    let (mut state, rom) = machine(&[0x88, 0xce, 0x00]);
    state.a = 0xfe;
    state.b = 0x01;
    state.condition.cy = true;
    run_steps(&mut state, &rom, 1);
    assert_eq!(state.a, 0x00);
    assert!(state.condition.cy);
    assert!(state.condition.z);
    // ACI 0 with carry set
    run_steps(&mut state, &rom, 1);
    assert_eq!(state.a, 0x01);
    assert!(!state.condition.cy);
    assert_eq!(state.pc, 3);
}

#[test]
fn sub_self_yields_zero_for_every_accumulator() {
    let (state0, rom) = machine(&[0x97]);
    for a in 0..=255u8 {
        let mut state = state0.clone();
        state.a = a;
        state.condition.cy = true;
        run_steps(&mut state, &rom, 1);
        assert_eq!(state.a, 0);
        assert!(state.condition.z);
        assert!(!state.condition.cy);
        assert!(!state.condition.s);
        assert!(state.condition.p);
    }
}

#[test]
fn sub_sets_borrow_for_all_operands() {
    let (state0, rom) = machine(&[0x91]);
    for a in 0..=255u8 {
        for c in 0..=255u8 {
            let mut state = state0.clone();
            state.a = a;
            state.c = c;
            run_steps(&mut state, &rom, 1);
            let (diff, borrow) = a.overflowing_sub(c);
            assert_eq!(state.a, diff);
            assert_eq!(state.condition.cy, borrow);
            assert_eq!(state.condition.z, diff == 0);
            assert_eq!(state.condition.s, diff >= 0x80);
            assert_eq!(state.condition.p, diff.count_ones() % 2 == 0);
            assert_eq!(state.condition.ac, diff > 0xf);
        }
    }
}

#[test]
fn sbb_subtracts_operand_plus_carry_modulo_256() {
    let (mut state, rom) = machine(&[0x98]);
    state.a = 0x10;
    state.b = 0x01;
    state.condition.cy = true;
    run_steps(&mut state, &rom, 1);
    assert_eq!(state.a, 0x0e);
    assert!(!state.condition.cy);

    // operand 0xff with carry: the subtrahend wraps to zero
    let (mut state, rom) = machine(&[0x98]);
    state.a = 0x05;
    state.b = 0xff;
    state.condition.cy = true;
    run_steps(&mut state, &rom, 1);
    assert_eq!(state.a, 0x05);
    assert!(!state.condition.cy);

    let (mut state, rom) = machine(&[0xde, 0x07]);
    state.a = 0x05;
    state.condition.cy = false;
    run_steps(&mut state, &rom, 1);
    assert_eq!(state.a, 0xfe);
    assert!(state.condition.cy);
    assert_eq!(state.pc, 2);
}

#[test]
fn compare_keeps_the_accumulator() {
    let (mut state, rom) = machine(&[0xb8, 0xfe, 0x20, 0xfe, 0x10]);
    state.a = 0x10;
    state.b = 0x20;
    run_steps(&mut state, &rom, 1);
    assert_eq!(state.a, 0x10);
    assert!(state.condition.cy);
    assert!(!state.condition.z);
    run_steps(&mut state, &rom, 1);
    assert!(state.condition.cy);
    run_steps(&mut state, &rom, 1);
    assert_eq!(state.a, 0x10);
    assert!(state.condition.z);
    assert!(!state.condition.cy);
    assert_eq!(state.pc, 5);
}

#[test]
fn logical_operations_and_their_flags() {
    // ANA B
    let (mut state, rom) = machine(&[0xa0]);
    state.a = 0xf0;
    state.b = 0x3c;
    state.condition = ConditionCodes { z: true, s: true, p: false, cy: true, ac: true, pad: 0 };
    run_steps(&mut state, &rom, 1);
    assert_eq!(state.a, 0x30);
    assert_eq!(
        state.condition,
        ConditionCodes { z: false, s: false, p: true, cy: false, ac: false, pad: 0 }
    );
    // XRA B clears auxiliary carry
    let (mut state, rom) = machine(&[0xa8]);
    state.a = 0xf0;
    state.b = 0x0f;
    state.condition = ConditionCodes { z: true, s: false, p: false, cy: true, ac: true, pad: 0 };
    run_steps(&mut state, &rom, 1);
    assert_eq!(state.a, 0xff);
    assert_eq!(
        state.condition,
        ConditionCodes { z: false, s: true, p: true, cy: false, ac: false, pad: 0 }
    );
    // XRI sets auxiliary carry from the result
    let (mut state, rom) = machine(&[0xee, 0x0f]);
    state.a = 0xf0;
    state.condition.cy = true;
    run_steps(&mut state, &rom, 1);
    assert_eq!(state.a, 0xff);
    assert_eq!(
        state.condition,
        ConditionCodes { z: false, s: true, p: true, cy: false, ac: true, pad: 0 }
    );
    // XRA A clears the accumulator
    let (mut state, rom) = machine(&[0xaf]);
    state.a = 0x5a;
    run_steps(&mut state, &rom, 1);
    assert_eq!(state.a, 0);
    assert!(state.condition.z);
    // ORA C
    let (mut state, rom) = machine(&[0xb1]);
    state.a = 0x01;
    state.c = 0x10;
    state.condition.cy = true;
    run_steps(&mut state, &rom, 1);
    assert_eq!(state.a, 0x11);
    assert_eq!(
        state.condition,
        ConditionCodes { z: false, s: false, p: true, cy: false, ac: true, pad: 0 }
    );
    // ANI, ORI
    let (mut state, rom) = machine(&[0xe6, 0x0f, 0xf6, 0x80]);
    state.a = 0x3c;
    run_steps(&mut state, &rom, 1);
    assert_eq!(state.a, 0x0c);
    assert!(!state.condition.ac);
    run_steps(&mut state, &rom, 1);
    assert_eq!(state.a, 0x8c);
    assert!(state.condition.s);
    assert!(state.condition.ac);
    assert_eq!(state.pc, 4);
}

#[test]
fn push_then_pop_restores_every_pair() {
    // PUSH B; POP B, PUSH D; POP D, PUSH H; POP H, PUSH PSW; POP PSW
    for (push, pop) in [(0xc5u8, 0xc1u8), (0xd5, 0xd1), (0xe5, 0xe1), (0xf5, 0xf1)] {
        for sp in [0x2400u16, 0x0001, 0x0000, 0xffff, 0x0002] {
            let (mut state, rom) = machine(&[push, pop]);
            state.a = 0x12;
            state.b = 0x34;
            state.c = 0x56;
            state.d = 0x78;
            state.e = 0x9a;
            state.h = 0xbc;
            state.l = 0xde;
            state.sp = sp;
            state.condition =
                ConditionCodes { z: true, s: false, p: true, cy: true, ac: false, pad: 3 };
            let before = state.clone();
            run_steps(&mut state, &rom, 2);
            assert_eq!(state.sp, sp);
            assert_eq!(state.pc, 2);
            assert_eq!(
                (state.a, state.b, state.c, state.d, state.e, state.h, state.l),
                (before.a, before.b, before.c, before.d, before.e, before.h, before.l)
            );
            assert_eq!(state.condition, before.condition);
        }
    }
}

#[test]
fn push_stores_high_byte_below_stack_pointer() {
    let (mut state, rom) = machine(&[0xc5]);
    state.b = 0xab;
    state.c = 0xcd;
    state.sp = 0x3000;
    run_steps(&mut state, &rom, 1);
    assert_eq!(state.sp, 0x2ffe);
    assert_eq!(state.memory[0x2fff], 0xab);
    assert_eq!(state.memory[0x2ffe], 0xcd);
}

#[test]
fn push_wraps_around_the_address_space() {
    let (mut state, rom) = machine(&[0xd5]);
    state.d = 0x11;
    state.e = 0x22;
    state.sp = 0x0001;
    run_steps(&mut state, &rom, 1);
    assert_eq!(state.sp, 0xffff);
    assert_eq!(state.memory[0x0000], 0x11);
    assert_eq!(state.memory[0xffff], 0x22);
}

#[test]
fn push_psw_packs_the_flags() {
    let (mut state, rom) = machine(&[0xf5]);
    state.a = 0x77;
    state.sp = 0x2400;
    state.condition = ConditionCodes { z: true, s: false, p: true, cy: true, ac: true, pad: 0 };
    run_steps(&mut state, &rom, 1);
    assert_eq!(state.memory[0x23ff], 0x77);
    assert_eq!(state.memory[0x23fe], 0b0001_1101);
}

#[test]
fn pop_psw_unpacks_the_flags() {
    let (mut state, rom) = machine(&[0xf1]);
    state.sp = 0x2400;
    state.memory[0x2400] = 0b0000_1010;
    state.memory[0x2401] = 0x99;
    run_steps(&mut state, &rom, 1);
    assert_eq!(state.a, 0x99);
    assert_eq!(
        state.condition,
        ConditionCodes { z: false, s: true, p: false, cy: true, ac: false, pad: 0 }
    );
    assert_eq!(state.sp, 0x2402);
}

#[test]
fn call_then_ret_comes_back() {
    let mut program = vec![0u8; 0x20];
    program[0x05] = 0xcd;
    program[0x06] = 0x10;
    program[0x07] = 0x00;
    program[0x10] = 0xc9;
    let (mut state, rom) = machine(&program);
    state.pc = 0x05;
    state.sp = 0x2400;
    let call = one_step(&mut state, &rom);
    assert_eq!(call, StepResult { outcome: StepOutcome::Continue, cycles: 17, jumped: true, event: None });
    assert_eq!(state.pc, 0x0010);
    assert_eq!(state.sp, 0x23fe);
    assert_eq!(state.memory[0x23ff], 0x00);
    assert_eq!(state.memory[0x23fe], 0x08);
    let ret = one_step(&mut state, &rom);
    assert_eq!(ret, StepResult { outcome: StepOutcome::Continue, cycles: 10, jumped: true, event: None });
    assert_eq!(state.pc, 0x0008);
    assert_eq!(state.sp, 0x2400);
}

#[test]
fn taken_conditional_call_and_return_cost_six_more_cycles() {
    let mut program = vec![0u8; 0x20];
    program[0x00] = 0xcc; // CZ 0x0010
    program[0x01] = 0x10;
    program[0x02] = 0x00;
    program[0x10] = 0xc8; // RZ
    let (mut state, rom) = machine(&program);
    state.sp = 0x2400;
    state.condition.z = true;
    let call = one_step(&mut state, &rom);
    assert_eq!(call.cycles, 23);
    assert_eq!(state.pc, 0x0010);
    assert_eq!(state.sp, 0x23fe);
    let ret = one_step(&mut state, &rom);
    assert_eq!(ret.cycles, 17);
    assert_eq!(state.pc, 0x0003);
    assert_eq!(state.sp, 0x2400);
}

#[test]
fn conditional_call_and_return_not_taken() {
    let (mut state, rom) = machine(&[0xcc, 0x10, 0x00, 0xc8, 0x00]);
    state.sp = 0x2400;
    state.condition.z = false;
    let call = one_step(&mut state, &rom);
    assert_eq!(call.cycles, 17);
    assert_eq!(state.pc, 3);
    assert_eq!(state.sp, 0x2400);
    let ret = one_step(&mut state, &rom);
    assert_eq!(ret.cycles, 11);
    assert_eq!(state.pc, 4);
    assert_eq!(state.sp, 0x2400);
}

#[test]
fn conditional_call_on_odd_parity_reads_target_from_the_image() {
    let (mut state, rom) = machine(&[0xe4, 0x34, 0x12]);
    state.sp = 0x2400;
    state.condition.p = false;
    // The copy of the image in memory is changed; the instruction stream is not.
    state.memory[1] = 0xff;
    state.memory[2] = 0xff;
    run_steps(&mut state, &rom, 1);
    assert_eq!(state.pc, 0x1234);
}

#[test]
fn rst_pushes_the_next_address_and_jumps_to_its_vector() {
    for n in 0..8u8 {
        let mut program = vec![0u8; 0x50];
        program[0x40] = 0xc7 | (n << 3);
        let (mut state, rom) = machine(&program);
        state.pc = 0x40;
        state.sp = 0x2400;
        let result = one_step(&mut state, &rom);
        assert_eq!(result.cycles, 11);
        assert_eq!(state.pc, 8 * n as u16);
        assert_eq!(state.sp, 0x23fe);
        assert_eq!(state.memory[0x23ff], 0x00);
        assert_eq!(state.memory[0x23fe], 0x41);
    }
}

#[test]
fn eight_left_rotations_restore_the_accumulator() {
    let (state0, rom) = machine(&[0x07; 8]);
    for a in 0..=255u8 {
        let mut state = state0.clone();
        state.a = a;
        run_steps(&mut state, &rom, 8);
        assert_eq!(state.a, a);
        assert_eq!(state.condition.cy, a & 1 == 1);
        assert_eq!(state.pc, 8);
    }
}

#[test]
fn rotations_one_step() {
    let (mut state, rom) = machine(&[0x07, 0x0f, 0x17, 0x1f]);
    state.a = 0x81;
    run_steps(&mut state, &rom, 1); // RLC
    assert_eq!(state.a, 0x03);
    assert!(state.condition.cy);
    run_steps(&mut state, &rom, 1); // RRC
    assert_eq!(state.a, 0x81);
    assert!(state.condition.cy);
    run_steps(&mut state, &rom, 1); // RAL
    assert_eq!(state.a, 0x03);
    assert!(state.condition.cy);
    state.condition.cy = false;
    run_steps(&mut state, &rom, 1); // RAR
    assert_eq!(state.a, 0x01);
    assert!(state.condition.cy);
}

#[test]
fn rotate_through_carry_takes_the_carry_in() {
    let (mut state, rom) = machine(&[0x17, 0x1f]);
    state.a = 0x40;
    state.condition.cy = true;
    run_steps(&mut state, &rom, 1);
    assert_eq!(state.a, 0x81);
    assert!(!state.condition.cy);
    state.condition.cy = true;
    run_steps(&mut state, &rom, 1);
    assert_eq!(state.a, 0xc0);
    assert!(state.condition.cy);
}

#[test]
fn decimal_adjust() {
    let (mut state, rom) = machine(&[0x27]);
    state.a = 0x9b;
    run_steps(&mut state, &rom, 1);
    assert_eq!(state.a, 0x01);
    assert!(state.condition.cy);
    assert!(!state.condition.z);

    let (mut state, rom) = machine(&[0x27]);
    state.a = 0x45;
    run_steps(&mut state, &rom, 1);
    assert_eq!(state.a, 0x45);
    assert!(!state.condition.cy);

    let (mut state, rom) = machine(&[0x27]);
    state.a = 0x0a;
    run_steps(&mut state, &rom, 1);
    assert_eq!(state.a, 0x10);
    assert!(!state.condition.cy);
    assert!(state.condition.ac);

    let (mut state, rom) = machine(&[0x27]);
    state.a = 0x12;
    state.condition.cy = true;
    run_steps(&mut state, &rom, 1);
    assert_eq!(state.a, 0x72);
    assert!(state.condition.cy);
}

#[test]
fn increment_and_decrement_wrap_and_keep_carry() {
    let (mut state, rom) = machine(&[0x04, 0x05, 0x05]);
    state.b = 0xff;
    state.condition.cy = true;
    run_steps(&mut state, &rom, 1);
    assert_eq!(state.b, 0x00);
    assert!(state.condition.z);
    assert!(state.condition.cy);
    run_steps(&mut state, &rom, 1);
    assert_eq!(state.b, 0xff);
    assert!(state.condition.s);
    assert!(state.condition.cy);
    run_steps(&mut state, &rom, 1);
    assert_eq!(state.b, 0xfe);
}

#[test]
fn increment_and_decrement_memory() {
    let (mut state, rom) = machine(&[0x34, 0x35, 0x35]);
    state.h = 0x30;
    state.l = 0x10;
    state.memory[0x3010] = 0xff;
    run_steps(&mut state, &rom, 1);
    assert_eq!(state.memory[0x3010], 0x00);
    assert!(state.condition.z);
    run_steps(&mut state, &rom, 2);
    assert_eq!(state.memory[0x3010], 0xfe);
    assert!(state.condition.s);
}

#[test]
fn pair_increment_and_decrement_wrap() {
    let (mut state, rom) = machine(&[0x03, 0x0b, 0x0b, 0x33, 0x3b, 0x3b]);
    state.b = 0xff;
    state.c = 0xff;
    run_steps(&mut state, &rom, 1);
    assert_eq!((state.b, state.c), (0x00, 0x00));
    run_steps(&mut state, &rom, 1);
    assert_eq!((state.b, state.c), (0xff, 0xff));
    run_steps(&mut state, &rom, 1);
    assert_eq!((state.b, state.c), (0xff, 0xfe));
    state.sp = 0xffff;
    run_steps(&mut state, &rom, 1);
    assert_eq!(state.sp, 0x0000);
    run_steps(&mut state, &rom, 2);
    assert_eq!(state.sp, 0xfffe);
}

#[test]
fn double_add_sets_carry_on_overflow() {
    let (mut state, rom) = machine(&[0x09, 0x29, 0x39]);
    state.h = 0xff;
    state.l = 0xff;
    state.b = 0x00;
    state.c = 0x02;
    run_steps(&mut state, &rom, 1);
    assert_eq!((state.h, state.l), (0x00, 0x01));
    assert!(state.condition.cy);
    run_steps(&mut state, &rom, 1);
    assert_eq!((state.h, state.l), (0x00, 0x02));
    assert!(!state.condition.cy);
    state.sp = 0x1000;
    run_steps(&mut state, &rom, 1);
    assert_eq!((state.h, state.l), (0x10, 0x02));
}

#[test]
fn loads_and_stores() {
    let (mut state, rom) = machine(&[
        0x01, 0x34, 0x12, // LXI B,0x1234
        0x11, 0x00, 0x30, // LXI D,0x3000
        0x21, 0x10, 0x30, // LXI H,0x3010
        0x31, 0x00, 0x24, // LXI SP,0x2400
        0x3e, 0x5a, // MVI A,0x5a
        0x12, // STAX D
        0x77, // MOV M,A
        0x36, 0x66, // MVI M,0x66
        0x32, 0x20, 0x30, // STA 0x3020
        0x22, 0x30, 0x30, // SHLD 0x3030
        0x0a, // LDAX B
        0x1a, // LDAX D
        0x3a, 0x10, 0x30, // LDA 0x3010
        0x2a, 0x00, 0x30, // LHLD 0x3000
    ]);
    run_steps(&mut state, &rom, 4);
    assert_eq!((state.b, state.c), (0x12, 0x34));
    assert_eq!((state.d, state.e), (0x30, 0x00));
    assert_eq!((state.h, state.l), (0x30, 0x10));
    assert_eq!(state.sp, 0x2400);
    run_steps(&mut state, &rom, 3);
    assert_eq!(state.memory[0x3000], 0x5a);
    assert_eq!(state.memory[0x3010], 0x5a);
    run_steps(&mut state, &rom, 1);
    assert_eq!(state.memory[0x3010], 0x66);
    run_steps(&mut state, &rom, 2);
    assert_eq!(state.memory[0x3020], 0x5a);
    assert_eq!(state.memory[0x3030], 0x10);
    assert_eq!(state.memory[0x3031], 0x30);
    state.memory[0x1234] = 0x77;
    run_steps(&mut state, &rom, 1);
    assert_eq!(state.a, 0x77);
    run_steps(&mut state, &rom, 1);
    assert_eq!(state.a, 0x5a);
    run_steps(&mut state, &rom, 1);
    assert_eq!(state.a, 0x66);
    state.memory[0x3001] = 0x21;
    run_steps(&mut state, &rom, 1);
    assert_eq!((state.h, state.l), (0x21, 0x5a));
    assert_eq!(state.pc as usize, rom.len());
}

#[test]
fn word_store_wraps_at_the_top_of_memory() {
    let (mut state, rom) = machine(&[0x22, 0xff, 0xff, 0x2a, 0xff, 0xff]);
    state.h = 0xaa;
    state.l = 0xbb;
    run_steps(&mut state, &rom, 1);
    assert_eq!(state.memory[0xffff], 0xbb);
    assert_eq!(state.memory[0x0000], 0xaa);
    state.h = 0;
    state.l = 0;
    run_steps(&mut state, &rom, 1);
    assert_eq!((state.h, state.l), (0xaa, 0xbb));
}

#[test]
fn moves_between_registers_and_memory() {
    let (mut state, rom) = machine(&[0x78, 0x4f, 0x56, 0x70, 0x6c]);
    state.b = 0x11;
    state.h = 0x30;
    state.l = 0x00;
    state.memory[0x3000] = 0x99;
    run_steps(&mut state, &rom, 1); // MOV A,B
    assert_eq!(state.a, 0x11);
    run_steps(&mut state, &rom, 1); // MOV C,A
    assert_eq!(state.c, 0x11);
    run_steps(&mut state, &rom, 1); // MOV D,M
    assert_eq!(state.d, 0x99);
    run_steps(&mut state, &rom, 1); // MOV M,B
    assert_eq!(state.memory[0x3000], 0x11);
    run_steps(&mut state, &rom, 1); // MOV L,H
    assert_eq!(state.l, 0x30);
    assert_eq!(state.pc, 5);
}

#[test]
fn exchanges() {
    let (mut state, rom) = machine(&[0xeb, 0xe3, 0xf9, 0xe9]);
    state.d = 0x11;
    state.e = 0x22;
    state.h = 0x33;
    state.l = 0x44;
    run_steps(&mut state, &rom, 1); // XCHG
    assert_eq!((state.d, state.e, state.h, state.l), (0x33, 0x44, 0x11, 0x22));
    state.sp = 0x3000;
    state.memory[0x3000] = 0xcd;
    state.memory[0x3001] = 0xab;
    run_steps(&mut state, &rom, 1); // XTHL
    assert_eq!((state.h, state.l), (0xab, 0xcd));
    assert_eq!(state.memory[0x3000], 0x22);
    assert_eq!(state.memory[0x3001], 0x11);
    assert_eq!(state.sp, 0x3000);
    run_steps(&mut state, &rom, 1); // SPHL
    assert_eq!(state.sp, 0xabcd);
    state.h = 0x00;
    state.l = 0x01;
    run_steps(&mut state, &rom, 1); // PCHL
    assert_eq!(state.pc, 0x0001);
}

#[test]
fn carry_and_complement() {
    let (mut state, rom) = machine(&[0x37, 0x3f, 0x3f, 0x2f]);
    run_steps(&mut state, &rom, 1);
    assert!(state.condition.cy);
    run_steps(&mut state, &rom, 1);
    assert!(!state.condition.cy);
    run_steps(&mut state, &rom, 1);
    assert!(state.condition.cy);
    state.a = 0x0f;
    run_steps(&mut state, &rom, 1);
    assert_eq!(state.a, 0xf0);
    assert!(state.condition.cy);
}

#[test]
fn interrupt_enable_and_disable() {
    let (mut state, rom) = machine(&[0xfb, 0xf3]);
    run_steps(&mut state, &rom, 1);
    assert!(state.interrupts);
    run_steps(&mut state, &rom, 1);
    assert!(!state.interrupts);
}

#[test]
fn input_ports() {
    let (mut state, rom) = machine(&[0xdb, 0x00, 0xdb, 0x01, 0xdb, 0x02, 0xdb, 0x07]);
    state.input_1 = 0x15;
    state.input_2 = 0x2a;
    run_steps(&mut state, &rom, 1);
    assert_eq!(state.a, 0x0f);
    run_steps(&mut state, &rom, 1);
    assert_eq!(state.a, 0x15);
    run_steps(&mut state, &rom, 1);
    assert_eq!(state.a, 0x2a);
    run_steps(&mut state, &rom, 1);
    assert_eq!(state.a, 0x00);
    assert_eq!(state.pc, 8);
}

#[test]
fn output_ports() {
    let (mut state, rom) =
        machine(&[0xd3, 0x02, 0xd3, 0x04, 0xd3, 0x04, 0xd3, 0x03, 0xd3, 0x05, 0xd3, 0x06]);
    state.a = 0xfd;
    let r = one_step(&mut state, &rom);
    assert_eq!(r, StepResult { outcome: StepOutcome::Continue, cycles: 10, jumped: false, event: None });
    assert_eq!(state.shift_offset, 5);
    state.a = 0xaa;
    run_steps(&mut state, &rom, 1);
    assert_eq!((state.shift_1, state.shift_0), (0xaa, 0x00));
    state.a = 0xbb;
    run_steps(&mut state, &rom, 1);
    assert_eq!((state.shift_1, state.shift_0), (0xbb, 0xaa));
    state.a = 0x03;
    let r = one_step(&mut state, &rom);
    assert_eq!(r.event, Some(PortEvent { port: 3, value: 0x03 }));
    assert_eq!(state.output_3, 0x03);
    state.a = 0x10;
    let r = one_step(&mut state, &rom);
    assert_eq!(r.event, Some(PortEvent { port: 5, value: 0x10 }));
    assert_eq!(state.output_5, 0x10);
    let before = state.clone();
    let r = one_step(&mut state, &rom);
    assert_eq!(r.event, None);
    assert_eq!(state.pc, 12);
    assert_eq!(state.shift_offset, before.shift_offset);
    assert_eq!((state.output_3, state.output_5), (before.output_3, before.output_5));
}

#[test]
fn output_to_an_unknown_port_is_unimplemented() {
    for port in [0u8, 1, 7, 0xff] {
        let (mut state, rom) = machine(&[0xd3, port]);
        state.a = 0x55;
        let r = one_step(&mut state, &rom);
        assert_eq!(
            r,
            StepResult { outcome: StepOutcome::Unimplemented(0xd3), cycles: 0, jumped: false, event: None }
        );
        assert_eq!(state.pc, 0);
    }
}

#[test]
fn step_tells_whether_control_was_transferred() {
    // opcode, flags set, expected
    let all = ConditionCodes { z: true, s: true, p: true, cy: true, ac: true, pad: 0 };
    let none = ConditionCodes::default();
    let cases: [(u8, ConditionCodes, bool); 12] = [
        (0x00, none, false),
        (0xc3, none, true),
        (0xcd, none, true),
        (0xc9, none, true),
        (0xe9, none, true),
        (0xcf, none, true),
        (0xca, all, true),
        (0xca, none, false),
        (0xcc, all, true),
        (0xcc, none, false),
        (0xc8, all, true),
        (0xc8, none, false),
    ];
    for (opcode, flags, jumped) in cases {
        let (mut state, rom) = machine(&[opcode, 0x00, 0x00]);
        state.condition = flags;
        state.sp = 0x2400;
        let result = one_step(&mut state, &rom);
        assert_eq!(result.outcome, StepOutcome::Continue);
        assert_eq!(result.jumped, jumped, "opcode {:#04x}", opcode);
    }
}

#[test]
fn halt_leaves_the_machine_alone() {
    let (mut state, rom) = machine(&[0x76]);
    state.a = 0x42;
    let r = one_step(&mut state, &rom);
    assert_eq!(r, StepResult { outcome: StepOutcome::Halted, cycles: 0, jumped: false, event: None });
    assert_eq!(state.pc, 0);
    assert_eq!(state.a, 0x42);
}

#[test]
fn opcode_without_handler_is_reported() {
    for op in [0x08u8, 0x20, 0x40, 0x7f, 0xcb, 0xfd] {
        let (mut state, rom) = machine(&[op]);
        let r = one_step(&mut state, &rom);
        assert_eq!(
            r,
            StepResult { outcome: StepOutcome::Unimplemented(op), cycles: 0, jumped: false, event: None }
        );
        assert_eq!(state.pc, 0);
    }
}

#[test]
fn program_counter_wraps() {
    let mut program = vec![0u8; 0x10000];
    program[0xffff] = 0x00;
    let (mut state, rom) = machine(&program);
    state.pc = 0xffff;
    run_steps(&mut state, &rom, 1);
    assert_eq!(state.pc, 0x0000);
}

#[test]
fn instruction_must_lie_within_the_image() {
    let rom = vec![0x00u8, 0x3e, 0x01, 0xc3, 0x00];
    assert!(instruction_fits(&rom, 0));
    assert!(instruction_fits(&rom, 1));
    assert!(instruction_fits(&rom, 2));
    assert!(!instruction_fits(&rom, 3));
    assert!(instruction_fits(&rom, 4));
    assert!(!instruction_fits(&rom, 5));
    assert!(!instruction_fits(&rom, 0xffff));
    assert!(!instruction_fits(&Vec::new(), 0));
}

#[test]
fn try_step_refuses_an_instruction_outside_the_image() {
    let (mut state, rom) = machine(&[0x3e, 0x09, 0xc3, 0x00]);
    let first = try_step(&mut state, &rom);
    assert_eq!(
        first,
        Some(StepResult { outcome: StepOutcome::Continue, cycles: 7, jumped: false, event: None })
    );
    assert_eq!(state.a, 9);
    assert_eq!(state.pc, 2);
    // The jump at 2 lacks its second address byte.
    assert_eq!(try_step(&mut state, &rom), None);
    assert_eq!(state.pc, 2);
    assert_eq!(state.a, 9);
    state.pc = 0x1000;
    assert_eq!(try_step(&mut state, &rom), None);
    assert_eq!(state.pc, 0x1000);
}
