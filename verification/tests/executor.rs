use chip8::font::FONT_SET;
use chip8::instruction::Instruction;
use chip8::interpreter::Interpreter;
use chip8::machine::Fault;

fn machine() -> Interpreter {
    Interpreter::new(Vec::new())
}

fn run(m: &mut Interpreter, instruction: Instruction) {
    assert_eq!(m.run_instruction(&instruction), Ok(()));
}

#[test]
fn a_new_machine_holds_glyphs_program_and_zeroes() {
    let rom = vec![0x12, 0x34, 0x56];
    let m = Interpreter::new(rom);
    assert_eq!(m.pc, 0x200);
    assert_eq!(m.sp, 0);
    assert_eq!(m.i, 0);
    assert_eq!(m.delay_timer, 0);
    assert_eq!(m.sound_timer, 0);
    assert_eq!(m.regs, [0u8; 16]);
    assert_eq!(m.stack, [0u16; 16]);
    assert_eq!(m.keys, [0u8; 16]);
    assert!(m.vram.iter().all(|pixel| *pixel == 0));
    assert_eq!(&m.memory[..80], &FONT_SET[..]);
    assert!(m.memory[80..0x200].iter().all(|byte| *byte == 0));
    assert_eq!(&m.memory[0x200..0x203], &[0x12, 0x34, 0x56]);
    assert!(m.memory[0x203..].iter().all(|byte| *byte == 0));
    assert!(m.is_valid());
}

#[test]
fn a_program_may_fill_memory_to_its_end() {
    let rom = vec![0xAB; 4096 - 0x200];
    let m = Interpreter::new(rom);
    assert_eq!(m.memory[0x200], 0xAB);
    assert_eq!(m.memory[0xFFF], 0xAB);
    assert_eq!(m.memory[0x1FF], 0);
    assert_eq!(m.memory[0], 0xF0);
}

#[test]
fn the_glyph_table_starts_with_zero_and_ends_with_f() {
    assert_eq!(&FONT_SET[..5], &[0xF0, 0x90, 0x90, 0x90, 0xF0]);
    assert_eq!(&FONT_SET[75..], &[0xF0, 0x80, 0xF0, 0x80, 0x80]);
}

#[test]
fn fetch_reads_high_byte_first() {
    let m = Interpreter::new(vec![0xAB, 0xCD]);
    assert_eq!(m.get_optcode(), 0xABCD);
}

#[test]
fn fetch_wraps_at_the_end_of_memory() {
    let mut m = machine();
    m.memory[0xFFF] = 0x12;
    m.memory[0x000] = 0x34;
    m.pc = 0xFFF;
    assert_eq!(m.get_optcode(), 0x1234);
    m.pc = 0x1FFF;
    assert_eq!(m.get_optcode(), 0x1234);
}

#[test]
fn pc_next_adds_two_and_wraps() {
    let mut m = machine();
    m.pc_next();
    assert_eq!(m.pc, 0x202);
    m.pc = 0xFFFF;
    m.pc_next();
    assert_eq!(m.pc, 0x0001);
}

#[test]
fn add_sets_carry_when_the_sum_exceeds_a_byte() {
    let mut m = machine();
    m.regs[1] = 0xFF;
    m.regs[2] = 0x01;
    run(&mut m, Instruction::OP_8XY4(1, 2));
    assert_eq!(m.regs[1], 0x00);
    assert_eq!(m.regs[0xF], 1);
    assert_eq!(m.pc, 0x202);
}

#[test]
fn add_clears_carry_when_the_sum_fits() {
    let mut m = machine();
    m.regs[1] = 0x01;
    m.regs[2] = 0x01;
    m.regs[0xF] = 1;
    run(&mut m, Instruction::OP_8XY4(1, 2));
    assert_eq!(m.regs[1], 0x02);
    assert_eq!(m.regs[0xF], 0);
}

#[test]
fn add_into_the_flag_register_keeps_the_carry() {
    let mut m = machine();
    m.regs[0xF] = 0xF0;
    m.regs[1] = 0x20;
    run(&mut m, Instruction::OP_8XY4(0xF, 1));
    assert_eq!(m.regs[0xF], 1);
}

#[test]
fn subtract_wraps_and_clears_the_flag_on_borrow() {
    let mut m = machine();
    m.regs[1] = 0x01;
    m.regs[2] = 0x02;
    run(&mut m, Instruction::OP_8XY5(1, 2));
    assert_eq!(m.regs[1], 0xFF);
    assert_eq!(m.regs[0xF], 0);
}

#[test]
fn subtract_sets_the_flag_without_borrow() {
    let mut m = machine();
    m.regs[1] = 0x02;
    m.regs[2] = 0x01;
    run(&mut m, Instruction::OP_8XY5(1, 2));
    assert_eq!(m.regs[1], 0x01);
    assert_eq!(m.regs[0xF], 1);
}

#[test]
fn subtract_of_equal_values_clears_the_flag() {
    let mut m = machine();
    m.regs[1] = 0x07;
    m.regs[2] = 0x07;
    m.regs[0xF] = 1;
    run(&mut m, Instruction::OP_8XY5(1, 2));
    assert_eq!(m.regs[1], 0x00);
    assert_eq!(m.regs[0xF], 0);
}

#[test]
fn reverse_subtract_takes_vx_from_vy() {
    let mut m = machine();
    m.regs[1] = 0x02;
    m.regs[2] = 0x0A;
    run(&mut m, Instruction::OP_8XY7(1, 2));
    assert_eq!(m.regs[1], 0x08);
    assert_eq!(m.regs[2], 0x0A);
    assert_eq!(m.regs[0xF], 1);
    m.regs[1] = 0x0B;
    run(&mut m, Instruction::OP_8XY7(1, 2));
    assert_eq!(m.regs[1], 0xFF);
    assert_eq!(m.regs[0xF], 0);
}

#[test]
fn clear_screen_zeroes_every_pixel() {
    let mut m = machine();
    for pixel in m.vram.iter_mut() {
        *pixel = 1;
    }
    run(&mut m, Instruction::OP_00E0);
    assert!(m.vram.iter().all(|pixel| *pixel == 0));
    assert!(m.draw().is_empty());
    assert_eq!(m.pc, 0x202);
}

#[test]
fn drawing_twice_collides_and_clears() {
    let mut m = machine();
    m.i = 0x300;
    m.memory[0x300] = 0b1010_0101;
    m.regs[0] = 10;
    m.regs[1] = 5;
    run(&mut m, Instruction::OP_DXYN(0, 1, 1));
    assert_eq!(m.regs[0xF], 0);
    let row = 5 * 64;
    assert_eq!(&m.vram[row + 10..row + 18], &[1, 0, 1, 0, 0, 1, 0, 1]);
    run(&mut m, Instruction::OP_DXYN(0, 1, 1));
    assert_eq!(m.regs[0xF], 1);
    assert!(m.vram.iter().all(|pixel| *pixel == 0));
    assert_eq!(m.pc, 0x204);
}

#[test]
fn drawing_wraps_at_the_right_and_bottom_edges() {
    let mut m = machine();
    m.i = 0x300;
    m.memory[0x300] = 0xFF;
    m.memory[0x301] = 0xFF;
    m.regs[0] = 63;
    m.regs[1] = 31;
    run(&mut m, Instruction::OP_DXYN(0, 1, 2));
    assert_eq!(m.regs[0xF], 0);
    let lit: Vec<usize> = (0..2048).filter(|index| m.vram[*index] == 1).collect();
    let mut expected: Vec<usize> = Vec::new();
    for y in [0usize, 31] {
        for x in [0usize, 1, 2, 3, 4, 5, 6, 63] {
            expected.push(y * 64 + x);
        }
    }
    expected.sort();
    assert_eq!(lit, expected);
    assert_eq!(m.vram[31 * 64 + 63], 1);
    assert_eq!(m.vram[31 * 64], 1);
    assert!(m.is_valid());
}

#[test]
fn drawing_wraps_coordinates_larger_than_the_screen() {
    let mut m = machine();
    m.i = 0x300;
    m.memory[0x300] = 0x80;
    m.regs[0] = 64 + 3;
    m.regs[1] = 32 * 7 + 2;
    run(&mut m, Instruction::OP_DXYN(0, 1, 1));
    let lit: Vec<usize> = (0..2048).filter(|index| m.vram[*index] == 1).collect();
    assert_eq!(lit, vec![2 * 64 + 3]);
}

#[test]
fn drawing_reads_the_high_bit_as_the_left_pixel() {
    let mut m = machine();
    m.i = 0x300;
    m.memory[0x300] = 0b1100_0001;
    run(&mut m, Instruction::OP_DXYN(0, 0, 1));
    assert_eq!(&m.vram[0..8], &[1, 1, 0, 0, 0, 0, 0, 1]);
}

#[test]
fn drawing_over_a_partly_lit_row_flags_the_collision_and_toggles() {
    let mut m = machine();
    m.i = 0x300;
    m.memory[0x300] = 0b1111_0000;
    m.vram[2] = 1;
    m.vram[6] = 1;
    run(&mut m, Instruction::OP_DXYN(0, 0, 1));
    assert_eq!(m.regs[0xF], 1);
    assert_eq!(&m.vram[0..8], &[1, 1, 0, 1, 0, 0, 1, 0]);
}

#[test]
fn drawing_a_glyph_shows_its_rows() {
    let mut m = machine();
    m.regs[3] = 0x0A;
    run(&mut m, Instruction::OP_FX29(3));
    run(&mut m, Instruction::OP_DXYN(0, 0, 5));
    let rows: Vec<Vec<u8>> = (0..5).map(|y| m.vram[y * 64..y * 64 + 4].to_vec()).collect();
    assert_eq!(
        rows,
        vec![vec![1, 1, 1, 1], vec![1, 0, 0, 1], vec![1, 1, 1, 1], vec![1, 0, 0, 1], vec![1, 0, 0, 1]]
    );
}

#[test]
fn drawing_with_no_rows_only_clears_the_flag() {
    let mut m = machine();
    m.regs[0xF] = 7;
    run(&mut m, Instruction::OP_DXYN(0, 1, 0));
    assert_eq!(m.regs[0xF], 0);
    assert!(m.vram.iter().all(|pixel| *pixel == 0));
}

#[test]
fn drawing_reads_the_sprite_across_the_end_of_memory() {
    let mut m = machine();
    m.i = 0xFFF;
    m.memory[0xFFF] = 0x80;
    m.memory[0x000] = 0x40;
    run(&mut m, Instruction::OP_DXYN(1, 1, 2));
    assert_eq!(m.vram[0], 1);
    assert_eq!(m.vram[64 + 1], 1);
}

#[test]
fn drawing_with_the_flag_as_x_reads_it_after_it_is_cleared() {
    let mut m = machine();
    m.i = 0x300;
    m.memory[0x300] = 0x80;
    m.regs[0xF] = 9;
    run(&mut m, Instruction::OP_DXYN(0xF, 0, 1));
    assert_eq!(m.vram[0], 1);
    assert_eq!(m.vram[9], 0);
}

#[test]
fn timers_count_down_to_zero_and_stay() {
    // The program is a jump to itself, so that each step executes.
    let mut m = Interpreter::new(vec![0x12, 0x00]);
    m.delay_timer = 5;
    m.sound_timer = 2;
    let mut seen = Vec::new();
    for _ in 0..6 {
        assert_eq!(m.tick([0; 16]), Ok(()));
        seen.push((m.delay_timer, m.sound_timer));
    }
    assert_eq!(seen, vec![(4, 1), (3, 0), (2, 0), (1, 0), (0, 0), (0, 0)]);
    assert_eq!(m.pc, 0x200);
}

#[test]
fn a_timer_set_by_the_step_is_not_decremented_in_it() {
    // 6105: V1 = 5; F115: delay = V1; F118: sound = V1; F207: V2 = delay.
    let mut m = Interpreter::new(vec![0x61, 0x05, 0xF1, 0x15, 0xF1, 0x18, 0xF2, 0x07]);
    assert_eq!(m.tick([0; 16]), Ok(()));
    assert_eq!(m.tick([0; 16]), Ok(()));
    assert_eq!(m.delay_timer, 5);
    assert_eq!(m.tick([0; 16]), Ok(()));
    assert_eq!(m.delay_timer, 4);
    assert_eq!(m.sound_timer, 5);
    assert_eq!(m.tick([0; 16]), Ok(()));
    assert_eq!(m.regs[2], 3);
    assert_eq!(m.sound_timer, 4);
}

#[test]
fn call_then_return_resumes_after_the_call() {
    let mut m = machine();
    m.pc = 0x246;
    run(&mut m, Instruction::OP_2NNN(0x400));
    assert_eq!(m.pc, 0x400);
    assert_eq!(m.sp, 1);
    assert_eq!(m.stack[0], 0x246);
    run(&mut m, Instruction::OP_00EE);
    assert_eq!(m.pc, 0x248);
    assert_eq!(m.sp, 0);
}

#[test]
fn nested_calls_return_in_reverse_order() {
    let mut m = machine();
    run(&mut m, Instruction::OP_2NNN(0x300));
    run(&mut m, Instruction::OP_2NNN(0x400));
    assert_eq!(m.sp, 2);
    run(&mut m, Instruction::OP_00EE);
    assert_eq!(m.pc, 0x302);
    run(&mut m, Instruction::OP_00EE);
    assert_eq!(m.pc, 0x202);
}

#[test]
fn the_seventeenth_call_overflows_and_changes_nothing() {
    let mut m = machine();
    for depth in 0..16u16 {
        run(&mut m, Instruction::OP_2NNN(0x300 + depth));
    }
    assert_eq!(m.sp, 16);
    let stack = m.stack;
    assert_eq!(m.run_instruction(&Instruction::OP_2NNN(0x500)), Err(Fault::StackOverflow));
    assert_eq!(m.sp, 16);
    assert_eq!(m.pc, 0x30F);
    assert_eq!(m.stack, stack);
    assert!(m.is_valid());
}

#[test]
fn a_return_without_a_call_underflows_and_changes_nothing() {
    let mut m = machine();
    assert_eq!(m.run_instruction(&Instruction::OP_00EE), Err(Fault::StackUnderflow));
    assert_eq!(m.sp, 0);
    assert_eq!(m.pc, 0x200);
}

#[test]
fn a_step_reports_a_fault_of_its_instruction() {
    let mut m = Interpreter::new(vec![0x00, 0xEE]);
    m.delay_timer = 3;
    assert_eq!(m.tick([1; 16]), Err(Fault::StackUnderflow));
    assert_eq!(m.pc, 0x200);
    assert_eq!(m.delay_timer, 2);
    assert_eq!(m.keys, [1; 16]);
}

#[test]
fn an_unknown_opcode_is_reported_and_changes_only_keys_and_timers() {
    let mut m = Interpreter::new(vec![0xFF, 0xFF]);
    m.regs = [7; 16];
    m.i = 0x123;
    m.vram[5] = 1;
    m.delay_timer = 9;
    m.sound_timer = 0;
    let memory = m.memory;
    let vram = m.vram;
    let keys = [0, 1, 0, 0, 0, 0, 0, 0, 0, 0, 0, 0, 0, 0, 0, 1];
    assert_eq!(m.tick(keys), Err(Fault::UnknownOpcode(0xFFFF)));
    assert_eq!(m.regs, [7; 16]);
    assert_eq!(m.i, 0x123);
    assert_eq!(m.pc, 0x200);
    assert_eq!(m.sp, 0);
    assert_eq!(m.stack, [0; 16]);
    assert_eq!(m.memory, memory);
    assert_eq!(m.vram, vram);
    assert_eq!(m.keys, keys);
    assert_eq!(m.delay_timer, 8);
    assert_eq!(m.sound_timer, 0);
}

#[test]
fn a_step_executes_the_instruction_at_the_program_counter() {
    // 6A2A: VA = 0x2A; 7A01: VA += 1; 1200: jump to the start.
    let mut m = Interpreter::new(vec![0x6A, 0x2A, 0x7A, 0x01, 0x12, 0x00]);
    assert_eq!(m.tick([0; 16]), Ok(()));
    assert_eq!(m.regs[0xA], 0x2A);
    assert_eq!(m.pc, 0x202);
    assert_eq!(m.tick([0; 16]), Ok(()));
    assert_eq!(m.regs[0xA], 0x2B);
    assert_eq!(m.pc, 0x204);
    assert_eq!(m.tick([0; 16]), Ok(()));
    assert_eq!(m.pc, 0x200);
}

#[test]
fn jump_sets_the_program_counter() {
    let mut m = machine();
    run(&mut m, Instruction::OP_1NNN(0xABC));
    assert_eq!(m.pc, 0xABC);
}

#[test]
fn jump_with_offset_adds_v0() {
    let mut m = machine();
    m.regs[0] = 0xFF;
    run(&mut m, Instruction::OP_BNNN(0xFFF));
    assert_eq!(m.pc, 0x10FE);
    m.regs[0] = 0x04;
    run(&mut m, Instruction::OP_BNNN(0x300));
    assert_eq!(m.pc, 0x304);
}

#[test]
fn skips_compare_with_an_immediate() {
    let mut m = machine();
    m.regs[4] = 0x33;
    run(&mut m, Instruction::OP_3XNN(4, 0x33));
    assert_eq!(m.pc, 0x204);
    run(&mut m, Instruction::OP_3XNN(4, 0x34));
    assert_eq!(m.pc, 0x206);
    run(&mut m, Instruction::OP_4XNN(4, 0x33));
    assert_eq!(m.pc, 0x208);
    run(&mut m, Instruction::OP_4XNN(4, 0x34));
    assert_eq!(m.pc, 0x20C);
}

#[test]
fn skips_compare_two_registers() {
    let mut m = machine();
    m.regs[4] = 0x33;
    m.regs[5] = 0x33;
    m.regs[6] = 0x34;
    run(&mut m, Instruction::OP_5XY0(4, 5));
    assert_eq!(m.pc, 0x204);
    run(&mut m, Instruction::OP_5XY0(4, 6));
    assert_eq!(m.pc, 0x206);
    run(&mut m, Instruction::OP_9XY0(4, 5));
    assert_eq!(m.pc, 0x208);
    run(&mut m, Instruction::OP_9XY0(4, 6));
    assert_eq!(m.pc, 0x20C);
}

#[test]
fn set_and_add_immediate() {
    let mut m = machine();
    run(&mut m, Instruction::OP_6XNN(3, 0xFE));
    assert_eq!(m.regs[3], 0xFE);
    m.regs[0xF] = 5;
    run(&mut m, Instruction::OP_7XNN(3, 0x03));
    assert_eq!(m.regs[3], 0x01);
    assert_eq!(m.regs[0xF], 5);
    assert_eq!(m.pc, 0x204);
}

#[test]
fn copy_and_bitwise_operations() {
    let mut m = machine();
    m.regs[1] = 0b1100_1010;
    m.regs[2] = 0b1010_0110;
    run(&mut m, Instruction::OP_8XY0(3, 1));
    assert_eq!(m.regs[3], 0b1100_1010);
    run(&mut m, Instruction::OP_8XY1(3, 2));
    assert_eq!(m.regs[3], 0b1110_1110);
    m.regs[3] = 0b1100_1010;
    run(&mut m, Instruction::OP_8XY2(3, 2));
    assert_eq!(m.regs[3], 0b1000_0010);
    m.regs[3] = 0b1100_1010;
    run(&mut m, Instruction::OP_8XY3(3, 2));
    assert_eq!(m.regs[3], 0b0110_1100);
    assert_eq!(m.regs[0xF], 0);
}

#[test]
fn shift_right_moves_vy_into_vx() {
    let mut m = machine();
    m.regs[1] = 0xAA;
    m.regs[2] = 0b0000_0101;
    run(&mut m, Instruction::OP_8XY6(1, 2));
    assert_eq!(m.regs[1], 0b0000_0010);
    assert_eq!(m.regs[2], 0b0000_0101);
    assert_eq!(m.regs[0xF], 1);
    m.regs[2] = 0b0000_0100;
    run(&mut m, Instruction::OP_8XY6(1, 2));
    assert_eq!(m.regs[1], 0b0000_0010);
    assert_eq!(m.regs[0xF], 0);
}

#[test]
fn shift_right_in_place_reports_the_bit_shifted_out() {
    let mut m = machine();
    m.regs[1] = 0b0000_0101;
    run(&mut m, Instruction::OP_8XY6(1, 1));
    assert_eq!(m.regs[1], 0b0000_0010);
    assert_eq!(m.regs[0xF], 1);
}

#[test]
fn shift_left_moves_vy_into_vx() {
    let mut m = machine();
    m.regs[2] = 0b1100_0001;
    run(&mut m, Instruction::OP_8XYE(1, 2));
    assert_eq!(m.regs[1], 0b1000_0010);
    assert_eq!(m.regs[2], 0b1100_0001);
    assert_eq!(m.regs[0xF], 1);
    m.regs[2] = 0b0100_0001;
    run(&mut m, Instruction::OP_8XYE(1, 2));
    assert_eq!(m.regs[1], 0b1000_0010);
    assert_eq!(m.regs[0xF], 0);
}

#[test]
fn shift_left_in_place_reports_the_bit_shifted_out() {
    let mut m = machine();
    m.regs[1] = 0b1000_0001;
    run(&mut m, Instruction::OP_8XYE(1, 1));
    assert_eq!(m.regs[1], 0b0000_0010);
    assert_eq!(m.regs[0xF], 1);
}

#[test]
fn set_index() {
    let mut m = machine();
    run(&mut m, Instruction::OP_ANNN(0xFED));
    assert_eq!(m.i, 0xFED);
    assert_eq!(m.pc, 0x202);
}

#[test]
fn random_is_masked_by_the_immediate() {
    let mut m = machine();
    for _ in 0..64 {
        m.regs[1] = 0xFF;
        run(&mut m, Instruction::OP_CXNN(1, 0x00));
        assert_eq!(m.regs[1], 0);
        run(&mut m, Instruction::OP_CXNN(2, 0x0F));
        assert_eq!(m.regs[2] & 0xF0, 0);
    }
    assert_eq!(m.pc, 0x200 + 2 * 128);
}

#[test]
fn execute_takes_the_random_byte_from_its_caller() {
    let mut m = machine();
    assert_eq!(m.execute(&Instruction::OP_CXNN(1, 0x3C), 0xA5), Ok(()));
    assert_eq!(m.regs[1], 0x24);
    assert_eq!(m.execute(&Instruction::OP_6XNN(2, 0x11), 0xA5), Ok(()));
    assert_eq!(m.regs[2], 0x11);
}

#[test]
fn key_skips_follow_the_key_state() {
    let mut m = machine();
    m.keys[0xB] = 1;
    m.regs[1] = 0xB;
    m.regs[2] = 0x3;
    run(&mut m, Instruction::OP_EX9E(1));
    assert_eq!(m.pc, 0x204);
    run(&mut m, Instruction::OP_EX9E(2));
    assert_eq!(m.pc, 0x206);
    run(&mut m, Instruction::OP_EXA1(1));
    assert_eq!(m.pc, 0x208);
    run(&mut m, Instruction::OP_EXA1(2));
    assert_eq!(m.pc, 0x20C);
}

#[test]
fn a_key_index_beyond_the_keypad_is_never_down() {
    let mut m = machine();
    m.keys = [1; 16];
    m.regs[1] = 0x10;
    m.regs[2] = 0xFF;
    run(&mut m, Instruction::OP_EX9E(1));
    assert_eq!(m.pc, 0x202);
    run(&mut m, Instruction::OP_EXA1(2));
    assert_eq!(m.pc, 0x206);
}

#[test]
fn wait_for_key_repeats_until_a_key_is_down() {
    // F30A: wait for a key into V3.
    let mut m = Interpreter::new(vec![0xF3, 0x0A]);
    m.regs[3] = 0x77;
    for _ in 0..3 {
        assert_eq!(m.tick([0; 16]), Ok(()));
        assert_eq!(m.pc, 0x200);
        assert_eq!(m.regs[3], 0x77);
    }
    let mut keys = [0; 16];
    keys[0xC] = 1;
    assert_eq!(m.tick(keys), Ok(()));
    assert_eq!(m.pc, 0x202);
    assert_eq!(m.regs[3], 0xC);
}

#[test]
fn wait_for_key_takes_the_lowest_key_that_is_down() {
    let mut m = machine();
    m.keys[0x9] = 1;
    m.keys[0x4] = 1;
    m.keys[0xF] = 1;
    run(&mut m, Instruction::OP_FX0A(0));
    assert_eq!(m.regs[0], 0x4);
    m.keys = [0; 16];
    m.keys[0] = 1;
    run(&mut m, Instruction::OP_FX0A(1));
    assert_eq!(m.regs[1], 0x0);
    assert_eq!(m.pc, 0x204);
}

#[test]
fn timers_move_to_and_from_registers() {
    let mut m = machine();
    m.delay_timer = 0x42;
    run(&mut m, Instruction::OP_FX07(1));
    assert_eq!(m.regs[1], 0x42);
    m.regs[2] = 0x10;
    run(&mut m, Instruction::OP_FX15(2));
    assert_eq!(m.delay_timer, 0x10);
    m.regs[3] = 0x20;
    run(&mut m, Instruction::OP_FX18(3));
    assert_eq!(m.sound_timer, 0x20);
    assert_eq!(m.pc, 0x206);
}

#[test]
fn add_to_index_wraps_at_sixteen_bits() {
    let mut m = machine();
    m.i = 0x0FFF;
    m.regs[1] = 0x02;
    run(&mut m, Instruction::OP_FX1E(1));
    assert_eq!(m.i, 0x1001);
    m.i = 0xFFFF;
    run(&mut m, Instruction::OP_FX1E(1));
    assert_eq!(m.i, 0x0001);
}

#[test]
fn glyph_address_uses_the_low_digit() {
    let mut m = machine();
    m.regs[1] = 0x0A;
    run(&mut m, Instruction::OP_FX29(1));
    assert_eq!(m.i, 50);
    m.regs[1] = 0xF3;
    run(&mut m, Instruction::OP_FX29(1));
    assert_eq!(m.i, 15);
    m.regs[1] = 0x00;
    run(&mut m, Instruction::OP_FX29(1));
    assert_eq!(m.i, 0);
}

#[test]
fn decimal_digits_are_stored_at_the_index() {
    let mut m = machine();
    m.i = 0x300;
    m.regs[1] = 254;
    run(&mut m, Instruction::OP_FX33(1));
    assert_eq!(&m.memory[0x300..0x303], &[2, 5, 4]);
    m.regs[1] = 7;
    run(&mut m, Instruction::OP_FX33(1));
    assert_eq!(&m.memory[0x300..0x303], &[0, 0, 7]);
    assert_eq!(m.i, 0x300);
}

#[test]
fn decimal_digits_wrap_at_the_end_of_memory() {
    let mut m = machine();
    m.i = 0xFFF;
    m.regs[1] = 123;
    run(&mut m, Instruction::OP_FX33(1));
    assert_eq!(m.memory[0xFFF], 1);
    assert_eq!(m.memory[0x000], 2);
    assert_eq!(m.memory[0x001], 3);
    m.i = 0xFFFF;
    m.regs[1] = 45;
    run(&mut m, Instruction::OP_FX33(1));
    assert_eq!(m.memory[0xFFF], 0);
    assert_eq!(m.memory[0x000], 4);
    assert_eq!(m.memory[0x001], 5);
}

#[test]
fn store_registers_copies_and_moves_the_index() {
    let mut m = machine();
    for k in 0..16 {
        m.regs[k] = 0xA0 + k as u8;
    }
    m.i = 0x300;
    m.memory[0x304] = 0x55;
    run(&mut m, Instruction::OP_FX55(3));
    assert_eq!(&m.memory[0x300..0x305], &[0xA0, 0xA1, 0xA2, 0xA3, 0x55]);
    assert_eq!(m.i, 0x304);
    run(&mut m, Instruction::OP_FX55(0));
    assert_eq!(m.memory[0x304], 0xA0);
    assert_eq!(m.i, 0x305);
}

#[test]
fn load_registers_copies_and_moves_the_index() {
    let mut m = machine();
    m.i = 0x300;
    for k in 0..16 {
        m.memory[0x300 + k] = 0xB0 + k as u8;
    }
    m.regs[4] = 0x77;
    run(&mut m, Instruction::OP_FX65(3));
    assert_eq!(&m.regs[0..5], &[0xB0, 0xB1, 0xB2, 0xB3, 0x77]);
    assert_eq!(m.i, 0x304);
    run(&mut m, Instruction::OP_FX65(0xF));
    assert_eq!(m.regs[0], 0xB4);
    assert_eq!(m.regs[0xB], 0xBF);
    assert_eq!(m.regs[0xC], 0x00);
    assert_eq!(m.i, 0x314);
}

#[test]
fn register_transfers_wrap_at_the_end_of_memory() {
    let mut m = machine();
    m.regs[0] = 0x11;
    m.regs[1] = 0x22;
    m.regs[2] = 0x33;
    m.i = 0xFFE;
    run(&mut m, Instruction::OP_FX55(2));
    assert_eq!(m.memory[0xFFE], 0x11);
    assert_eq!(m.memory[0xFFF], 0x22);
    assert_eq!(m.memory[0x000], 0x33);
    assert_eq!(m.i, 0x1001);
    m.regs = [0; 16];
    m.i = 0xFFFE;
    run(&mut m, Instruction::OP_FX65(2));
    assert_eq!(&m.regs[0..3], &[0x11, 0x22, 0x33]);
    assert_eq!(m.i, 0x0001);
}

#[test]
fn validity_is_about_the_stack_pointer_and_the_pixels() {
    let mut m = machine();
    assert!(m.is_valid());
    m.sp = 16;
    assert!(m.is_valid());
    m.sp = 17;
    assert!(!m.is_valid());
    m.sp = 0;
    m.vram[2047] = 2;
    assert!(!m.is_valid());
    m.vram[2047] = 1;
    assert!(m.is_valid());
}
