use chip8::cpu::Chip8Error;
use chip8::cpu::Cpu;
use chip8::interpreter::Interpreter;
use chip8::program::Program;

fn fresh() -> Interpreter {
    Interpreter::new()
}

#[test]
fn new_machine_state() {
    let i = fresh();
    assert_eq!(i.cpu.program_counter, 0x200);
    assert_eq!(i.cpu.stack_pointer, 0);
    assert_eq!(i.cpu.index, 0);
    assert_eq!(i.cpu.delay_timer, 0);
    assert_eq!(i.cpu.sound_timer, 0);
    assert_eq!(i.cpu.registers, vec![0u8; 16]);
    assert_eq!(i.cpu.keys, vec![false; 16]);
    // The font table sits in the lowest eighty bytes, zero above it.
    assert_eq!(i.cpu.memory[0], 0xF0);
    assert_eq!(i.cpu.memory[5], 0x20);
    assert_eq!(i.cpu.memory[79], 0x80);
    assert_eq!(i.cpu.memory[80], 0x00);
    assert_eq!(i.cpu.memory[4095], 0x00);
}

#[test]
fn cpu_new_matches_interpreter_new() {
    let c = Cpu::new();
    let i = fresh();
    assert_eq!(c.memory, i.cpu.memory);
    assert_eq!(c.program_counter, i.cpu.program_counter);
}

#[test]
fn load_program_copies_at_start_offset() {
    let mut i = fresh();
    let p = Program { content: vec![0x12, 0x34, 0x56] };
    assert!(i.load_program(&p).is_ok());
    assert_eq!(i.cpu.memory[0x200], 0x12);
    assert_eq!(i.cpu.memory[0x201], 0x34);
    assert_eq!(i.cpu.memory[0x202], 0x56);
    assert_eq!(i.cpu.memory[0x203], 0x00);
    assert_eq!(i.cpu.memory[0x1FF], 0x00);
}

#[test]
fn load_program_rejects_oversize_image() {
    let mut i = fresh();
    let fits = Program { content: vec![0u8; 3584] };
    assert!(i.load_program(&fits).is_ok());
    let too_big = Program { content: vec![0u8; 3585] };
    assert_eq!(i.load_program(&too_big), Err(Chip8Error::ProgramTooLarge));
}

#[test]
fn add_register_register_carry_boundary() {
    // 0xFF + 0x01 carries: flag 1, destination 0x00.
    let mut i = fresh();
    i.cpu.registers[1] = 0xFF;
    i.cpu.registers[2] = 0x01;
    i.add_vx_vy(1, 2);
    assert_eq!(i.cpu.registers[1], 0x00);
    assert_eq!(i.cpu.registers[0xF], 1);
    // 0x01 + 0x01 does not: flag 0, destination 0x02.
    let mut i = fresh();
    i.cpu.registers[1] = 0x01;
    i.cpu.registers[2] = 0x01;
    i.add_vx_vy(1, 2);
    assert_eq!(i.cpu.registers[1], 0x02);
    assert_eq!(i.cpu.registers[0xF], 0);
}

#[test]
fn sub_register_register_borrow_flag() {
    let mut i = fresh();
    i.cpu.registers[0] = 5;
    i.cpu.registers[1] = 7;
    i.sub_vx_vy(0, 1);
    assert_eq!(i.cpu.registers[0], 254);
    assert_eq!(i.cpu.registers[0xF], 0);
    let mut i = fresh();
    i.cpu.registers[0] = 7;
    i.cpu.registers[1] = 5;
    i.sub_vx_vy(0, 1);
    assert_eq!(i.cpu.registers[0], 2);
    assert_eq!(i.cpu.registers[0xF], 1);
    // Equal operands: no borrow.
    let mut i = fresh();
    i.cpu.registers[0] = 5;
    i.cpu.registers[1] = 5;
    i.sub_vx_vy(0, 1);
    assert_eq!(i.cpu.registers[0], 0);
    assert_eq!(i.cpu.registers[0xF], 1);
}

#[test]
fn subn_register_register_borrow_flag() {
    let mut i = fresh();
    i.cpu.registers[0] = 5;
    i.cpu.registers[1] = 7;
    i.subn_vx_vy(0, 1);
    assert_eq!(i.cpu.registers[0], 2);
    assert_eq!(i.cpu.registers[0xF], 1);
    let mut i = fresh();
    i.cpu.registers[0] = 7;
    i.cpu.registers[1] = 5;
    i.subn_vx_vy(0, 1);
    assert_eq!(i.cpu.registers[0], 254);
    assert_eq!(i.cpu.registers[0xF], 0);
}

#[test]
fn shifts_copy_source_then_extract_bit() {
    let mut i = fresh();
    i.cpu.registers[1] = 0b0000_0101;
    i.shr_vx_vy(0, 1);
    assert_eq!(i.cpu.registers[0], 0b0000_0010);
    assert_eq!(i.cpu.registers[0xF], 1);
    let mut i = fresh();
    i.cpu.registers[1] = 0b1000_0001;
    i.shl_vx_vy(0, 1);
    assert_eq!(i.cpu.registers[0], 0b0000_0010);
    // The raw top bit lands in the flag register.
    assert_eq!(i.cpu.registers[0xF], 0x80);
}

#[test]
fn logic_and_loads() {
    let mut i = fresh();
    i.ld_vx_byte(3, 0xAB);
    assert_eq!(i.cpu.registers[3], 0xAB);
    i.cpu.registers[4] = 0x0F;
    i.or_vx_vy(3, 4);
    assert_eq!(i.cpu.registers[3], 0xAF);
    i.and_vx_vy(3, 4);
    assert_eq!(i.cpu.registers[3], 0x0F);
    i.xor_vx_vy(3, 4);
    assert_eq!(i.cpu.registers[3], 0x00);
    i.ld_vx_vy(3, 4);
    assert_eq!(i.cpu.registers[3], 0x0F);
}

#[test]
fn add_immediate_wraps_without_flag() {
    let mut i = fresh();
    i.cpu.registers[0] = 0xFF;
    i.cpu.registers[0xF] = 7;
    i.add_vx_byte(0, 2);
    assert_eq!(i.cpu.registers[0], 1);
    // No carry flag for the immediate form.
    assert_eq!(i.cpu.registers[0xF], 7);
}

#[test]
fn skip_if_equal_advances_four_total() {
    // SE V1, 05 with V1 == 05: two for the fetch, two for the skip.
    let mut i = fresh();
    i.cpu.memory[0x200] = 0x31;
    i.cpu.memory[0x201] = 0x05;
    i.cpu.registers[1] = 0x05;
    assert!(i.step().is_ok());
    assert_eq!(i.cpu.program_counter, 0x204);
    // A mismatching immediate advances by exactly two.
    let mut i = fresh();
    i.cpu.memory[0x200] = 0x31;
    i.cpu.memory[0x201] = 0x06;
    i.cpu.registers[1] = 0x05;
    assert!(i.step().is_ok());
    assert_eq!(i.cpu.program_counter, 0x202);
}

#[test]
fn skip_variants() {
    let mut i = fresh();
    i.cpu.registers[1] = 9;
    i.sne_vx_byte(1, 9);
    assert_eq!(i.cpu.program_counter, 0x200);
    i.sne_vx_byte(1, 8);
    assert_eq!(i.cpu.program_counter, 0x202);
    i.cpu.registers[2] = 9;
    i.se_vx_vy(1, 2);
    assert_eq!(i.cpu.program_counter, 0x204);
    i.sne_vx_vy(1, 2);
    assert_eq!(i.cpu.program_counter, 0x204);
    i.cpu.registers[2] = 8;
    i.sne_vx_vy(1, 2);
    assert_eq!(i.cpu.program_counter, 0x206);
}

#[test]
fn key_wait_spins_in_place() {
    // With no key pressed the key-wait opcode re-fetches itself: the
    // counter shows no net movement after each full step.
    let mut i = fresh();
    i.cpu.memory[0x200] = 0xF1;
    i.cpu.memory[0x201] = 0x0A;
    assert!(i.step().is_ok());
    assert_eq!(i.cpu.program_counter, 0x200);
    assert!(i.step().is_ok());
    assert_eq!(i.cpu.program_counter, 0x200);
    // Once a key is latched, the wait resolves and stores the key.
    i.cpu.keys[7] = true;
    assert!(i.step().is_ok());
    assert_eq!(i.cpu.program_counter, 0x202);
    assert_eq!(i.cpu.registers[1], 7);
}

#[test]
fn key_wait_stores_highest_pressed() {
    let mut i = fresh();
    i.cpu.keys[2] = true;
    i.cpu.keys[5] = true;
    i.ld_vx_k(3);
    assert_eq!(i.cpu.registers[3], 5);
    assert_eq!(i.cpu.program_counter, 0x200);
}

#[test]
fn key_skips_use_low_nibble_of_register() {
    let mut i = fresh();
    i.cpu.registers[0] = 3;
    i.cpu.keys[3] = true;
    i.skp_vx(0);
    assert_eq!(i.cpu.program_counter, 0x202);
    i.sknp_vx(0);
    assert_eq!(i.cpu.program_counter, 0x202);
    i.cpu.keys[3] = false;
    i.sknp_vx(0);
    assert_eq!(i.cpu.program_counter, 0x204);
}

#[test]
fn sprite_collision_on_second_draw() {
    // Drawing the one-bit row twice at the same spot: the pixel toggles
    // back off and the flag reports the collision on the second draw only.
    let mut i = fresh();
    i.cpu.memory[0x300] = 0b1000_0000;
    i.cpu.index = 0x300;
    i.cpu.registers[0] = 0;
    i.cpu.registers[1] = 0;
    i.drw_vx_vy_nibble(0, 1, 1);
    assert!(i.cpu.display.get(0, 0));
    assert_eq!(i.cpu.registers[0xF], 0);
    i.drw_vx_vy_nibble(0, 1, 1);
    assert!(!i.cpu.display.get(0, 0));
    assert_eq!(i.cpu.registers[0xF], 1);
}

#[test]
fn sprite_draw_clips_at_edges() {
    let mut i = fresh();
    i.cpu.memory[0x300] = 0xFF;
    i.cpu.memory[0x301] = 0xFF;
    i.cpu.index = 0x300;
    i.cpu.registers[0] = 60;  // column: only four pixels fit
    i.cpu.registers[1] = 31;  // row: only one row fits
    i.drw_vx_vy_nibble(0, 1, 2);
    for c in 60..64 {
        assert!(i.cpu.display.get(31, c));
    }
    assert!(!i.cpu.display.get(31, 59));
    // Nothing wrapped to the top or the left.
    for c in 0..4 {
        assert!(!i.cpu.display.get(0, c));
    }
    assert_eq!(i.cpu.registers[0xF], 0);
}

#[test]
fn sprite_coordinates_wrap_before_drawing() {
    let mut i = fresh();
    i.cpu.memory[0x300] = 0b1000_0000;
    i.cpu.index = 0x300;
    i.cpu.registers[0] = 64;  // column 64 wraps to 0
    i.cpu.registers[1] = 33;  // row 33 wraps to 1
    i.drw_vx_vy_nibble(0, 1, 1);
    assert!(i.cpu.display.get(1, 0));
}

#[test]
fn cls_clears_display() {
    let mut i = fresh();
    i.cpu.memory[0x300] = 0xFF;
    i.cpu.index = 0x300;
    i.drw_vx_vy_nibble(0, 1, 1);
    assert!(i.cpu.display.get(0, 0));
    i.cls();
    for c in 0..64 {
        assert!(!i.cpu.display.get(0, c));
    }
}

#[test]
fn call_and_ret_round_trip() {
    let mut i = fresh();
    assert!(i.call_addr(0x300).is_ok());
    assert_eq!(i.cpu.program_counter, 0x300);
    assert_eq!(i.cpu.stack_pointer, 1);
    assert_eq!(i.cpu.stack[1], 0x200);
    assert!(i.ret().is_ok());
    assert_eq!(i.cpu.program_counter, 0x200);
    assert_eq!(i.cpu.stack_pointer, 0);
}

#[test]
fn stack_overflow_and_underflow() {
    let mut i = fresh();
    assert_eq!(i.ret(), Err(Chip8Error::StackUnderflow));
    for _ in 0..15 {
        assert!(i.call_addr(0x300).is_ok());
    }
    assert_eq!(i.call_addr(0x300), Err(Chip8Error::StackOverflow));
}

#[test]
fn unknown_opcode_is_fatal_and_leaves_machine_unchanged() {
    let mut i = fresh();
    i.cpu.memory[0x200] = 0x80;
    i.cpu.memory[0x201] = 0x08;
    assert_eq!(i.step(), Err(Chip8Error::UnknownOpcode(0x8008)));
    assert_eq!(i.cpu.program_counter, 0x200);
}

#[test]
fn system_call_is_fatal_and_distinct() {
    let mut i = fresh();
    i.cpu.memory[0x200] = 0x01;
    i.cpu.memory[0x201] = 0x23;
    assert_eq!(i.step(), Err(Chip8Error::UnimplementedSys(0x123)));
    assert_eq!(i.cpu.program_counter, 0x200);
}

#[test]
fn jumps() {
    let mut i = fresh();
    i.jp_addr(0xABC);
    assert_eq!(i.cpu.program_counter, 0xABC);
    i.cpu.registers[0] = 0x10;
    i.jp_v0_addr(0xFFF);
    // 0xFFF + 0x10 reduced modulo the memory size.
    assert_eq!(i.cpu.program_counter, 0x00F);
}

#[test]
fn index_register_operations() {
    let mut i = fresh();
    i.ld_i_addr(0xFFF);
    assert_eq!(i.cpu.index, 0xFFF);
    i.cpu.registers[0] = 2;
    i.add_i_vx(0);
    assert_eq!(i.cpu.index, 1);
    i.ld_f_vx(0xA);
    assert_eq!(i.cpu.index, 50);
}

#[test]
fn timers() {
    let mut i = fresh();
    i.cpu.registers[4] = 42;
    i.ld_dt_vx(4);
    assert_eq!(i.cpu.delay_timer, 42);
    i.ld_st_vx(4);
    assert_eq!(i.cpu.sound_timer, 42);
    i.ld_vx_dt(5);
    assert_eq!(i.cpu.registers[5], 42);
}

#[test]
fn decimal_decomposition() {
    let mut i = fresh();
    i.cpu.registers[2] = 234;
    i.cpu.index = 0x400;
    i.ld_b_vx(2);
    assert_eq!(i.cpu.memory[0x400], 2);
    assert_eq!(i.cpu.memory[0x401], 3);
    assert_eq!(i.cpu.memory[0x402], 4);
    i.cpu.registers[2] = 7;
    i.ld_b_vx(2);
    assert_eq!(i.cpu.memory[0x400], 0);
    assert_eq!(i.cpu.memory[0x401], 0);
    assert_eq!(i.cpu.memory[0x402], 7);
}

#[test]
fn block_store_and_load() {
    let mut i = fresh();
    for r in 0..4u8 {
        i.cpu.registers[r as usize] = r + 1;
    }
    i.cpu.index = 0x500;
    i.ld_i_vx(3);
    for r in 0..4usize {
        assert_eq!(i.cpu.memory[0x500 + r], (r + 1) as u8);
    }
    // The index register itself is unchanged.
    assert_eq!(i.cpu.index, 0x500);
    // Registers above x are untouched by the load.
    let mut j = fresh();
    j.cpu.memory[0x500] = 9;
    j.cpu.memory[0x501] = 8;
    j.cpu.index = 0x500;
    j.cpu.registers[2] = 77;
    j.ld_vx_i(1);
    assert_eq!(j.cpu.registers[0], 9);
    assert_eq!(j.cpu.registers[1], 8);
    assert_eq!(j.cpu.registers[2], 77);
    assert_eq!(j.cpu.index, 0x500);
}

#[test]
fn random_and_masks_every_outcome() {
    // Whatever byte the generator hands back, only mask bits can be set.
    for _ in 0..32 {
        let mut i = fresh();
        i.cpu.registers[0] = 0xFF;
        i.rnd_vx_byte(0, 0x0F);
        assert_eq!(i.cpu.registers[0] & 0xF0, 0);
    }
}

#[test]
fn random_apply_is_exact_given_the_byte() {
    let mut i = fresh();
    i.rnd_apply(0, 0x0F, 0xAB);
    assert_eq!(i.cpu.registers[0], 0x0B);
}

#[test]
fn step_with_is_deterministic_for_random_and() {
    let mut i = fresh();
    i.cpu.memory[0x200] = 0xC1;
    i.cpu.memory[0x201] = 0xF0;
    assert!(i.step_with(0x5A).is_ok());
    assert_eq!(i.cpu.registers[1], 0x50);
    assert_eq!(i.cpu.program_counter, 0x202);
}

#[test]
fn step_executes_a_whole_program() {
    // LD V0, 2; LD V1, 3; ADD V0, V1.
    let mut i = fresh();
    let p = Program { content: vec![0x60, 0x02, 0x61, 0x03, 0x80, 0x14] };
    assert!(i.load_program(&p).is_ok());
    assert!(i.step().is_ok());
    assert!(i.step().is_ok());
    assert!(i.step().is_ok());
    assert_eq!(i.cpu.registers[0], 5);
    assert_eq!(i.cpu.registers[0xF], 0);
    assert_eq!(i.cpu.program_counter, 0x206);
}
