use chip8::chip8::{Chip8, Chip8Error, CpuState};

#[test]
fn new_machine_initial_state() {
    let c = Chip8::new();
    assert!(c.is_well_formed());
    assert_eq!(c.pc, 0x200);
    assert_eq!(c.i, 0);
    assert_eq!(c.sp, 0);
    assert_eq!(c.delay_timer, 0);
    assert_eq!(c.sound_timer, 0);
    assert_eq!(c.state, CpuState::Running);
    for k in 0..16 {
        assert_eq!(c.v[k], 0);
        assert_eq!(c.stack[k], 0);
    }
    // font glyphs sit at the bottom of memory
    assert_eq!(c.memory[0], 0xF0); // first row of "0"
    assert_eq!(c.memory[5], 0x20); // first row of "1"
    assert_eq!(c.memory[79], 0x80); // last row of "F"
    for a in 80..4096 {
        assert_eq!(c.memory[a], 0);
    }
}

#[test]
fn load_rom_copies_at_0x200() {
    let mut c = Chip8::new();
    let rom = vec![0xDE, 0xAD, 0xBE, 0xEF];
    assert_eq!(c.load_rom(&rom), Ok(()));
    assert_eq!(c.memory[0x200], 0xDE);
    assert_eq!(c.memory[0x201], 0xAD);
    assert_eq!(c.memory[0x202], 0xBE);
    assert_eq!(c.memory[0x203], 0xEF);
    assert_eq!(c.memory[0x204], 0);
    // reserved area untouched
    assert_eq!(c.memory[0], 0xF0);
}

#[test]
fn load_rom_rejects_oversized_rom_untouched() {
    let mut c = Chip8::new();
    let rom = vec![0xAA; 0xE01];
    assert_eq!(c.load_rom(&rom), Err(Chip8Error::RomTooLarge));
    // all or nothing: not a single byte was copied
    for a in 0x200..4096 {
        assert_eq!(c.memory[a], 0);
    }
}

#[test]
fn load_rom_exact_fit() {
    let mut c = Chip8::new();
    let rom = vec![0x55; 0xE00];
    assert_eq!(c.load_rom(&rom), Ok(()));
    assert_eq!(c.memory[0xFFF], 0x55);
}

#[test]
fn add_immediate_wraps_mod_256() {
    let mut c = Chip8::new();
    c.op_6xkk(0, 0xFF);
    c.op_7xkk(0, 0x01);
    assert_eq!(c.v[0], 0x00);
    assert_eq!(c.v[0xF], 0); // no flag effect
}

#[test]
fn add_register_sets_carry() {
    let mut c = Chip8::new();
    c.op_6xkk(0, 0xFF);
    c.op_6xkk(1, 0x01);
    c.op_8xy4(0, 1);
    assert_eq!(c.v[0], 0x00);
    assert_eq!(c.v[0xF], 1);
}

#[test]
fn add_register_no_carry() {
    let mut c = Chip8::new();
    c.op_6xkk(0, 0x10);
    c.op_6xkk(1, 0x20);
    c.op_8xy4(0, 1);
    assert_eq!(c.v[0], 0x30);
    assert_eq!(c.v[0xF], 0);
}

#[test]
fn add_register_doubles_when_x_equals_y() {
    let mut c = Chip8::new();
    c.op_6xkk(2, 0x90);
    c.op_8xy4(2, 2);
    assert_eq!(c.v[2], 0x20); // 0x90 + 0x90 = 0x120 truncated
    assert_eq!(c.v[0xF], 1);
}

#[test]
fn sub_register_not_borrow_cases() {
    let mut c = Chip8::new();
    c.op_6xkk(0, 0x05);
    c.op_6xkk(1, 0x03);
    c.op_8xy5(0, 1);
    assert_eq!(c.v[0], 0x02);
    assert_eq!(c.v[0xF], 1);

    c.op_6xkk(0, 0x03);
    c.op_6xkk(1, 0x05);
    c.op_8xy5(0, 1);
    assert_eq!(c.v[0], 0xFE);
    assert_eq!(c.v[0xF], 0);

    // equal operands: result 0, VF = 1 (not corrupted by write ordering)
    c.op_6xkk(0, 0x07);
    c.op_6xkk(1, 0x07);
    c.op_8xy5(0, 1);
    assert_eq!(c.v[0], 0x00);
    assert_eq!(c.v[0xF], 1);
}

#[test]
fn sub_register_self_subtraction() {
    let mut c = Chip8::new();
    c.op_6xkk(3, 0x42);
    c.op_8xy5(3, 3);
    assert_eq!(c.v[3], 0x00);
    assert_eq!(c.v[0xF], 1);
}

#[test]
fn subn_register() {
    let mut c = Chip8::new();
    c.op_6xkk(0, 0x03);
    c.op_6xkk(1, 0x05);
    c.op_8xy7(0, 1); // V0 = V1 - V0 = 2
    assert_eq!(c.v[0], 0x02);
    assert_eq!(c.v[0xF], 1);

    c.op_6xkk(0, 0x05);
    c.op_6xkk(1, 0x03);
    c.op_8xy7(0, 1); // V0 = 3 - 5 = 0xFE, borrow
    assert_eq!(c.v[0], 0xFE);
    assert_eq!(c.v[0xF], 0);
}

#[test]
fn flag_lands_in_vf_even_when_x_is_f() {
    let mut c = Chip8::new();
    c.op_6xkk(0xF, 0xFF);
    c.op_6xkk(1, 0x01);
    c.op_8xy4(0xF, 1); // sum carries, so VF ends as the flag, not the sum
    assert_eq!(c.v[0xF], 1);
}

#[test]
fn bitwise_ops() {
    let mut c = Chip8::new();
    c.op_6xkk(0, 0b1100);
    c.op_6xkk(1, 0b1010);
    c.op_8xy1(0, 1);
    assert_eq!(c.v[0], 0b1110);
    c.op_6xkk(0, 0b1100);
    c.op_8xy2(0, 1);
    assert_eq!(c.v[0], 0b1000);
    c.op_6xkk(0, 0b1100);
    c.op_8xy3(0, 1);
    assert_eq!(c.v[0], 0b0110);
    c.op_8xy0(2, 1);
    assert_eq!(c.v[2], 0b1010);
}

#[test]
fn shift_right_sets_vf_to_dropped_bit() {
    let mut c = Chip8::new();
    c.op_6xkk(0, 0x05);
    c.op_8xy6(0);
    assert_eq!(c.v[0], 0x02);
    assert_eq!(c.v[0xF], 1);
    c.op_6xkk(0, 0x04);
    c.op_8xy6(0);
    assert_eq!(c.v[0], 0x02);
    assert_eq!(c.v[0xF], 0);
}

#[test]
fn shift_left_sets_vf_to_exactly_zero_or_one() {
    let mut c = Chip8::new();
    c.op_6xkk(0, 0x81);
    c.op_8xye(0);
    assert_eq!(c.v[0], 0x02);
    assert_eq!(c.v[0xF], 1); // exactly 1, not the raw masked 0x80
    c.op_6xkk(0, 0x41);
    c.op_8xye(0);
    assert_eq!(c.v[0], 0x82);
    assert_eq!(c.v[0xF], 0);
}

#[test]
fn skip_forms_move_pc_by_two_when_taken() {
    let mut c = Chip8::new();
    c.op_6xkk(0, 0x42);
    let pc0 = c.pc;
    c.op_3xkk(0, 0x42);
    assert_eq!(c.pc, pc0 + 2);
    c.op_3xkk(0, 0x43);
    assert_eq!(c.pc, pc0 + 2);
    c.op_4xkk(0, 0x43);
    assert_eq!(c.pc, pc0 + 4);
    c.op_6xkk(1, 0x42);
    c.op_5xy0(0, 1);
    assert_eq!(c.pc, pc0 + 6);
    c.op_9xy0(0, 1);
    assert_eq!(c.pc, pc0 + 6);
}

#[test]
fn jumps() {
    let mut c = Chip8::new();
    c.op_1nnn(0x400);
    assert_eq!(c.pc, 0x400);
    c.op_6xkk(0, 0x10);
    c.op_bnnn(0x300);
    assert_eq!(c.pc, 0x310);
}

#[test]
fn call_then_ret_restores_pc_after_call() {
    let mut c = Chip8::new();
    // CALL 0x300 at 0x200, RET at 0x300
    let mut rom = vec![0u8; 0x102];
    rom[0] = 0x23;
    rom[1] = 0x00;
    rom[0x100] = 0x00;
    rom[0x101] = 0xEE;
    assert_eq!(c.load_rom(&rom), Ok(()));
    assert_eq!(c.cycle(), Ok(()));
    assert_eq!(c.pc, 0x300);
    assert_eq!(c.sp, 1);
    assert_eq!(c.stack[0], 0x202);
    assert_eq!(c.cycle(), Ok(()));
    assert_eq!(c.pc, 0x202);
    assert_eq!(c.sp, 0);
}

#[test]
fn call_overflows_at_depth_16() {
    let mut c = Chip8::new();
    for _ in 0..16 {
        assert_eq!(c.op_2nnn(0x300), Ok(()));
    }
    assert_eq!(c.sp, 16);
    assert_eq!(c.op_2nnn(0x300), Err(Chip8Error::StackOverflow));
    assert_eq!(c.sp, 16);
}

#[test]
fn ret_underflows_on_empty_stack() {
    let mut c = Chip8::new();
    assert_eq!(c.op_00ee(), Err(Chip8Error::StackUnderflow));
    assert_eq!(c.pc, 0x200);
}

#[test]
fn cycle_rejects_undefined_opcode() {
    let mut c = Chip8::new();
    let rom = vec![0xF0, 0x66];
    c.load_rom(&rom).unwrap();
    assert_eq!(c.cycle(), Err(Chip8Error::UnrecognizedOpcode));
}

#[test]
fn cycle_rejects_fetch_outside_memory() {
    let mut c = Chip8::new();
    c.pc = 0x0FFF; // second opcode byte would sit at 0x1000
    assert_eq!(c.cycle(), Err(Chip8Error::AddressOutOfRange));
    c.pc = 0x1000;
    assert_eq!(c.cycle(), Err(Chip8Error::AddressOutOfRange));
}

#[test]
fn cycle_pre_increments_pc_before_execute() {
    let mut c = Chip8::new();
    let rom = vec![0x60, 0x07]; // LD V0, 7
    c.load_rom(&rom).unwrap();
    assert_eq!(c.cycle(), Ok(()));
    assert_eq!(c.pc, 0x202);
    assert_eq!(c.v[0], 7);
}

#[test]
fn index_register_ops() {
    let mut c = Chip8::new();
    c.op_annn(0xABC);
    assert_eq!(c.i, 0xABC);
    c.op_6xkk(4, 0xFF);
    c.op_fx1e(4);
    assert_eq!(c.i, 0xABC + 0xFF); // may pass 0xFFF without error
    c.i = 0xFFFF;
    c.op_6xkk(4, 0x02);
    c.op_fx1e(4);
    assert_eq!(c.i, 0x0001); // wraps at 16 bits
}

#[test]
fn font_address_is_five_bytes_per_digit() {
    let mut c = Chip8::new();
    c.op_6xkk(0, 0xA);
    c.op_fx29(0);
    assert_eq!(c.i, 50);
    // the glyph rows for "A" sit there
    assert_eq!(c.memory[50], 0xF0);
    assert_eq!(c.memory[54], 0x90);
}

#[test]
fn timer_ops_and_floor() {
    let mut c = Chip8::new();
    c.op_6xkk(0, 2);
    c.op_fx15(0);
    c.op_6xkk(1, 1);
    c.op_fx18(1);
    assert_eq!(c.delay_timer, 2);
    assert_eq!(c.sound_timer, 1);
    assert!(c.should_emit_sound());
    c.decrement_timers();
    assert_eq!(c.delay_timer, 1);
    assert_eq!(c.sound_timer, 0);
    assert!(!c.should_emit_sound());
    // repeated ticks never push a timer below zero
    for _ in 0..100 {
        c.decrement_timers();
    }
    assert_eq!(c.delay_timer, 0);
    assert_eq!(c.sound_timer, 0);
    // reading the delay timer back
    c.op_fx07(5);
    assert_eq!(c.v[5], 0);
}

#[test]
fn bcd_decomposition() {
    let mut c = Chip8::new();
    c.op_6xkk(0, 234);
    c.op_annn(0x300);
    assert_eq!(c.op_fx33(0), Ok(()));
    assert_eq!(c.memory[0x300], 2);
    assert_eq!(c.memory[0x301], 3);
    assert_eq!(c.memory[0x302], 4);
    c.op_6xkk(0, 7);
    assert_eq!(c.op_fx33(0), Ok(()));
    assert_eq!(c.memory[0x300], 0);
    assert_eq!(c.memory[0x301], 0);
    assert_eq!(c.memory[0x302], 7);
}

#[test]
fn bcd_out_of_range() {
    let mut c = Chip8::new();
    c.i = 4094; // needs 4094..=4096
    assert_eq!(c.op_fx33(0), Err(Chip8Error::AddressOutOfRange));
}

#[test]
fn register_dump_and_load_round_trip() {
    let mut c = Chip8::new();
    for k in 0..4 {
        c.op_6xkk(k, (10 + k) as u8);
    }
    c.op_annn(0x400);
    assert_eq!(c.op_fx55(3), Ok(()));
    assert_eq!(c.memory[0x400], 10);
    assert_eq!(c.memory[0x401], 11);
    assert_eq!(c.memory[0x402], 12);
    assert_eq!(c.memory[0x403], 13);
    assert_eq!(c.memory[0x404], 0); // one past the dump is untouched
    // wipe the registers, read them back
    for k in 0..4 {
        c.op_6xkk(k, 0);
    }
    c.op_6xkk(5, 0x77); // a register above x keeps its value
    assert_eq!(c.op_fx65(3), Ok(()));
    assert_eq!(c.v[0], 10);
    assert_eq!(c.v[1], 11);
    assert_eq!(c.v[2], 12);
    assert_eq!(c.v[3], 13);
    assert_eq!(c.v[5], 0x77);
}

#[test]
fn dump_and_load_out_of_range() {
    let mut c = Chip8::new();
    c.i = 4093;
    assert_eq!(c.op_fx55(3), Err(Chip8Error::AddressOutOfRange));
    assert_eq!(c.op_fx65(3), Err(Chip8Error::AddressOutOfRange));
    assert_eq!(c.op_fx55(2), Ok(())); // 4093..=4095 just fits
}

#[test]
fn random_masking() {
    let mut c = Chip8::new();
    c.apply_random(3, 0x0F, 0xAB);
    assert_eq!(c.v[3], 0x0B);
    c.apply_random(3, 0x00, 0xFF);
    assert_eq!(c.v[3], 0x00);
    // through the real random source: a zero mask pins the result
    c.op_6xkk(4, 0x55);
    c.op_cxkk(4, 0x00);
    assert_eq!(c.v[4], 0x00);
    // bits outside the mask never appear
    for _ in 0..50 {
        c.op_cxkk(4, 0x0F);
        assert_eq!(c.v[4] & 0xF0, 0);
    }
}

#[test]
fn key_skips() {
    let mut c = Chip8::new();
    c.op_6xkk(0, 7);
    let pc0 = c.pc;
    c.op_ex9e(0); // key 7 not pressed: no skip
    assert_eq!(c.pc, pc0);
    c.op_exa1(0); // not pressed: skip
    assert_eq!(c.pc, pc0 + 2);
    c.keypad.set_key(7, true);
    c.op_ex9e(0);
    assert_eq!(c.pc, pc0 + 4);
    c.op_exa1(0);
    assert_eq!(c.pc, pc0 + 4);
}

#[test]
fn key_skip_with_out_of_range_register_counts_as_released() {
    let mut c = Chip8::new();
    c.op_6xkk(0, 20); // no key 20 exists
    let pc0 = c.pc;
    c.op_ex9e(0);
    assert_eq!(c.pc, pc0);
    c.op_exa1(0);
    assert_eq!(c.pc, pc0 + 2);
}
