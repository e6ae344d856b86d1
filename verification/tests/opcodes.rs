//! Behaviour of single instruction words against a fresh machine.
use chip_8_emulator::chip8::{Chip8, Pixel};
use chip_8_emulator::instruction::{ExecutionError, InstructionResult};

/// A fresh machine with the program counter placed as if one instruction at
/// 0x200 had just been fetched.
fn fresh() -> Chip8 {
    let mut chip = Chip8::new_default();
    chip.PC = 0x202;
    chip
}

#[test]
fn add_imm_wraps_to_zero() {
    let mut chip = fresh();
    chip.Vx[5] = 0xFF;
    let r = chip.decode_execute_instruction(0x7501);
    assert!(matches!(r, Ok(InstructionResult::Continue)));
    assert_eq!(chip.Vx[5], 0x00);
    assert_eq!(chip.Vx[15], 0, "no flag effect");
}

#[test]
fn add_imm_plain() {
    let mut chip = fresh();
    chip.Vx[2] = 7;
    let r = chip.decode_execute_instruction(0x7203);
    assert!(r.is_ok());
    assert_eq!(chip.Vx[2], 10);
}

#[test]
fn add_reg_with_carry() {
    let mut chip = fresh();
    chip.Vx[1] = 0xFF;
    chip.Vx[2] = 0x01;
    let r = chip.decode_execute_instruction(0x8124);
    assert!(r.is_ok());
    assert_eq!(chip.Vx[1], 0x00);
    assert_eq!(chip.Vx[15], 1);
}

#[test]
fn add_reg_without_carry() {
    let mut chip = fresh();
    chip.Vx[1] = 0x01;
    chip.Vx[2] = 0x01;
    let r = chip.decode_execute_instruction(0x8124);
    assert!(r.is_ok());
    assert_eq!(chip.Vx[1], 0x02);
    assert_eq!(chip.Vx[15], 0);
}

#[test]
fn sub_reg_with_borrow() {
    let mut chip = fresh();
    chip.Vx[1] = 0x03;
    chip.Vx[2] = 0x05;
    let r = chip.decode_execute_instruction(0x8125);
    assert!(r.is_ok());
    assert_eq!(chip.Vx[15], 0);
    assert_eq!(chip.Vx[1], 0xFE);
}

#[test]
fn sub_reg_without_borrow() {
    let mut chip = fresh();
    chip.Vx[1] = 0x05;
    chip.Vx[2] = 0x03;
    let r = chip.decode_execute_instruction(0x8125);
    assert!(r.is_ok());
    assert_eq!(chip.Vx[15], 1);
    assert_eq!(chip.Vx[1], 0x02);
}

#[test]
fn load_copy_or_and_xor() {
    let mut chip = fresh();
    let r = chip.decode_execute_instruction(0x63AB);
    assert!(r.is_ok());
    assert_eq!(chip.Vx[3], 0xAB);
    chip.Vx[4] = 0x0F;
    let r = chip.decode_execute_instruction(0x8340);
    assert!(r.is_ok());
    assert_eq!(chip.Vx[3], 0x0F, "8xy0 copies Vy");
    chip.Vx[3] = 0b1100;
    chip.Vx[4] = 0b1010;
    let r = chip.decode_execute_instruction(0x8341);
    assert!(r.is_ok());
    assert_eq!(chip.Vx[3], 0b1110, "8xy1 is or");
    chip.Vx[3] = 0b1100;
    let r = chip.decode_execute_instruction(0x8342);
    assert!(r.is_ok());
    assert_eq!(chip.Vx[3], 0b1000, "8xy2 is and");
    chip.Vx[3] = 0b1100;
    let r = chip.decode_execute_instruction(0x8343);
    assert!(r.is_ok());
    assert_eq!(chip.Vx[3], 0b0110, "8xy3 is xor");
}

#[test]
fn shift_right_captures_low_bit() {
    let mut chip = fresh();
    chip.Vx[6] = 0x05;
    let r = chip.decode_execute_instruction(0x8606);
    assert!(r.is_ok());
    assert_eq!(chip.Vx[6], 0x02);
    assert_eq!(chip.Vx[15], 1, "flag from the value before the shift");
}

#[test]
fn shift_left_captures_high_bit() {
    let mut chip = fresh();
    chip.Vx[6] = 0x81;
    let r = chip.decode_execute_instruction(0x860E);
    assert!(r.is_ok());
    assert_eq!(chip.Vx[6], 0x02, "low byte retained");
    assert_eq!(chip.Vx[15], 1, "flag from the value before the shift");
}

#[test]
fn reverse_sub_stores_into_vx() {
    let mut chip = fresh();
    chip.Vx[1] = 0x02;
    chip.Vx[2] = 0x07;
    let r = chip.decode_execute_instruction(0x8127);
    assert!(r.is_ok());
    assert_eq!(chip.Vx[1], 0x05, "8xy7 is Vy - Vx stored into Vx");
    assert_eq!(chip.Vx[15], 1, "no borrow: Vy > Vx");
}

#[test]
fn skip_if_equal_immediate() {
    let mut chip = fresh();
    chip.Vx[0] = 0x42;
    let r = chip.decode_execute_instruction(0x3042);
    assert!(r.is_ok());
    assert_eq!(chip.PC, 0x204, "equal: skip");
    let r = chip.decode_execute_instruction(0x3041);
    assert!(r.is_ok());
    assert_eq!(chip.PC, 0x204, "not equal: no skip");
}

#[test]
fn skip_if_not_equal_immediate() {
    let mut chip = fresh();
    chip.Vx[0] = 0x42;
    let r = chip.decode_execute_instruction(0x4042);
    assert!(r.is_ok());
    assert_eq!(chip.PC, 0x202, "equal: no skip");
    let r = chip.decode_execute_instruction(0x4041);
    assert!(r.is_ok());
    assert_eq!(chip.PC, 0x204, "not equal: skip");
}

#[test]
fn skip_on_register_compare() {
    let mut chip = fresh();
    chip.Vx[1] = 9;
    chip.Vx[2] = 9;
    let r = chip.decode_execute_instruction(0x5120);
    assert!(r.is_ok());
    assert_eq!(chip.PC, 0x204, "5xy0 skips on equal");
    let r = chip.decode_execute_instruction(0x9120);
    assert!(r.is_ok());
    assert_eq!(chip.PC, 0x204, "9xy0 does not skip on equal");
    chip.Vx[2] = 8;
    let r = chip.decode_execute_instruction(0x9120);
    assert!(r.is_ok());
    assert_eq!(chip.PC, 0x206, "9xy0 skips on unequal");
}

#[test]
fn jump_and_jump_with_offset() {
    let mut chip = fresh();
    let r = chip.decode_execute_instruction(0x1300);
    assert!(r.is_ok());
    assert_eq!(chip.PC, 0x300);
    chip.Vx[0] = 0x10;
    let r = chip.decode_execute_instruction(0xB200);
    assert!(r.is_ok());
    assert_eq!(chip.PC, 0x210, "Bnnn jumps to nnn plus V0");
}

#[test]
fn self_jump_signals_halt() {
    let mut chip = fresh();
    let r = chip.decode_execute_instruction(0x1200);
    assert!(matches!(r, Ok(InstructionResult::BreakLoop)));
    assert_eq!(chip.PC, 0x202, "the jump is not taken");
}

#[test]
fn call_and_return() {
    let mut chip = fresh();
    let r = chip.decode_execute_instruction(0x2400);
    assert!(r.is_ok());
    assert_eq!(chip.SP, 1);
    assert_eq!(chip.stack[1], 0x202);
    assert_eq!(chip.PC, 0x400);
    chip.PC = 0x402;
    let r = chip.decode_execute_instruction(0x00EE);
    assert!(r.is_ok());
    assert_eq!(chip.SP, 0);
    assert_eq!(chip.PC, 0x202, "back to the pushed return address");
}

#[test]
fn return_on_empty_stack_is_fatal() {
    let mut chip = fresh();
    let r = chip.decode_execute_instruction(0x00EE);
    assert_eq!(r, Err(ExecutionError::StackUnderflow));
}

#[test]
fn call_beyond_nesting_limit_is_fatal() {
    let mut chip = fresh();
    for _ in 0..15 {
        let r = chip.decode_execute_instruction(0x2400);
        assert!(r.is_ok());
    }
    assert_eq!(chip.SP, 15);
    let r = chip.decode_execute_instruction(0x2400);
    assert_eq!(r, Err(ExecutionError::StackOverflow));
    assert_eq!(chip.SP, 15, "nothing changed");
}

#[test]
fn load_address_register() {
    let mut chip = fresh();
    let r = chip.decode_execute_instruction(0xA123);
    assert!(r.is_ok());
    assert_eq!(chip.I, 0x123);
}

#[test]
fn random_masked_by_zero_is_zero() {
    let mut chip = fresh();
    chip.Vx[4] = 0xAA;
    let r = chip.decode_execute_instruction(0xC400);
    assert!(r.is_ok());
    assert_eq!(chip.Vx[4], 0, "a random byte masked by 0x00");
}

#[test]
fn random_masked_stays_in_mask() {
    let mut chip = fresh();
    let r = chip.decode_execute_instruction(0xC50F);
    assert!(r.is_ok());
    assert!(chip.Vx[5] <= 0x0F);
}

#[test]
fn key_skip_signals_carry_vx() {
    let mut chip = fresh();
    chip.Vx[3] = 0x0B;
    let r = chip.decode_execute_instruction(0xE39E);
    assert_eq!(r, Ok(InstructionResult::SkipIfPressed(0x0B)));
    let r = chip.decode_execute_instruction(0xE3A1);
    assert_eq!(r, Ok(InstructionResult::SkipIfNotPressed(0x0B)));
}

#[test]
fn wait_for_key_signal_names_register() {
    let mut chip = fresh();
    let r = chip.decode_execute_instruction(0xF70A);
    assert_eq!(r, Ok(InstructionResult::WaitForKey(7)));
}

#[test]
fn timer_reads_and_writes() {
    let mut chip = fresh();
    chip.delay_timer = 33;
    let r = chip.decode_execute_instruction(0xF107);
    assert!(r.is_ok());
    assert_eq!(chip.Vx[1], 33, "Fx07 reads the delay timer");
    chip.Vx[2] = 9;
    let r = chip.decode_execute_instruction(0xF215);
    assert_eq!(r, Ok(InstructionResult::StartDelayTimer));
    assert_eq!(chip.delay_timer, 9);
    chip.Vx[3] = 4;
    let r = chip.decode_execute_instruction(0xF318);
    assert_eq!(r, Ok(InstructionResult::StartSoundTimer));
    assert_eq!(chip.sound_timer, 4);
}

#[test]
fn add_to_address_register() {
    let mut chip = fresh();
    chip.I = 0x100;
    chip.Vx[2] = 0x20;
    let r = chip.decode_execute_instruction(0xF21E);
    assert!(r.is_ok());
    assert_eq!(chip.I, 0x120);
}

#[test]
fn add_to_address_register_out_of_range_is_fatal() {
    let mut chip = fresh();
    chip.I = 0xFFF;
    chip.Vx[2] = 1;
    let r = chip.decode_execute_instruction(0xF21E);
    assert_eq!(r, Err(ExecutionError::MemoryOutOfRange));
    assert_eq!(chip.I, 0xFFF);
}

#[test]
fn glyph_address_for_register_value() {
    let mut chip = fresh();
    chip.Vx[6] = 0x0A;
    let r = chip.decode_execute_instruction(0xF629);
    assert!(r.is_ok());
    assert_eq!(chip.I, 0x50 + 5 * 0x0A);
}

#[test]
fn bcd_store() {
    let mut chip = fresh();
    chip.Vx[0] = 157;
    chip.I = 0x300;
    let r = chip.decode_execute_instruction(0xF033);
    assert!(r.is_ok());
    assert_eq!(chip.memory[0x300], 1);
    assert_eq!(chip.memory[0x301], 5);
    assert_eq!(chip.memory[0x302], 7);
}

#[test]
fn bcd_store_out_of_range_is_fatal() {
    let mut chip = fresh();
    chip.I = 4094;
    let r = chip.decode_execute_instruction(0xF033);
    assert_eq!(r, Err(ExecutionError::MemoryOutOfRange));
}

#[test]
fn store_load_round_trip() {
    let mut chip = fresh();
    chip.Vx[0] = 11;
    chip.Vx[1] = 22;
    chip.Vx[2] = 33;
    chip.Vx[3] = 44;
    chip.I = 0x400;
    let r = chip.decode_execute_instruction(0xF355);
    assert!(r.is_ok());
    for j in 0..4 {
        assert_eq!(chip.memory[0x400 + j], chip.Vx[j]);
    }
    for j in 0..4 {
        chip.Vx[j] = 0;
    }
    let r = chip.decode_execute_instruction(0xF365);
    assert!(r.is_ok());
    assert_eq!(chip.Vx[0], 11);
    assert_eq!(chip.Vx[1], 22);
    assert_eq!(chip.Vx[2], 33);
    assert_eq!(chip.Vx[3], 44);
    assert_eq!(chip.Vx[4], 0, "registers past x untouched");
}

#[test]
fn store_out_of_range_is_fatal() {
    let mut chip = fresh();
    chip.I = 4090;
    let r = chip.decode_execute_instruction(0xF755);
    assert_eq!(r, Err(ExecutionError::MemoryOutOfRange));
}

#[test]
fn unrecognized_word_is_a_no_op() {
    let mut chip = fresh();
    let before_regs = chip.Vx.clone();
    let before_pc = chip.PC;
    let r = chip.decode_execute_instruction(0x0123);
    assert!(matches!(r, Ok(InstructionResult::Continue)));
    assert_eq!(chip.Vx, before_regs);
    assert_eq!(chip.PC, before_pc);
    let r = chip.decode_execute_instruction(0x800F);
    assert!(matches!(r, Ok(InstructionResult::Continue)));
    assert_eq!(chip.Vx, before_regs);
}

#[test]
fn clear_turns_every_pixel_off() {
    let mut chip = fresh();
    chip.display.pixels[5][10] = Pixel::On;
    chip.display.pixels[31][63] = Pixel::On;
    let r = chip.decode_execute_instruction(0x00E0);
    assert!(r.is_ok());
    for row in 0..32 {
        for col in 0..64 {
            assert!(!chip.display.pixels[row][col].is_on());
        }
    }
}

#[test]
fn draw_xors_and_draw_again_restores() {
    let mut chip = fresh();
    // the glyph for 0 sits at 0x50; draw it at (3, 4)
    chip.I = 0x50;
    chip.Vx[0] = 3;
    chip.Vx[1] = 4;
    let before: Vec<Vec<bool>> = (0..32)
        .map(|r: usize| (0..64).map(|c: usize| chip.display.pixels[r][c].is_on()).collect())
        .collect();
    let r = chip.decode_execute_instruction(0xD015);
    assert!(r.is_ok());
    // the top row of the 0 glyph is 0xF0: four lit pixels from column 3
    assert!(chip.display.pixels[4][3].is_on());
    assert!(chip.display.pixels[4][6].is_on());
    assert!(!chip.display.pixels[4][7].is_on());
    let r = chip.decode_execute_instruction(0xD015);
    assert!(r.is_ok());
    for row in 0..32 {
        for col in 0..64 {
            assert_eq!(chip.display.pixels[row][col].is_on(), before[row][col]);
        }
    }
}

#[test]
fn draw_wraps_at_the_edges() {
    let mut chip = fresh();
    chip.memory[0x700] = 0x80; // a single pixel in the leftmost sprite column
    chip.I = 0x700;
    chip.Vx[0] = 63;
    chip.Vx[1] = 31;
    let r = chip.decode_execute_instruction(0xD011);
    assert!(r.is_ok());
    assert!(chip.display.pixels[31][63].is_on());
    // one step right and down wraps to (0, 0)
    chip.memory[0x700] = 0x40;
    chip.Vx[1] = 0;
    let r = chip.decode_execute_instruction(0xD011);
    assert!(r.is_ok());
    assert!(chip.display.pixels[0][0].is_on());
}

#[test]
fn draw_with_sprite_past_memory_end_is_fatal() {
    let mut chip = fresh();
    chip.I = 0xFFF;
    let r = chip.decode_execute_instruction(0xD012);
    assert_eq!(r, Err(ExecutionError::MemoryOutOfRange));
}
