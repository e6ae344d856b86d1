//! Construction, loading and configuration of the machine.
use chip_8_emulator::chip8::{Chip8, Chip8Display, Pixel};
use chip_8_emulator::handle_args;
use chip_8_emulator::instruction::ExecutionError;
use chip_8_emulator::Config;

#[test]
fn fresh_machine_is_zeroed_with_glyphs() {
    let chip = Chip8::new_default();
    assert_eq!(chip.memory.len(), 4096);
    assert_eq!(chip.Vx.len(), 16);
    assert_eq!(chip.stack.len(), 16);
    assert_eq!(chip.PC, 0);
    assert_eq!(chip.SP, 0);
    assert_eq!(chip.I, 0);
    assert_eq!(chip.delay_timer, 0);
    assert_eq!(chip.sound_timer, 0);
    for v in &chip.Vx {
        assert_eq!(*v, 0);
    }
    // the glyph area: 0 starts with 0xF0, F ends with 0x80
    assert_eq!(chip.memory[0x50], 0xF0);
    assert_eq!(chip.memory[0x51], 0x90);
    assert_eq!(chip.memory[0x9F], 0x80);
    // the glyph for 1
    assert_eq!(&chip.memory[0x55..0x5A], &[0x20, 0x60, 0x20, 0x20, 0x70]);
    // outside the glyph area everything is zero
    assert_eq!(chip.memory[0x4F], 0);
    assert_eq!(chip.memory[0xD0], 0);
    assert_eq!(chip.memory[0x200], 0);
    for row in 0..32 {
        for col in 0..64 {
            assert!(!chip.display.pixels[row][col].is_on());
        }
    }
}

#[test]
fn load_places_program_at_0x200() {
    let mut chip = Chip8::new_default();
    let rom: Vec<u8> = vec![0x6A, 0x02, 0xFA, 0x15];
    let r = chip.load_bytes_to_mem(&rom);
    assert!(r.is_ok());
    assert_eq!(&chip.memory[0x200..0x204], &[0x6A, 0x02, 0xFA, 0x15]);
    assert_eq!(chip.memory[0x204], 0);
}

#[test]
fn load_rejects_a_program_that_does_not_fit() {
    let mut chip = Chip8::new_default();
    let rom: Vec<u8> = vec![0xAB; 0xE01];
    let r = chip.load_bytes_to_mem(&rom);
    assert_eq!(r, Err(ExecutionError::MemoryOutOfRange));
    assert_eq!(chip.memory[0x200], 0, "nothing written");
    let rom: Vec<u8> = vec![0xAB; 0xE00];
    let r = chip.load_bytes_to_mem(&rom);
    assert!(r.is_ok(), "the largest fitting program loads");
    assert_eq!(chip.memory[0xFFF], 0xAB);
}

#[test]
fn display_clear_and_pixel_state() {
    let mut d = Chip8Display::new();
    assert_eq!(d.pixels.len(), 32);
    assert_eq!(d.pixels[0].len(), 64);
    d.pixels[2][3] = Pixel::On;
    assert!(d.pixels[2][3].is_on());
    assert!(!d.pixels[2][4].is_on());
    d.clear();
    for row in 0..32 {
        for col in 0..64 {
            assert!(!d.pixels[row][col].is_on());
        }
    }
}

#[test]
fn config_build_keeps_its_parts() {
    let c = Config::build("pong.ch8", true);
    assert_eq!(c.filename, "pong.ch8");
    assert!(c.is_debug);
}

#[test]
fn args_without_a_filename_are_rejected() {
    let args: Vec<String> = vec![String::from("emulator")];
    let r = handle_args(&args, &None);
    assert!(r.is_err());
}

#[test]
fn args_with_a_filename_build_the_config() {
    let args: Vec<String> = vec![String::from("emulator"), String::from("maze.ch8")];
    let r = handle_args(&args, &None);
    let c = r.unwrap();
    assert_eq!(c.filename, "maze.ch8");
    assert!(!c.is_debug);
}

#[test]
fn debug_toggle_must_be_exactly_one() {
    let args: Vec<String> = vec![String::from("emulator"), String::from("maze.ch8")];
    let r = handle_args(&args, &Some(String::from("1")));
    assert!(r.unwrap().is_debug);
    let r = handle_args(&args, &Some(String::from("0")));
    assert!(!r.unwrap().is_debug);
    let r = handle_args(&args, &Some(String::from("11")));
    assert!(!r.unwrap().is_debug);
}
