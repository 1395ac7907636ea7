use sweetboy_core::{Button, Cpu, Emulator, EmulatorError};

fn nop_rom(len: usize) -> Vec<u8> {
    vec![0u8; len]
}

#[test]
fn new_emulator_has_no_rom() {
    let emu = Emulator::new();
    assert!(!emu.rom_loaded());
    assert!(!emu.frame_ready());
    assert_eq!(emu.cpu.pc, 0x0100);
    assert_eq!(emu.cpu.sp, 0xFFFE);
    assert_eq!(emu.framebuffer().len(), 160 * 144);
}

#[test]
fn load_rom_refuses_rom_without_header() {
    let mut emu = Emulator::new();
    let r = emu.load_rom(&nop_rom(0x100));
    match r {
        Err(EmulatorError::InvalidRom(msg)) => {
            assert_eq!(msg, "ROM too small: 256 bytes (minimum 336)");
        }
        _ => panic!("expected InvalidRom"),
    }
    assert!(!emu.rom_loaded());
}

#[test]
fn load_rom_refuses_empty_rom() {
    let mut emu = Emulator::new();
    match emu.load_rom(&[]) {
        Err(EmulatorError::InvalidRom(msg)) => {
            assert_eq!(msg, "ROM too small: 0 bytes (minimum 336)");
        }
        _ => panic!("expected InvalidRom"),
    }
}

#[test]
fn load_rom_accepts_and_boots() {
    let mut emu = Emulator::new();
    let mut rom = nop_rom(0x8000);
    rom[0x150] = 0x3C;
    rom[0x4000] = 0x77;
    assert!(emu.load_rom(&rom).is_ok());
    assert!(emu.rom_loaded());
    assert_eq!(emu.cpu.pc, 0x0100);
    assert_eq!(emu.bus().read_byte(0x0150), 0x3C);
    assert_eq!(emu.bus().read_byte(0x4000), 0x77);
}

#[test]
fn error_messages_carry_their_kind() {
    let e = EmulatorError::InvalidRom("x".to_string());
    assert_eq!(e.message(), "Invalid ROM: x");
    let e = EmulatorError::SaveStateFailed("boom".to_string());
    assert_eq!(e.message(), "Save state failed: boom");
    let e = EmulatorError::LoadStateFailed("Data too short".to_string());
    assert_eq!(e.message(), "Load state failed: Data too short");
}

#[test]
fn save_state_frames_rom_length_little_endian() {
    let mut emu = Emulator::new();
    emu.load_rom(&nop_rom(0x8000)).unwrap();
    let out = emu.save_state(Ok(vec![1, 2, 3])).unwrap();
    assert_eq!(out, vec![0x00, 0x80, 0, 0, 0, 0, 0, 0, 1, 2, 3]);
}

#[test]
fn save_state_reports_serializer_error() {
    let emu = Emulator::new();
    match emu.save_state(Err("boom".to_string())) {
        Err(EmulatorError::SaveStateFailed(m)) => assert_eq!(m, "boom"),
        _ => panic!("expected SaveStateFailed"),
    }
}

#[test]
fn load_state_refuses_short_data() {
    let mut emu = Emulator::new();
    match emu.load_state(&[1, 2, 3], Err(String::new())) {
        Err(EmulatorError::LoadStateFailed(m)) => assert_eq!(m, "Data too short"),
        _ => panic!("expected LoadStateFailed"),
    }
}

#[test]
fn load_state_refuses_other_rom_length() {
    let mut emu = Emulator::new();
    emu.load_rom(&nop_rom(0x8000)).unwrap();
    let data = [5u8, 0, 0, 0, 0, 0, 0, 0, 9];
    match emu.load_state(&data, Ok(Cpu::new())) {
        Err(EmulatorError::LoadStateFailed(m)) => {
            assert_eq!(m, "ROM size mismatch: state expects 5 bytes, loaded ROM is 32768 bytes")
        }
        _ => panic!("expected LoadStateFailed"),
    }
    assert_eq!(emu.cpu.pc, 0x0100);
}

#[test]
fn load_state_reports_decoder_error() {
    let mut emu = Emulator::new();
    let data = [0u8; 8];
    match emu.load_state(&data, Err("bad".to_string())) {
        Err(EmulatorError::LoadStateFailed(m)) => assert_eq!(m, "bad"),
        _ => panic!("expected LoadStateFailed"),
    }
}

#[test]
fn save_then_load_state_restores_cpu() {
    let mut emu = Emulator::new();
    emu.load_rom(&nop_rom(0x8000)).unwrap();
    let data = emu.save_state(Ok(vec![0xAA])).unwrap();
    let mut saved = Cpu::new();
    saved.pc = 0x1234;
    saved.sp = 0xC000;
    emu.cpu.pc = 0x0200;
    assert!(emu.load_state(&data, Ok(saved)).is_ok());
    assert_eq!(emu.cpu.pc, 0x1234);
    assert_eq!(emu.cpu.sp, 0xC000);
}

#[test]
fn buttons_are_active_low() {
    let mut emu = Emulator::new();
    emu.press_button(Button::A);
    assert_eq!(emu.bus().joypad_buttons, 0x0E);
    emu.press_button(Button::Down);
    assert_eq!(emu.bus().joypad_dpad, 0x07);
    emu.bus_mut().write_byte(0xFF00, 0x10);
    assert_eq!(emu.bus().read_byte(0xFF00) & 0x0F, 0x0E);
    emu.release_button(Button::A);
    assert_eq!(emu.bus().joypad_buttons, 0x0F);
    emu.press_button(Button::Start);
    assert_eq!(emu.bus().joypad_buttons, 0x07);
    emu.press_button(Button::Select);
    assert_eq!(emu.bus().joypad_buttons, 0x03);
}

#[test]
fn on_key_maps_numbers_to_lines() {
    let mut emu = Emulator::new();
    emu.on_key(2, true);
    assert_eq!(emu.bus().joypad_dpad, 0x0B);
    emu.on_key(5, true);
    assert_eq!(emu.bus().joypad_buttons, 0x0D);
    emu.on_key(2, false);
    assert_eq!(emu.bus().joypad_dpad, 0x0F);
    emu.on_key(6, true);
    assert_eq!(emu.bus().joypad_buttons, 0x05);
    emu.on_key(5, false);
    emu.on_key(7, true);
    assert_eq!(emu.bus().joypad_buttons, 0x03);
    emu.on_key(6, false);
    assert_eq!(emu.bus().joypad_buttons, 0x0B);
}

#[test]
fn step_frame_runs_until_vblank_and_clears_flag() {
    let mut emu = Emulator::new();
    emu.load_rom(&nop_rom(0x8000)).unwrap();
    emu.step_frame();
    assert!(!emu.frame_ready());
    assert_eq!(emu.cpu.pc, 0x0100 + 16416);
    assert_eq!(emu.bus().ppu.ly, 144);
}

#[test]
fn step_frame_checked_stops_at_unknown_opcode() {
    let mut emu = Emulator::new();
    let mut rom = nop_rom(0x8000);
    rom[0x0102] = 0xD3;
    emu.load_rom(&rom).unwrap();
    assert!(!emu.step_frame_checked());
    assert_eq!(emu.cpu.pc, 0x0102);
}

#[test]
fn reset_reboots_on_the_loaded_rom() {
    let mut emu = Emulator::new();
    emu.load_rom(&nop_rom(0x8000)).unwrap();
    emu.step_instruction();
    emu.step_instruction();
    assert_eq!(emu.cpu.pc, 0x0102);
    emu.bus_mut().write_byte(0xC000, 0x42);
    emu.reset();
    assert_eq!(emu.cpu.pc, 0x0100);
    assert_eq!(emu.bus().read_byte(0xC000), 0x00);
}

#[test]
fn reset_without_rom_changes_nothing() {
    let mut emu = Emulator::new();
    emu.cpu.pc = 0x0300;
    emu.reset();
    assert_eq!(emu.cpu.pc, 0x0300);
}

#[test]
fn load_inserts_cartridge_without_restart() {
    let mut emu = Emulator::new();
    emu.cpu.pc = 0x0300;
    let mut rom = nop_rom(0x8000);
    rom[0x10] = 0x99;
    emu.load(&rom);
    assert_eq!(emu.cpu.pc, 0x0300);
    assert_eq!(emu.bus().read_byte(0x0010), 0x99);
    assert!(!emu.rom_loaded());
}

#[test]
fn clear_frame_ready_clears_flag() {
    let mut emu = Emulator::new();
    emu.bus_mut().ppu.frame_ready = true;
    assert!(emu.frame_ready());
    emu.clear_frame_ready();
    assert!(!emu.frame_ready());
}

#[test]
fn load_rom_accepts_image_shorter_than_a_bank() {
    let mut emu = Emulator::new();
    let mut rom = nop_rom(0x200);
    rom[0x1FF] = 0x42;
    assert!(emu.load_rom(&rom).is_ok());
    assert!(emu.rom_loaded());
    assert_eq!(emu.bus().read_byte(0x01FF), 0x42);
    assert_eq!(emu.bus().read_byte(0x0200), 0xFF);
    assert_eq!(emu.bus().read_byte(0x4000), 0x00);
    emu.step_instruction();
    assert_eq!(emu.cpu.pc, 0x0101);
}

#[test]
fn load_inserts_short_image() {
    let mut emu = Emulator::new();
    let mut rom = nop_rom(0x150);
    rom[0x147] = 0x01;
    emu.load(&rom);
    assert_eq!(emu.bus().rom.len(), 0x150);
    assert_eq!(emu.bus().read_byte(0x0147), 0x01);
    assert_eq!(emu.bus().mbc_type, sweetboy_core::bus::MbcType::Mbc1);
    assert_eq!(emu.bus().read_byte(0x4000), 0x00);
    assert_eq!(emu.bus().read_byte(0x4147), 0x01);
}

#[test]
fn rom_too_small_message_writes_decimal() {
    let mut emu = Emulator::new();
    match emu.load_rom(&nop_rom(305)) {
        Err(EmulatorError::InvalidRom(msg)) => {
            assert_eq!(msg, "ROM too small: 305 bytes (minimum 336)");
        }
        _ => panic!("expected InvalidRom"),
    }
}
