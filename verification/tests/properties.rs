use chip8::{
    dissasemble_op_code_from_bytes, dissasemble_op_code_from_str, dissasemble_op_code_from_u16,
    get_op_code_from_hex, opcode_table, Chip8, DisasmError, EngineError,
};

#[test]
fn decode_round_trip_over_table() {
    for d in opcode_table() {
        assert_eq!(get_op_code_from_hex(d.code), Ok(d));
    }
}

#[test]
fn descriptor_templates() {
    let and = get_op_code_from_hex(0x8122).expect("decode");
    assert_eq!(and.code_string(), "8XY2");
    assert_eq!(and.mnemonic(), "AND VX, VY");
    assert_eq!(and.code, 0x8002);
    assert_eq!(and.bit_mask, 0xF00F);
    let sys = get_op_code_from_hex(0x0123).expect("decode");
    assert_eq!(sys.code_string(), "0NNN");
    assert_eq!(sys.mnemonic(), "SYS NNN");
}

#[test]
fn disassemble_canonical_codes() {
    assert_eq!(dissasemble_op_code_from_u16(0x00E0).expect("fail"), "CLS");
    assert_eq!(dissasemble_op_code_from_u16(0x00EE).expect("fail"), "RET");
    assert_eq!(dissasemble_op_code_from_u16(0x1000).expect("fail"), "JP 000");
    assert_eq!(
        dissasemble_op_code_from_u16(0x2000).expect("fail"),
        "CALL 000"
    );
    assert_eq!(
        dissasemble_op_code_from_u16(0x3000).expect("fail"),
        "SE V0, 00"
    );
    assert_eq!(
        dissasemble_op_code_from_u16(0x8003).expect("fail"),
        "XOR V0, V0"
    );
    assert_eq!(
        dissasemble_op_code_from_u16(0xD000).expect("fail"),
        "DRW V0, V0, 0"
    );
    assert_eq!(dissasemble_op_code_from_u16(0x00C0).expect("fail"), "SCD 0");
    assert_eq!(
        dissasemble_op_code_from_u16(0xF055).expect("fail"),
        "LD [I], V0"
    );
    assert_eq!(dissasemble_op_code_from_u16(0x0000).expect("fail"), "SYS 000");
}

#[test]
fn disassemble_high_nibble_operands() {
    assert_eq!(
        dissasemble_op_code_from_str("1FFF").expect("fail"),
        "JP 151515"
    );
    assert_eq!(
        dissasemble_op_code_from_str("3A1B").expect("fail"),
        "SE V10, 111"
    );
}

#[test]
fn disassemble_bytes_odd_length() {
    let bytes = [0x00, 0xE0, 0x00];
    assert_eq!(
        dissasemble_op_code_from_bytes(&bytes),
        Err(DisasmError::InvalidLength)
    );
}

#[test]
fn disassemble_unknown_opcode() {
    assert_eq!(
        dissasemble_op_code_from_u16(0xFFFF),
        Err(DisasmError::UnknownOpcode)
    );
    assert_eq!(
        dissasemble_op_code_from_str("FFFF"),
        Err(DisasmError::UnknownOpcode)
    );
    let bytes = [0x00, 0xE0, 0xFF, 0xFF];
    assert_eq!(
        dissasemble_op_code_from_bytes(&bytes),
        Err(DisasmError::UnknownOpcode)
    );
}

#[test]
fn disassemble_malformed_hex() {
    assert_eq!(
        dissasemble_op_code_from_str(""),
        Err(DisasmError::ParseError)
    );
    assert_eq!(
        dissasemble_op_code_from_str("00EG"),
        Err(DisasmError::ParseError)
    );
    assert_eq!(
        dissasemble_op_code_from_str("12345"),
        Err(DisasmError::ParseError)
    );
    assert_eq!(dissasemble_op_code_from_str("e0").expect("fail"), "CLS");
}

#[test]
fn draw_collision_second_pass() {
    let mut c = Chip8::new();
    c.set_i(0x400);
    c.set_mem(0x400, 0b11110000);
    c.set_mem(0x200, 0xD0);
    c.set_mem(0x201, 0x01);
    c.set_v(0, 0);
    c.set_v(1, 0);
    c.emulate_cycle().expect("cycle");
    assert_eq!(c.get_v(0xF), 0);
    assert_eq!(&c.get_gfx()[..8], &[1, 1, 1, 1, 0, 0, 0, 0]);
    c.set_pc(0x200);
    c.emulate_cycle().expect("cycle");
    assert_eq!(c.get_v(0xF), 1);
    assert_eq!(&c.get_gfx()[..8], &[0, 0, 0, 0, 0, 0, 0, 0]);
}

#[test]
fn draw_wraps_at_screen_edge() {
    let mut c = Chip8::new();
    c.set_i(0x400);
    c.set_mem(0x400, 0b11000000);
    c.set_mem(0x200, 0xD0);
    c.set_mem(0x201, 0x11);
    c.set_v(0, 63);
    c.set_v(1, 0);
    c.emulate_cycle().expect("cycle");
    assert_eq!(c.get_gfx()[63], 1);
    assert_eq!(c.get_gfx()[0], 1);
    assert_eq!(c.get_v(0xF), 0);
}

#[test]
fn call_and_return() {
    let mut c = Chip8::new();
    c.set_mem(0x200, 0x22);
    c.set_mem(0x201, 0x34);
    c.set_mem(0x234, 0x00);
    c.set_mem(0x235, 0xEE);
    c.emulate_cycle().expect("call");
    assert_eq!(c.get_stack_entry(0), 0x202);
    assert_eq!(c.get_sp(), 1);
    assert_eq!(c.get_pc(), 0x234);
    c.emulate_cycle().expect("ret");
    assert_eq!(c.get_pc(), 0x202);
    assert_eq!(c.get_sp(), 0);
}

#[test]
fn call_stack_overflow() {
    let mut c = Chip8::new();
    c.set_mem(0x200, 0x22);
    c.set_mem(0x201, 0x00);
    for _ in 0..16 {
        c.emulate_cycle().expect("call");
    }
    assert_eq!(c.get_sp(), 16);
    assert_eq!(c.emulate_cycle(), Err(EngineError::StackOverflow));
}

#[test]
fn return_stack_underflow() {
    let mut c = Chip8::new();
    c.set_mem(0x200, 0x00);
    c.set_mem(0x201, 0xEE);
    assert_eq!(c.emulate_cycle(), Err(EngineError::StackUnderflow));
}

#[test]
fn timer_saturates_at_zero() {
    let mut c = Chip8::new();
    c.set_delay_timer(1);
    c.tick_timers();
    assert_eq!(c.get_delay_timer(), 0);
    c.tick_timers();
    assert_eq!(c.get_delay_timer(), 0);
    c.set_sound_timer(2);
    c.tick_timers();
    c.tick_timers();
    c.tick_timers();
    assert_eq!(c.get_sound_timer(), 0);
}

#[test]
fn unknown_opcode_reports_and_preserves() {
    let mut c = Chip8::new();
    c.set_mem(0x200, 0xFF);
    c.set_mem(0x201, 0xFF);
    c.set_v(3, 0x42);
    c.set_i(0x123);
    assert_eq!(
        c.emulate_cycle(),
        Err(EngineError::UnknownOpcode {
            address: 0x200,
            opcode: 0xFFFF
        })
    );
    assert_eq!(c.get_pc(), 0x202);
    assert_eq!(c.get_v(3), 0x42);
    assert_eq!(c.get_i(), 0x123);
}

#[test]
fn rom_too_large_is_rejected() {
    let mut c = Chip8::new();
    let rom = vec![0u8; 3585];
    assert_eq!(c.load_game(rom), Err(EngineError::RomTooLarge));
    assert_eq!(c.load_game(vec![0u8; 3584]), Ok(()));
}

#[test]
fn rpl_transfer_rejects_high_register() {
    let mut c = Chip8::new();
    c.set_mem(0x200, 0xF8);
    c.set_mem(0x201, 0x75);
    assert_eq!(c.emulate_cycle(), Err(EngineError::InvalidOperand));
    c.set_pc(0x200);
    c.set_mem(0x201, 0x85);
    assert_eq!(c.emulate_cycle(), Err(EngineError::InvalidOperand));
}

#[test]
fn random_with_zero_mask_is_zero() {
    let mut c = Chip8::new();
    c.set_v(0, 0x55);
    c.set_mem(0x200, 0xC0);
    c.set_mem(0x201, 0x00);
    c.emulate_cycle().expect("cycle");
    assert_eq!(c.get_v(0), 0);
}

#[test]
fn key_wait_rewinds_until_pressed() {
    let mut c = Chip8::new();
    c.set_mem(0x200, 0xF2);
    c.set_mem(0x201, 0x0A);
    c.emulate_cycle().expect("cycle");
    assert_eq!(c.get_pc(), 0x200);
    c.set_key(4, true);
    c.set_key(9, true);
    c.emulate_cycle().expect("cycle");
    assert_eq!(c.get_pc(), 0x202);
    assert_eq!(c.get_v(2), 9);
}

#[test]
fn scroll_right_extended_mode() {
    let mut c = Chip8::new();
    c.set_extended_mode(true);
    c.fill_gfx(1);
    c.set_mem(0x200, 0x00);
    c.set_mem(0x201, 0xFB);
    c.emulate_cycle().expect("cycle");
    let gfx = c.get_gfx();
    for y in 0..64usize {
        let start = y * 128;
        assert_eq!(&gfx[start..start + 4], &[0, 0, 0, 0]);
        assert_eq!(gfx[start + 4], 1);
        assert_eq!(gfx[start + 127], 1);
    }
}

#[test]
fn mode_toggle_keeps_pixels() {
    let mut c = Chip8::new();
    c.fill_gfx(1);
    c.set_mem(0x200, 0x00);
    c.set_mem(0x201, 0xFF);
    c.emulate_cycle().expect("cycle");
    assert_eq!(c.get_extended_mode(), true);
    assert!(c.get_gfx().iter().all(|&p| p == 1));
}

#[test]
fn bcd_digits() {
    let mut c = Chip8::new();
    c.set_v(7, 255);
    c.set_i(0x300);
    c.set_mem(0x200, 0xF7);
    c.set_mem(0x201, 0x33);
    c.emulate_cycle().expect("cycle");
    assert_eq!(c.get_mem(0x300), 2);
    assert_eq!(c.get_mem(0x301), 5);
    assert_eq!(c.get_mem(0x302), 5);
}

#[test]
fn font_addresses() {
    let c = Chip8::new();
    assert_eq!(c.get_mem(0), 0xF0);
    assert_eq!(c.get_mem(239), 0x80);
    assert_eq!(c.get_mem(240), 0);
    assert_eq!(c.get_pc(), 0x200);
}
