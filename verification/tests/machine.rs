use chip8::Chip8;

fn put_opcode(c: &mut Chip8, opcode: u16) {
    c.set_mem(0x200, (opcode >> 8) as u8);
    c.set_mem(0x201, (opcode & 0xFF) as u8);
}

#[test]
fn create() {
    let c = Chip8::new();
    assert_eq!(c.get_memory().len(), 4096);
}

#[test]
fn load_game() {
    let mut c = Chip8::new();
    c.load_game(vec![0x12, 0x34]).expect("load");
    assert_eq!(c.get_mem(0x200), 0x12);
    assert_eq!(c.get_mem(0x201), 0x34);
}

#[test]
fn test_key() {
    let mut c = Chip8::new();
    c.set_key(0, true);
    assert_eq!(c.get_key(0), true);
    assert_eq!(c.get_key(1), false);
}

#[test]
fn test_opcode_00cn() {
    let mut c = Chip8::new();
    put_opcode(&mut c, 0x00C4);
    c.fill_gfx(1);
    c.emulate_cycle().expect("cycle");
    let mut exp = [0u8; 64 * 32];
    exp[64 * 4..].fill(1);
    assert_eq!(&c.get_gfx()[..64 * 32], &exp[..]);
    c.fill_gfx(0);
    c.set_pc(0x200);
    c.emulate_cycle().expect("cycle");
    assert_eq!(&c.get_gfx()[..64 * 32], &[0u8; 64 * 32][..]);
}

#[test]
fn test_opcode_00e0() {
    let mut c = Chip8::new();
    put_opcode(&mut c, 0x00E0);
    c.fill_gfx(1);
    c.emulate_cycle().expect("cycle");
    assert_eq!(&c.get_gfx()[..64 * 32], &[0u8; 64 * 32][..]);
}

#[test]
fn test_opcode_00ee() {
    let mut c = Chip8::new();
    put_opcode(&mut c, 0x00EE);
    c.set_stack_entry(0, 0x234);
    c.set_sp(1);
    c.emulate_cycle().expect("cycle");
    assert_eq!(c.get_pc(), 0x234);
    assert_eq!(c.get_sp(), 0);
}

#[test]
fn test_opcode_00fb() {
    let mut c = Chip8::new();
    put_opcode(&mut c, 0x00FB);
    c.fill_gfx(1);
    c.emulate_cycle().expect("cycle");
    let mut ex = [1u8; 64 * 32];
    for y in 0..32usize {
        let start = y * 64;
        ex[start..start + 4].fill(0);
    }
    assert_eq!(&c.get_gfx()[..64 * 32], &ex[..]);
}

#[test]
fn test_opcode_00fc() {
    let mut c = Chip8::new();
    put_opcode(&mut c, 0x00FC);
    c.fill_gfx(1);
    c.emulate_cycle().expect("cycle");
    let mut ex = [1u8; 64 * 32];
    for y in 0..32usize {
        let start = y * 64;
        ex[start + 60..start + 64].fill(0);
    }
    assert_eq!(&c.get_gfx()[..64 * 32], &ex[..]);
}

#[test]
fn test_opcode_00fd() {
    let mut c = Chip8::new();
    put_opcode(&mut c, 0x00FD);
    c.set_pc(0x200);
    c.emulate_cycle().expect("cycle");
    assert_eq!(c.get_pc(), 0x200);
}

#[test]
fn test_opcode_00fe() {
    let mut c = Chip8::new();
    put_opcode(&mut c, 0x00FE);
    c.set_extended_mode(true);
    c.emulate_cycle().expect("cycle");
    assert_eq!(c.get_extended_mode(), false);
}

#[test]
fn test_opcode_00ff() {
    let mut c = Chip8::new();
    put_opcode(&mut c, 0x00FF);
    c.set_extended_mode(false);
    c.emulate_cycle().expect("cycle");
    assert_eq!(c.get_extended_mode(), true);
}

#[test]
fn test_opcode_1nnn() {
    let mut c = Chip8::new();
    put_opcode(&mut c, 0x1234);
    c.emulate_cycle().expect("cycle");
    assert_eq!(c.get_pc(), 0x234);
}

#[test]
fn test_opcode_2nnn() {
    let mut c = Chip8::new();
    put_opcode(&mut c, 0x2234);
    c.emulate_cycle().expect("cycle");
    assert_eq!(c.get_pc(), 0x234);
    assert_eq!(c.get_stack_entry(0), 0x202);
    assert_eq!(c.get_sp(), 1);
}

#[test]
fn test_opcode_3xkk() {
    let mut c = Chip8::new();
    c.set_v(0, 0x11);
    put_opcode(&mut c, 0x3012);
    c.emulate_cycle().expect("cycle");
    assert_eq!(c.get_pc(), 0x202);
    c.set_v(0, 0x12);
    c.set_pc(0x200);
    c.emulate_cycle().expect("cycle");
    assert_eq!(c.get_pc(), 0x204);
}

#[test]
fn test_opcode_4xkk() {
    let mut c = Chip8::new();
    c.set_v(0, 0x12);
    put_opcode(&mut c, 0x4012);
    c.emulate_cycle().expect("cycle");
    assert_eq!(c.get_pc(), 0x202);
    c.set_pc(0x200);
    c.set_v(0, 0x34);
    c.emulate_cycle().expect("cycle");
    assert_eq!(c.get_pc(), 0x204);
}

#[test]
fn test_opcode_5xy0() {
    let mut c = Chip8::new();
    c.set_v(0, 0x12);
    c.set_v(1, 0x12);
    put_opcode(&mut c, 0x5010);
    c.emulate_cycle().expect("cycle");
    assert_eq!(c.get_pc(), 0x204);
    c.set_pc(0x200);
    c.set_v(1, 0x34);
    c.emulate_cycle().expect("cycle");
    assert_eq!(c.get_pc(), 0x202);
}

#[test]
fn test_opcode_6xkk() {
    let mut c = Chip8::new();
    put_opcode(&mut c, 0x6012);
    c.emulate_cycle().expect("cycle");
    assert_eq!(c.get_v(0), 0x12);
}

#[test]
fn test_opcode_7xkk() {
    let mut c = Chip8::new();
    c.set_v(0, 0x12);
    put_opcode(&mut c, 0x7012);
    c.emulate_cycle().expect("cycle");
    assert_eq!(c.get_v(0), 0x24);
}

#[test]
fn test_opcode_8xy0() {
    let mut c = Chip8::new();
    c.set_v(1, 0x12);
    put_opcode(&mut c, 0x8010);
    c.emulate_cycle().expect("cycle");
    assert_eq!(c.get_v(0), 0x12);
}

#[test]
fn test_opcode_8xy1() {
    let mut c = Chip8::new();
    c.set_v(0, 0x12);
    c.set_v(1, 0x34);
    c.set_v(0xF, 1);
    put_opcode(&mut c, 0x8011);
    c.emulate_cycle().expect("cycle");
    assert_eq!(c.get_v(0), 0x34 | 0x12);
    assert_eq!(c.get_v(0xF), 0);
}

#[test]
fn test_opcode_8xy2() {
    let mut c = Chip8::new();
    c.set_v(0, 0x12);
    c.set_v(1, 0x34);
    c.set_v(0xF, 1);
    put_opcode(&mut c, 0x8012);
    c.emulate_cycle().expect("cycle");
    assert_eq!(c.get_v(0), 0x12 & 0x34);
    assert_eq!(c.get_v(0xF), 0);
}

#[test]
fn test_opcode_8xy3() {
    let mut c = Chip8::new();
    c.set_v(0, 0x12);
    c.set_v(1, 0x34);
    put_opcode(&mut c, 0x8013);
    c.emulate_cycle().expect("cycle");
    assert_eq!(c.get_v(0), 0x26);
}

#[test]
fn test_opcode_8xy4() {
    let mut c = Chip8::new();
    c.set_v(0, 0x12);
    c.set_v(1, 0x34);
    put_opcode(&mut c, 0x8014);
    c.emulate_cycle().expect("cycle");
    assert_eq!(c.get_v(0), 0x46);
    assert_eq!(c.get_v(0xF), 0);
    c.set_v(0, 0xFF);
    c.set_v(1, 0x01);
    c.set_pc(0x200);
    c.emulate_cycle().expect("cycle");
    assert_eq!(c.get_v(0), 0x00);
    assert_eq!(c.get_v(0xF), 1);
}

#[test]
fn test_opcode_8xy5() {
    let mut c = Chip8::new();
    c.set_v(0, 0x34);
    c.set_v(1, 0x12);
    put_opcode(&mut c, 0x8015);
    c.emulate_cycle().expect("cycle");
    assert_eq!(c.get_v(0), 0x22);
    assert_eq!(c.get_v(0xF), 1);
    c.set_v(0, 0x01);
    c.set_v(1, 0x02);
    c.set_pc(0x200);
    c.emulate_cycle().expect("cycle");
    assert_eq!(c.get_v(0), 0xFF);
    assert_eq!(c.get_v(0xF), 0);
}

#[test]
fn test_opcode_8xy6() {
    let mut c = Chip8::new();
    c.set_v(0, 0b00001010);
    put_opcode(&mut c, 0x8006);
    c.emulate_cycle().expect("cycle");
    assert_eq!(c.get_v(0), 0b0101);
    assert_eq!(c.get_v(0xF), 0);
    c.set_v(0, 0b00001011);
    c.set_pc(0x200);
    c.emulate_cycle().expect("cycle");
    assert_eq!(c.get_v(0), 0b0101);
    assert_eq!(c.get_v(0xF), 1);
}

#[test]
fn test_opcode_8xy7() {
    let mut c = Chip8::new();
    c.set_v(0, 0x34);
    c.set_v(1, 0x12);
    put_opcode(&mut c, 0x8017);
    c.emulate_cycle().expect("cycle");
    assert_eq!(c.get_v(0), 0xDE);
    assert_eq!(c.get_v(0xF), 0);
    c.set_v(0, 0x01);
    c.set_v(1, 0x02);
    c.set_pc(0x200);
    c.emulate_cycle().expect("cycle");
    assert_eq!(c.get_v(0), 0x01);
    assert_eq!(c.get_v(0xF), 1);
}

#[test]
fn test_opcode_8xye() {
    let mut c = Chip8::new();
    c.set_v(0, 0b10100000);
    put_opcode(&mut c, 0x800E);
    c.emulate_cycle().expect("cycle");
    assert_eq!(c.get_v(0), 0b01000000);
    assert_eq!(c.get_v(0xF), 1);
    c.set_v(0, 0b00110000);
    c.set_pc(0x200);
    c.emulate_cycle().expect("cycle");
    assert_eq!(c.get_v(0), 0b01100000);
    assert_eq!(c.get_v(0xF), 0);
}

#[test]
fn test_opcode_9xy0() {
    let mut c = Chip8::new();
    c.set_v(0, 0x12);
    c.set_v(1, 0x12);
    put_opcode(&mut c, 0x9010);
    c.emulate_cycle().expect("cycle");
    assert_eq!(c.get_pc(), 0x202);
    c.set_pc(0x200);
    c.set_v(1, 0x34);
    c.emulate_cycle().expect("cycle");
    assert_eq!(c.get_pc(), 0x204);
}

#[test]
fn test_opcode_annn() {
    let mut c = Chip8::new();
    put_opcode(&mut c, 0xA234);
    c.emulate_cycle().expect("cycle");
    assert_eq!(c.get_i(), 0x234);
}

#[test]
fn test_opcode_bnnn() {
    let mut c = Chip8::new();
    c.set_v(0, 0x12);
    put_opcode(&mut c, 0xB234);
    c.emulate_cycle().expect("cycle");
    assert_eq!(c.get_pc(), 0x246);
}

#[test]
fn test_opcode_cxkk() {
    let mut c = Chip8::new();
    put_opcode(&mut c, 0xC012);
    c.emulate_cycle().expect("cycle");
}

#[test]
fn test_opcode_dxyn() {
    let mut c = Chip8::new();
    c.set_i(0x205);
    c.set_mem(0x205, 0b11110000);
    put_opcode(&mut c, 0xD001);
    c.set_v(0, 0);
    c.set_v(1, 0);
    c.emulate_cycle().expect("cycle");
    assert_eq!(c.get_v(0xF), 0);
    assert_eq!(c.get_gfx()[0], 1);
    assert_eq!(c.get_gfx()[1], 1);
    assert_eq!(c.get_gfx()[2], 1);
    assert_eq!(c.get_gfx()[3], 1);
    assert_eq!(c.get_gfx()[4], 0);
    assert_eq!(c.get_gfx()[5], 0);
    assert_eq!(c.get_gfx()[6], 0);
    assert_eq!(c.get_gfx()[7], 0);
}

#[test]
fn test_opcode_ex9e() {
    let mut c = Chip8::new();
    c.set_v(2, 3);
    c.set_key(3, true);
    put_opcode(&mut c, 0xE29E);
    c.emulate_cycle().expect("cycle");
    assert_eq!(c.get_pc(), 0x204);
    c.set_pc(0x200);
    c.set_v(2, 3);
    c.set_key(3, false);
    c.emulate_cycle().expect("cycle");
    assert_eq!(c.get_pc(), 0x202);
}

#[test]
fn test_opcode_exa1() {
    let mut c = Chip8::new();
    c.set_v(0, 0);
    c.set_key(0, true);
    put_opcode(&mut c, 0xE0A1);
    c.emulate_cycle().expect("cycle");
    assert_eq!(c.get_pc(), 0x202);
    c.set_pc(0x200);
    c.set_v(0, 0);
    c.set_key(0, false);
    c.emulate_cycle().expect("cycle");
    assert_eq!(c.get_pc(), 0x204);
}

#[test]
fn test_opcode_fx07() {
    let mut c = Chip8::new();
    c.set_delay_timer(0x12);
    put_opcode(&mut c, 0xF007);
    c.tick_timers();
    c.emulate_cycle().expect("cycle");
    assert_eq!(c.get_v(0), 0x11);
}

#[test]
fn test_opcode_fx0a() {
    let mut c = Chip8::new();
    c.set_key(0, true);
    put_opcode(&mut c, 0xF00A);
    c.emulate_cycle().expect("cycle");
    assert_eq!(c.get_v(0), 0);
    c.set_pc(0x200);
    c.emulate_cycle().expect("cycle");
    assert_eq!(c.get_v(0), 0);
    c.set_key(0, false);
    c.set_pc(0x200);
    c.emulate_cycle().expect("cycle");
    assert_eq!(c.get_v(0), 0);
    c.set_key(0, true);
    c.set_pc(0x200);
    c.emulate_cycle().expect("cycle");
    assert_eq!(c.get_v(0), 0);
}

#[test]
fn test_opcode_fx15() {
    let mut c = Chip8::new();
    c.set_v(0, 0x12);
    put_opcode(&mut c, 0xF015);
    c.emulate_cycle().expect("cycle");
    assert_eq!(c.get_delay_timer(), 0x12);
}

#[test]
fn test_opcode_fx18() {
    let mut c = Chip8::new();
    c.set_v(0, 0x12);
    put_opcode(&mut c, 0xF018);
    c.emulate_cycle().expect("cycle");
    assert_eq!(c.get_sound_timer(), 0x12);
}

#[test]
fn test_opcode_fx1e() {
    let mut c = Chip8::new();
    c.set_v(0, 0x12);
    c.set_i(0x34);
    put_opcode(&mut c, 0xF01E);
    c.emulate_cycle().expect("cycle");
    assert_eq!(c.get_i(), 0x46);
}

#[test]
fn test_opcode_fx29() {
    let mut c = Chip8::new();
    c.set_v(0, 0x5);
    put_opcode(&mut c, 0xF029);
    c.emulate_cycle().expect("cycle");
    assert_eq!(c.get_i(), 0x19);
}

#[test]
fn test_opcode_fx30() {
    let mut c = Chip8::new();
    c.set_v(0, 0x2);
    put_opcode(&mut c, 0xF030);
    c.emulate_cycle().expect("cycle");
    assert_eq!(c.get_i(), 0x64);
}

#[test]
fn test_opcode_fx33() {
    let mut c = Chip8::new();
    c.set_v(0, 123);
    put_opcode(&mut c, 0xF033);
    c.set_i(0x200);
    c.emulate_cycle().expect("cycle");
    assert_eq!(c.get_mem(0x200), 1);
    assert_eq!(c.get_mem(0x201), 2);
    assert_eq!(c.get_mem(0x202), 3);
}

#[test]
fn test_opcode_fx55() {
    let mut c = Chip8::new();
    c.set_v(0, 0x12);
    c.set_v(1, 0x34);
    c.set_v(2, 0x56);
    put_opcode(&mut c, 0xF255);
    c.set_i(0x200);
    c.emulate_cycle().expect("cycle");
    assert_eq!(c.get_mem(0x200), 0x12);
    assert_eq!(c.get_mem(0x201), 0x34);
    assert_eq!(c.get_mem(0x202), 0x56);
}

#[test]
fn test_opcode_fx65() {
    let mut c = Chip8::new();
    c.set_mem(0x205, 0x12);
    c.set_mem(0x206, 0x34);
    c.set_mem(0x207, 0x56);
    put_opcode(&mut c, 0xF265);
    c.set_i(0x205);
    c.emulate_cycle().expect("cycle");
    assert_eq!(c.get_v(0), 0x12);
    assert_eq!(c.get_v(1), 0x34);
    assert_eq!(c.get_v(2), 0x56);
}

#[test]
fn test_opcode_fx75() {
    let mut c = Chip8::new();
    c.set_v(0, 0x12);
    c.set_v(1, 0x34);
    c.set_v(2, 0x56);
    put_opcode(&mut c, 0xF275);
    c.set_i(0x5F0);
    c.emulate_cycle().expect("cycle");
    assert_eq!(c.get_mem(0x5F0), 0x12);
    assert_eq!(c.get_mem(0x5F1), 0x34);
    assert_eq!(c.get_mem(0x5F2), 0x56);
}

#[test]
fn test_opcode_fx85() {
    let mut c = Chip8::new();
    c.set_mem(0x5F0, 0x12);
    c.set_mem(0x5F1, 0x34);
    c.set_mem(0x5F2, 0x56);
    put_opcode(&mut c, 0xF285);
    c.set_i(0x5F0);
    c.emulate_cycle().expect("cycle");
    assert_eq!(c.get_v(0), 0x12);
    assert_eq!(c.get_v(1), 0x34);
    assert_eq!(c.get_v(2), 0x56);
}
