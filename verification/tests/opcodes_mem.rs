use chip_8::cpu::Register;
use chip_8::graphic::Graphic;
use chip_8::instructions::draw::Opcode0x00e0;
use chip_8::instructions::draw::Opcode0xdxyn;
use chip_8::instructions::index::Opcode0xannn;
use chip_8::instructions::index::Opcode0xfx1e;
use chip_8::instructions::index::Opcode0xfx29;
use chip_8::instructions::key::Opcode0xfx0a;
use chip_8::instructions::mem::Opcode0xfx33;
use chip_8::instructions::mem::Opcode0xfx55;
use chip_8::instructions::mem::Opcode0xfx65;
use chip_8::instructions::timer::Opcode0xfx07;
use chip_8::instructions::timer::Opcode0xfx15;
use chip_8::instructions::timer::Opcode0xfx18;
use chip_8::memory::Memory;

#[test]
fn opcode_0x00e0_test_execute() {
    let opcode = Opcode0x00e0::new();
    let mut memory = Memory::new();
    let mut register = Register::new();
    let mut graphic = Graphic::new();
    graphic.gfx = vec![1; 2048];
    opcode.execute(&mut memory, &mut register, &mut graphic, None).unwrap();
    for gfx in graphic.gfx.iter() {
        assert_eq!(*gfx, 0);
    }
}

#[test]
fn opcode_0xannn_test_execute() {
    let instruction: u16 = 0xa12e;
    let opcode = Opcode0xannn::new(instruction);
    let mut memory = Memory::new();
    let mut register = Register::new();
    register.pc = 0;
    let mut graphic = Graphic::new();
    opcode.execute(&mut memory, &mut register, &mut graphic, None).unwrap();
    assert_eq!(register.pc, 2);
    assert_eq!(register.i, 0x12e);
}

#[test]
fn test_execute_no_collision() {
    let instruction = 0xd123;
    let opcode = Opcode0xdxyn::new(instruction);

    let mut memory = Memory::new();
    memory.all[0x12] = 0xF0; // 0b11110000
    memory.all[0x13] = 0x0F; // 0b00001111
    memory.all[0x14] = 0xFF; // 0b11111111

    let (x, y): (usize, usize) = (1, 2);

    let mut register = Register::new();
    register.pc = 0;
    register.i = 0x12;
    register.v[0x1] = x as u8;
    register.v[0x2] = y as u8;

    let mut graphic = Graphic::new();

    opcode.execute(&mut memory, &mut register, &mut graphic, None).unwrap();

    assert_eq!(graphic.gfx[y * 64 + (x + 0)], 1);
    assert_eq!(graphic.gfx[y * 64 + (x + 1)], 1);
    assert_eq!(graphic.gfx[y * 64 + (x + 2)], 1);
    assert_eq!(graphic.gfx[y * 64 + (x + 3)], 1);
    assert_eq!(graphic.gfx[y * 64 + (x + 4)], 0);
    assert_eq!(graphic.gfx[y * 64 + (x + 5)], 0);
    assert_eq!(graphic.gfx[y * 64 + (x + 6)], 0);
    assert_eq!(graphic.gfx[y * 64 + (x + 7)], 0);

    assert_eq!(graphic.gfx[(y + 1) * 64 + (x + 0)], 0);
    assert_eq!(graphic.gfx[(y + 1) * 64 + (x + 1)], 0);
    assert_eq!(graphic.gfx[(y + 1) * 64 + (x + 2)], 0);
    assert_eq!(graphic.gfx[(y + 1) * 64 + (x + 3)], 0);
    assert_eq!(graphic.gfx[(y + 1) * 64 + (x + 4)], 1);
    assert_eq!(graphic.gfx[(y + 1) * 64 + (x + 5)], 1);
    assert_eq!(graphic.gfx[(y + 1) * 64 + (x + 6)], 1);
    assert_eq!(graphic.gfx[(y + 1) * 64 + (x + 7)], 1);

    assert_eq!(graphic.gfx[(y + 2) * 64 + (x + 0)], 1);
    assert_eq!(graphic.gfx[(y + 2) * 64 + (x + 1)], 1);
    assert_eq!(graphic.gfx[(y + 2) * 64 + (x + 2)], 1);
    assert_eq!(graphic.gfx[(y + 2) * 64 + (x + 3)], 1);
    assert_eq!(graphic.gfx[(y + 2) * 64 + (x + 4)], 1);
    assert_eq!(graphic.gfx[(y + 2) * 64 + (x + 5)], 1);
    assert_eq!(graphic.gfx[(y + 2) * 64 + (x + 6)], 1);
    assert_eq!(graphic.gfx[(y + 2) * 64 + (x + 7)], 1);

    assert_eq!(register.v[0xF], 0);
    assert_eq!(register.pc, 2);
}

#[test]
fn opcode_0xfx07_test_execute() {
    let instruction = 0xf507;
    let opcode = Opcode0xfx07::new(instruction);
    let mut memory = Memory::new();
    let mut register = Register::new();
    register.pc = 0;
    register.delay_timer = 7;
    let mut graphic = Graphic::new();
    opcode.execute(&mut memory, &mut register, &mut graphic, None).unwrap();
    assert_eq!(register.delay_timer, 7);
    assert_eq!(register.pc, 2);
}

#[test]
fn opcode_0xfx0a_test_execute() {
    let instruction = 0xf50a;
    let opcode = Opcode0xfx0a::new(instruction);
    let mut memory = Memory::new();
    let mut register = Register::new();
    let mut graphic = Graphic::new();
    opcode.execute(&mut memory, &mut register, &mut graphic, Some(0x9)).unwrap();
    assert_eq!(register.v[0x5], 0x9);
    assert_eq!(register.pc, 0x202);
}

#[test]
fn opcode_0xfx15_test_execute() {
    let instruction = 0xf515;
    let opcode = Opcode0xfx15::new(instruction);
    let mut memory = Memory::new();
    let mut register = Register::new();
    register.v[0x5] = 0xa;
    let mut graphic = Graphic::new();
    opcode.execute(&mut memory, &mut register, &mut graphic, None).unwrap();
    assert_eq!(register.delay_timer, 0xa);
    assert_eq!(register.pc, 0x202);
}

#[test]
fn opcode_0xfx18_test_execute() {
    let instruction = 0xf518;
    let opcode = Opcode0xfx18::new(instruction);
    let mut memory = Memory::new();
    let mut register = Register::new();
    register.pc = 0;
    register.v[0x5] = 0xb;
    let mut graphic = Graphic::new();
    opcode.execute(&mut memory, &mut register, &mut graphic, None).unwrap();
    assert_eq!(register.sound_timer, 0xb);
    assert_eq!(register.pc, 2);
}

#[test]
fn opcode_0xfx1e_test_execute() {
    let instruction = 0xf51e;
    let opcode = Opcode0xfx1e::new(instruction);
    let mut memory = Memory::new();
    let mut register = Register::new();
    register.i = 0xa;
    register.v[0x5] = 0x2;
    let mut graphic = Graphic::new();
    opcode.execute(&mut memory, &mut register, &mut graphic, None).unwrap();
    assert_eq!(register.i, 0xc);
    assert_eq!(register.pc, 0x202);
}

#[test]
fn opcode_0xfx29_test_execute() {
    let instruction = 0xf529;
    let opcode = Opcode0xfx29::new(instruction);
    let mut memory = Memory::new();
    let mut register = Register::new();
    register.i = 0xa;
    register.v[0x5] = 0xe;
    let mut graphic = Graphic::new();
    opcode.execute(&mut memory, &mut register, &mut graphic, None).unwrap();
    assert_eq!(register.i, 0x46);
    assert_eq!(register.pc, 0x202);
}

#[test]
fn opcode_0xfx33_test_execute() {
    let instruction = 0xf533;
    let opcode = Opcode0xfx33::new(instruction);
    let mut memory = Memory::new();
    let mut register = Register::new();
    register.i = 0xa;
    register.v[0x5] = 0x7b; // 123
    let mut graphic = Graphic::new();
    opcode.execute(&mut memory, &mut register, &mut graphic, None).unwrap();
    assert_eq!(memory.all[0xa], 0x1);
    assert_eq!(memory.all[0xb], 0x2);
    assert_eq!(memory.all[0xc], 0x3);
    assert_eq!(register.pc, 0x202);
}

#[test]
fn opcode_0xfx55_test_execute() {
    let instruction = 0xf555;
    let opcode = Opcode0xfx55::new(instruction);

    let mut memory = Memory::new();
    // The addresses around the stored block lie inside the font area; blank
    // them so that the boundary checks below start from zero.
    for address in 0x9..0x11 {
        memory.all[address] = 0;
    }

    let mut register = Register::new();
    register.i = 0xa;
    register.v[0x0] = 0x1;
    register.v[0x1] = 0x2;
    register.v[0x2] = 0x3;
    register.v[0x3] = 0x4;
    register.v[0x4] = 0x5;
    register.v[0x5] = 0x6;

    let mut graphic = Graphic::new();

    opcode.execute(&mut memory, &mut register, &mut graphic, None).unwrap();

    assert_eq!(memory.all[0x9], 0x0);
    assert_eq!(memory.all[0xa], 0x1);
    assert_eq!(memory.all[0xb], 0x2);
    assert_eq!(memory.all[0xc], 0x3);
    assert_eq!(memory.all[0xd], 0x4);
    assert_eq!(memory.all[0xe], 0x5);
    assert_eq!(memory.all[0xf], 0x6);
    assert_eq!(memory.all[0x10], 0x0);
    assert_eq!(register.pc, 0x202);
}

#[test]
fn opcode_0xfx65_test_execute() {
    let instruction = 0xf565;
    let opcode = Opcode0xfx65::new(instruction);

    let mut memory = Memory::new();
    let mut register = Register::new();
    register.i = 0xa;

    memory.all[0xa] = 0x1;
    memory.all[0xb] = 0x2;
    memory.all[0xc] = 0x3;
    memory.all[0xd] = 0x4;
    memory.all[0xe] = 0x5;
    memory.all[0xf] = 0x6;

    let mut graphic = Graphic::new();

    opcode.execute(&mut memory, &mut register, &mut graphic, None).unwrap();

    assert_eq!(register.v[0x0], 0x1);
    assert_eq!(register.v[0x1], 0x2);
    assert_eq!(register.v[0x2], 0x3);
    assert_eq!(register.v[0x3], 0x4);
    assert_eq!(register.v[0x4], 0x5);
    assert_eq!(register.v[0x5], 0x6);
    assert_eq!(register.pc, 0x202);
}
