use chip_8::cpu::Register;
use chip_8::graphic::Graphic;
use chip_8::instructions::alu::Opcode0x6xkk;
use chip_8::instructions::alu::Opcode0x7xkk;
use chip_8::instructions::alu::Opcode0x8xy0;
use chip_8::instructions::alu::Opcode0x8xy1;
use chip_8::instructions::alu::Opcode0x8xy2;
use chip_8::instructions::alu::Opcode0x8xy3;
use chip_8::instructions::alu::Opcode0x8xy4;
use chip_8::instructions::alu::Opcode0x8xy5;
use chip_8::instructions::alu::Opcode0x8xy6;
use chip_8::instructions::alu::Opcode0x8xy7;
use chip_8::instructions::alu::Opcode0x8xye;
use chip_8::instructions::alu::Opcode0xcxkk;
use chip_8::memory::Memory;

#[test]
fn opcode_0x6xkk_test_execute() {
    let instruction: u16 = 0x6123;
    let opcode = Opcode0x6xkk::new(instruction);
    let mut memory = Memory::new();
    let mut register = Register::new();
    let mut graphic = Graphic::new();
    opcode.execute(&mut memory, &mut register, &mut graphic, None).unwrap();
    assert_eq!(register.pc, 0x202);
    assert_eq!(register.v[1], 0x23);
}

#[test]
fn opcode_0x7xkk_test_execute() {
    let instruction: u16 = 0x7123;
    let opcode = Opcode0x7xkk::new(instruction);
    let mut memory = Memory::new();
    let mut register = Register::new();
    register.v[1] = 0x1;
    let mut graphic = Graphic::new();
    opcode.execute(&mut memory, &mut register, &mut graphic, None).unwrap();
    assert_eq!(register.pc, 0x202);
    assert_eq!(register.v[1], 0x24);
}

#[test]
fn opcode_0x8xy0_test_execute() {
    let instruction: u16 = 0x8120;
    let opcode = Opcode0x8xy0::new(instruction);
    let mut memory = Memory::new();
    let mut register = Register::new();
    register.v[1] = 0x1;
    register.v[2] = 0x2;
    let mut graphic = Graphic::new();
    opcode.execute(&mut memory, &mut register, &mut graphic, None).unwrap();
    assert_eq!(register.pc, 0x202);
    assert_eq!(register.v[1], 0x2);
}

#[test]
fn opcode_0x8xy1_test_execute() {
    let instruction: u16 = 0x8121;
    let opcode = Opcode0x8xy1::new(instruction);
    let mut memory = Memory::new();
    let mut register = Register::new();
    register.v[1] = 0b0101;
    register.v[2] = 0b1001;
    let mut graphic = Graphic::new();
    opcode.execute(&mut memory, &mut register, &mut graphic, None).unwrap();
    assert_eq!(register.pc, 0x202);
    assert_eq!(register.v[1], 0b1101);
}

#[test]
fn opcode_0x8xy2_test_execute() {
    let instruction: u16 = 0x8122;
    let opcode = Opcode0x8xy2::new(instruction);
    let mut memory = Memory::new();
    let mut register = Register::new();
    register.pc = 0;
    register.v[1] = 0b0101;
    register.v[2] = 0b1001;
    let mut graphic = Graphic::new();
    opcode.execute(&mut memory, &mut register, &mut graphic, None).unwrap();
    assert_eq!(register.pc, 2);
    assert_eq!(register.v[1], 0b0001);
}

#[test]
fn opcode_0x8xy3_test_execute() {
    let instruction: u16 = 0x8123;
    let opcode = Opcode0x8xy3::new(instruction);
    let mut memory = Memory::new();
    let mut register = Register::new();
    register.pc = 0;
    register.v[1] = 0b0101;
    register.v[2] = 0b1001;
    let mut graphic = Graphic::new();
    opcode.execute(&mut memory, &mut register, &mut graphic, None).unwrap();
    assert_eq!(register.pc, 2);
    assert_eq!(register.v[1], 0b1100);
}

#[test]
fn test_execute_if_overflowing() {
    let instruction: u16 = 0x8124;
    let opcode = Opcode0x8xy4::new(instruction);
    let mut memory = Memory::new();
    let mut register = Register::new();
    register.v[1] = 250;
    register.v[2] = 10;
    let mut graphic = Graphic::new();
    opcode.execute(&mut memory, &mut register, &mut graphic, None).unwrap();
    assert_eq!(register.pc, 0x202);
    assert_eq!(register.v[1], 4);
    assert_eq!(register.v[15], 1);
}

#[test]
fn test_execute_if_not_overflowing() {
    let instruction: u16 = 0x8124;
    let opcode = Opcode0x8xy4::new(instruction);
    let mut memory = Memory::new();
    let mut register = Register::new();
    register.v[1] = 5;
    register.v[2] = 10;
    let mut graphic = Graphic::new();
    opcode.execute(&mut memory, &mut register, &mut graphic, None).unwrap();
    assert_eq!(register.pc, 0x202);
    assert_eq!(register.v[1], 15);
    assert_eq!(register.v[15], 0);
}

#[test]
fn opcode_0x8xy5_test_execute_if_not_borrowing() {
    let instruction: u16 = 0x8125;
    let opcode = Opcode0x8xy5::new(instruction);
    let mut memory = Memory::new();
    let mut register = Register::new();
    register.pc = 0;
    register.v[1] = 250;
    register.v[2] = 10;
    let mut graphic = Graphic::new();
    opcode.execute(&mut memory, &mut register, &mut graphic, None).unwrap();
    assert_eq!(register.pc, 2);
    assert_eq!(register.v[1], 240);
    assert_eq!(register.v[15], 1);
}

#[test]
fn opcode_0x8xy5_test_execute_if_borrowing() {
    let instruction: u16 = 0x8125;
    let opcode = Opcode0x8xy5::new(instruction);
    let mut memory = Memory::new();
    let mut register = Register::new();
    register.pc = 0;
    register.v[1] = 5;
    register.v[2] = 10;
    let mut graphic = Graphic::new();
    opcode.execute(&mut memory, &mut register, &mut graphic, None).unwrap();
    assert_eq!(register.pc, 2);
    assert_eq!(register.v[1], 251);
    assert_eq!(register.v[15], 0);
}

#[test]
fn test_execute_if_least_significant_bit_is_one() {
    let instruction: u16 = 0x8126;
    let opcode = Opcode0x8xy6::new(instruction);
    let mut memory = Memory::new();
    let mut register = Register::new();
    register.pc = 0;
    register.v[1] = 255;
    let mut graphic = Graphic::new();
    opcode.execute(&mut memory, &mut register, &mut graphic, None).unwrap();
    assert_eq!(register.pc, 2);
    assert_eq!(register.v[1], 127);
    assert_eq!(register.v[15], 1);
}

#[test]
fn test_execute_if_least_significant_bit_is_zero() {
    let instruction: u16 = 0x8126;
    let opcode = Opcode0x8xy6::new(instruction);
    let mut memory = Memory::new();
    let mut register = Register::new();
    register.pc = 0;
    register.v[1] = 254;
    let mut graphic = Graphic::new();
    opcode.execute(&mut memory, &mut register, &mut graphic, None).unwrap();
    assert_eq!(register.pc, 2);
    assert_eq!(register.v[1], 127);
    assert_eq!(register.v[15], 0);
}

#[test]
fn opcode_0x8xy7_test_execute_if_not_borrowing() {
    let instruction: u16 = 0x8127;
    let opcode = Opcode0x8xy7::new(instruction);
    let mut memory = Memory::new();
    let mut register = Register::new();
    register.pc = 0;
    register.v[1] = 5;
    register.v[2] = 10;
    let mut graphic = Graphic::new();
    opcode.execute(&mut memory, &mut register, &mut graphic, None).unwrap();
    assert_eq!(register.pc, 2);
    assert_eq!(register.v[1], 5);
    assert_eq!(register.v[15], 1);
}

#[test]
fn opcode_0x8xy7_test_execute_if_borrowing() {
    let instruction: u16 = 0x8127;
    let opcode = Opcode0x8xy7::new(instruction);
    let mut memory = Memory::new();
    let mut register = Register::new();
    register.pc = 0;
    register.v[1] = 15;
    register.v[2] = 10;
    let mut graphic = Graphic::new();
    opcode.execute(&mut memory, &mut register, &mut graphic, None).unwrap();
    assert_eq!(register.pc, 2);
    assert_eq!(register.v[1], 251);
    assert_eq!(register.v[15], 0);
}

#[test]
fn test_execute_if_most_significant_bit_is_one() {
    let instruction: u16 = 0x812e;
    let opcode = Opcode0x8xye::new(instruction);
    let mut memory = Memory::new();
    let mut register = Register::new();
    register.v[1] = 200;
    let mut graphic = Graphic::new();
    opcode.execute(&mut memory, &mut register, &mut graphic, None).unwrap();
    assert_eq!(register.pc, 0x202);
    assert_eq!(register.v[1], 144);
    assert_eq!(register.v[15], 1);
}

#[test]
fn test_execute_if_most_significant_bit_is_zero() {
    let instruction: u16 = 0x812e;
    let opcode = Opcode0x8xye::new(instruction);
    let mut memory = Memory::new();
    let mut register = Register::new();
    register.v[1] = 25;
    let mut graphic = Graphic::new();
    opcode.execute(&mut memory, &mut register, &mut graphic, None).unwrap();
    assert_eq!(register.pc, 0x202);
    assert_eq!(register.v[1], 50);
    assert_eq!(register.v[15], 0);
}

#[test]
fn opcode_0xcxkk_test_execute() {
    let opcode = Opcode0xcxkk { vx: 3, byte: 0x2e, random_byte: 0x13 };
    let mut memory = Memory::new();
    let mut register = Register::new();
    register.pc = 0;
    let mut graphic = Graphic::new();
    opcode.execute(&mut memory, &mut register, &mut graphic, None).unwrap();
    assert_eq!(register.pc, 2);
    assert_eq!(register.v[3], 2);
}
