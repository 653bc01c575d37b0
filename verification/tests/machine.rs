use chip_8::cpu::Cpu;
use chip_8::cpu::Keypad;
use chip_8::cpu::Register;
use chip_8::error::Chip8Error;
use chip_8::graphic::Graphic;
use chip_8::instructions::flow::Opcode0x2nnn;
use chip_8::instructions::flow::Opcode0x00ee;
use chip_8::instructions::index::Opcode0xfx1e;
use chip_8::instructions::key::Opcode0xex9e;
use chip_8::instructions::key::Opcode0xexa1;
use chip_8::instructions::mem::Opcode0xfx33;
use chip_8::instructions::mem::Opcode0xfx55;
use chip_8::instructions::mem::Opcode0xfx65;
use chip_8::instructions::Instruction;
use chip_8::instructions::KeyDemand;
use chip_8::memory::Memory;
use chip_8::memory::FONT_BASE;
use chip_8::memory::FONT_LENGTH;

#[test]
fn new_memory_holds_font_table() {
    let memory = Memory::new();
    assert_eq!(FONT_BASE, 0);
    assert_eq!(FONT_LENGTH, 5);
    // glyph 0 starts with 0xF0, glyph F ends with 0x80
    assert_eq!(memory.all[0], 0xF0);
    assert_eq!(memory.all[4], 0xF0);
    assert_eq!(memory.all[79], 0x80);
    // everything above the font table is zero
    assert_eq!(memory.all[80], 0);
    assert_eq!(memory.all[0x200], 0);
    assert_eq!(memory.all.len(), 4096);
    assert!(memory.stack.is_empty());
}

#[test]
fn load_places_rom_at_0x200() {
    let mut memory = Memory::new();
    let rom = vec![0xAA, 0xBB, 0xCC];
    memory.load(&rom).unwrap();
    assert_eq!(memory.all[0x1FF], 0);
    assert_eq!(memory.all[0x200], 0xAA);
    assert_eq!(memory.all[0x201], 0xBB);
    assert_eq!(memory.all[0x202], 0xCC);
    assert_eq!(memory.all[0x203], 0);
}

#[test]
fn load_rejects_oversized_rom() {
    let mut memory = Memory::new();
    let exact = vec![0x11; 4096 - 0x200];
    assert_eq!(memory.load(&exact), Ok(()));
    let mut memory = Memory::new();
    let oversized = vec![0x11; 4096 - 0x200 + 1];
    assert_eq!(memory.load(&oversized), Err(Chip8Error::RomTooLarge));
    assert_eq!(memory.all[0x200], 0);
}

#[test]
fn read_fetches_two_bytes_big_endian() {
    let mut memory = Memory::new();
    memory.all[0x200] = 0xAB;
    memory.all[0x201] = 0xCD;
    assert_eq!(memory.read(0x200), Ok([0xAB, 0xCD]));
    assert_eq!(memory.read(4095), Err(Chip8Error::PcOutOfBounds));
}

#[test]
fn decode_rejects_unknown_opcodes() {
    assert_eq!(Instruction::decode([0x80, 0x08]).err(), Some(Chip8Error::UnknownOpcode));
    assert_eq!(Instruction::decode([0xE1, 0x00]).err(), Some(Chip8Error::UnknownOpcode));
    assert_eq!(Instruction::decode([0xF1, 0x99]).err(), Some(Chip8Error::UnknownOpcode));
    assert!(Instruction::decode([0x00, 0xE0]).is_ok());
    assert!(Instruction::decode([0x81, 0x2E]).is_ok());
    assert!(Instruction::decode([0xF5, 0x65]).is_ok());
}

#[test]
fn return_from_empty_stack_is_fatal() {
    let opcode = Opcode0x00ee::new();
    let mut memory = Memory::new();
    let mut register = Register::new();
    let mut graphic = Graphic::new();
    let result = opcode.execute(&mut memory, &mut register, &mut graphic, None);
    assert_eq!(result, Err(Chip8Error::StackUnderflow));
    assert_eq!(register.pc, 0x200);
}

#[test]
fn seventeenth_call_is_fatal() {
    let opcode = Opcode0x2nnn::new(0x2300);
    let mut memory = Memory::new();
    for _ in 0..16 {
        memory.stack.push(0x200);
    }
    let mut register = Register::new();
    let mut graphic = Graphic::new();
    let result = opcode.execute(&mut memory, &mut register, &mut graphic, None);
    assert_eq!(result, Err(Chip8Error::StackOverflow));
    assert_eq!(memory.stack.len(), 16);
    assert_eq!(register.pc, 0x200);
}

#[test]
fn index_overflow_is_fatal() {
    let opcode = Opcode0xfx1e::new(0xf51e);
    let mut memory = Memory::new();
    let mut register = Register::new();
    register.i = 0xFFFF;
    register.v[5] = 1;
    let mut graphic = Graphic::new();
    let result = opcode.execute(&mut memory, &mut register, &mut graphic, None);
    assert_eq!(result, Err(Chip8Error::IndexOverflow));
    assert_eq!(register.i, 0xFFFF);
    assert_eq!(register.pc, 0x200);
}

#[test]
fn store_past_end_of_memory_is_fatal() {
    let opcode = Opcode0xfx33::new(0xf533);
    let mut memory = Memory::new();
    let mut register = Register::new();
    register.i = 4094;
    register.v[5] = 123;
    let mut graphic = Graphic::new();
    let result = opcode.execute(&mut memory, &mut register, &mut graphic, None);
    assert_eq!(result, Err(Chip8Error::AddressOutOfBounds));
    assert_eq!(register.pc, 0x200);
}

#[test]
fn pc_overflow_is_fatal_and_changes_nothing() {
    let opcode = Opcode0xfx33::new(0xf533);
    let mut memory = Memory::new();
    let mut register = Register::new();
    register.pc = 0xFFFF;
    register.i = 0x300;
    register.v[5] = 123;
    let mut graphic = Graphic::new();
    let result = opcode.execute(&mut memory, &mut register, &mut graphic, None);
    assert_eq!(result, Err(Chip8Error::PcOverflow));
    assert_eq!(register.pc, 0xFFFF);
    assert_eq!(memory.all[0x300], 0);
}

#[test]
fn keypad_maps_the_sixteen_keys() {
    let keypad = Keypad::new();
    assert_eq!(keypad.press('1'), Some(0x1));
    assert_eq!(keypad.press('2'), Some(0x2));
    assert_eq!(keypad.press('3'), Some(0x3));
    assert_eq!(keypad.press('4'), Some(0xc));
    assert_eq!(keypad.press('q'), Some(0x4));
    assert_eq!(keypad.press('w'), Some(0x5));
    assert_eq!(keypad.press('e'), Some(0x6));
    assert_eq!(keypad.press('r'), Some(0xd));
    assert_eq!(keypad.press('a'), Some(0x7));
    assert_eq!(keypad.press('s'), Some(0x8));
    assert_eq!(keypad.press('d'), Some(0x9));
    assert_eq!(keypad.press('f'), Some(0xe));
    assert_eq!(keypad.press('z'), Some(0xa));
    assert_eq!(keypad.press('x'), Some(0x0));
    assert_eq!(keypad.press('c'), Some(0xb));
    assert_eq!(keypad.press('v'), Some(0xf));
    assert_eq!(keypad.press('p'), None);
    assert_eq!(keypad.press('!'), None);
}

#[test]
fn timers_decrement_toward_zero() {
    let mut register = Register::new();
    register.delay_timer = 2;
    register.sound_timer = 0;
    register.tick_timers();
    assert_eq!(register.delay_timer, 1);
    assert_eq!(register.sound_timer, 0);
    register.tick_timers();
    assert_eq!(register.delay_timer, 0);
    register.tick_timers();
    assert_eq!(register.delay_timer, 0);
    assert_eq!(register.sound_timer, 0);
}

#[test]
fn snapshot_is_an_independent_copy() {
    let mut graphic = Graphic::new();
    graphic.set_sprite(0, 0, &[0x80]);
    let snapshot = graphic.snapshot();
    assert_eq!(snapshot[0], 1);
    graphic.clear();
    assert_eq!(snapshot[0], 1);
    assert_eq!(graphic.gfx[0], 0);
}

#[test]
fn double_draw_restores_the_screen() {
    let mut graphic = Graphic::new();
    let sprite = [0xF0, 0x90];
    let first = graphic.set_sprite(5, 5, &sprite);
    assert!(!first);
    assert_eq!(graphic.gfx[5 * 64 + 5], 1);
    let second = graphic.set_sprite(5, 5, &sprite);
    assert!(second);
    for p in 0..2048 {
        assert_eq!(graphic.gfx[p], 0);
    }
}

#[test]
fn sprite_wraps_at_the_right_edge() {
    let mut graphic = Graphic::new();
    graphic.set_sprite(60, 0, &[0xFF]);
    // columns 0-3 of the sprite land on screen columns 60-63
    for col in 60..64 {
        assert_eq!(graphic.gfx[col], 1);
    }
    // columns 4-7 wrap to screen columns 0-3
    for col in 0..4 {
        assert_eq!(graphic.gfx[col], 1);
    }
    assert_eq!(graphic.gfx[4], 0);
    assert_eq!(graphic.gfx[59], 0);
}

#[test]
fn sprite_wraps_at_the_bottom_edge() {
    let mut graphic = Graphic::new();
    graphic.set_sprite(0, 30, &[0x80, 0x80, 0x80, 0x80]);
    assert_eq!(graphic.gfx[30 * 64], 1);
    assert_eq!(graphic.gfx[31 * 64], 1);
    // rows 2 and 3 wrap to screen rows 0 and 1
    assert_eq!(graphic.gfx[0], 1);
    assert_eq!(graphic.gfx[64], 1);
    assert_eq!(graphic.gfx[2 * 64], 0);
}

#[test]
fn call_then_return_restores_pc_and_stack() {
    let mut memory = Memory::new();
    // at 0x204: call the subroutine at 0x300; at 0x300: return
    memory.all[0x204] = 0x23;
    memory.all[0x205] = 0x00;
    memory.all[0x300] = 0x00;
    memory.all[0x301] = 0xEE;
    let mut register = Register::new();
    register.pc = 0x204;
    let graphic = Graphic::new();
    let mut cpu = Cpu::new(memory, register, graphic);

    cpu.step(None).unwrap();
    assert_eq!(cpu.register.pc, 0x300);
    assert_eq!(cpu.memory.stack.len(), 1);
    assert_eq!(cpu.memory.stack[0], 0x206);

    cpu.step(None).unwrap();
    assert_eq!(cpu.register.pc, 0x206);
    assert_eq!(cpu.memory.stack.len(), 0);
}

#[test]
fn store_then_load_round_trips_registers() {
    let store = Opcode0xfx55::new(0xf555);
    let load = Opcode0xfx65::new(0xf565);
    let mut memory = Memory::new();
    let mut register = Register::new();
    let mut graphic = Graphic::new();
    register.i = 0x300;
    let original = [7, 11, 13, 17, 19, 23];
    for (k, value) in original.iter().enumerate() {
        register.v[k] = *value;
    }

    store.execute(&mut memory, &mut register, &mut graphic, None).unwrap();
    assert_eq!(register.i, 0x306);

    // scramble the registers, point I back at the block, and load
    for k in 0..6 {
        register.v[k] = 0xEE;
    }
    register.i = 0x300;
    load.execute(&mut memory, &mut register, &mut graphic, None).unwrap();
    assert_eq!(register.i, 0x306);
    for (k, value) in original.iter().enumerate() {
        assert_eq!(register.v[k], *value);
    }
}

#[test]
fn skip_opcodes_with_no_pending_event() {
    // EX9E with an empty queue takes the not-pressed branch: advance by 2
    let pressed = Opcode0xex9e::new(0xe59e);
    let mut memory = Memory::new();
    let mut register = Register::new();
    let mut graphic = Graphic::new();
    pressed.execute(&mut memory, &mut register, &mut graphic, None).unwrap();
    assert_eq!(register.pc, 0x202);

    // EXA1 with an empty queue counts as not pressed: advance by 4
    let not_pressed = Opcode0xexa1::new(0xe5a1);
    let mut register = Register::new();
    not_pressed.execute(&mut memory, &mut register, &mut graphic, None).unwrap();
    assert_eq!(register.pc, 0x204);
}

#[test]
fn key_demand_classifies_the_instruction_at_pc() {
    let mut memory = Memory::new();
    memory.all[0x200] = 0x61; // 0x6123: no key involved
    memory.all[0x201] = 0x23;
    memory.all[0x202] = 0xE5; // 0xE59E: non-blocking poll
    memory.all[0x203] = 0x9E;
    memory.all[0x204] = 0xF5; // 0xF50A: blocking wait
    memory.all[0x205] = 0x0A;
    memory.all[0x206] = 0xFF; // 0xFFFF: unrecognized
    memory.all[0x207] = 0xFF;
    let register = Register::new();
    let graphic = Graphic::new();
    let mut cpu = Cpu::new(memory, register, graphic);

    assert_eq!(cpu.key_demand(), Ok(KeyDemand::NoKey));
    cpu.register.pc = 0x202;
    assert_eq!(cpu.key_demand(), Ok(KeyDemand::Poll));
    cpu.register.pc = 0x204;
    assert_eq!(cpu.key_demand(), Ok(KeyDemand::Block));
    cpu.register.pc = 0x206;
    assert_eq!(cpu.key_demand(), Err(Chip8Error::UnknownOpcode));
    cpu.register.pc = 4095;
    assert_eq!(cpu.key_demand(), Err(Chip8Error::PcOutOfBounds));
}

#[test]
fn masked_random_byte_lands_in_vx() {
    // with mask 0x00 the drawn byte is irrelevant: Vx must become 0
    let instruction = Instruction::decode([0xC3, 0x00]).unwrap();
    let mut memory = Memory::new();
    let mut register = Register::new();
    register.v[3] = 0x55;
    let mut graphic = Graphic::new();
    instruction.execute(&mut memory, &mut register, &mut graphic, None).unwrap();
    assert_eq!(register.v[3], 0);
    assert_eq!(register.pc, 0x202);
}

#[test]
fn step_runs_a_small_program() {
    let mut memory = Memory::new();
    let rom = vec![
        0x6A, 0x02, // V10 = 2
        0x7A, 0x03, // V10 += 3
        0xAB, 0xCD, // I = 0xBCD
        0x12, 0x00, // jump back to 0x200
    ];
    memory.load(&rom).unwrap();
    let register = Register::new();
    let graphic = Graphic::new();
    let mut cpu = Cpu::new(memory, register, graphic);

    cpu.step(None).unwrap();
    assert_eq!(cpu.register.v[10], 2);
    assert_eq!(cpu.register.pc, 0x202);
    cpu.step(None).unwrap();
    assert_eq!(cpu.register.v[10], 5);
    cpu.step(None).unwrap();
    assert_eq!(cpu.register.i, 0xBCD);
    cpu.step(None).unwrap();
    assert_eq!(cpu.register.pc, 0x200);
}

#[test]
fn bcd_digits_of_255() {
    let opcode = Opcode0xfx33::new(0xf233);
    let mut memory = Memory::new();
    let mut register = Register::new();
    register.i = 0x400;
    register.v[2] = 255;
    let mut graphic = Graphic::new();
    opcode.execute(&mut memory, &mut register, &mut graphic, None).unwrap();
    assert_eq!(memory.all[0x400], 2);
    assert_eq!(memory.all[0x401], 5);
    assert_eq!(memory.all[0x402], 5);
}
