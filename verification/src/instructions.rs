use vstd::prelude::*;

use crate::cpu::Register;
use crate::error::Chip8Error;
use crate::graphic::blit;
use crate::graphic::blit_collision;
use crate::graphic::Graphic;
use crate::graphic::SCREEN_PIXELS;
use crate::memory::Memory;
use crate::memory::FONT_BASE;
use crate::memory::FONT_LENGTH;
use crate::memory::MEMORY_SIZE;
use crate::memory::STACK_LIMIT;

pub mod alu;
pub mod draw;
pub mod flow;
pub mod mem;
pub mod index;
pub mod key;
pub mod skip;
pub mod timer;

verus! {

/// The 16-bit instruction word held by two fetched bytes, high byte first.
pub open spec fn word_of(b0: u8, b1: u8) -> u16 {
    ((b0 as u16) << 8u16) | (b1 as u16)
}

/// Operand `x`: bits 8-11 of the instruction word, a register index.
pub open spec fn op_x(instruction: u16) -> usize {
    (((instruction & 0x0F00) >> 8u16) as usize)
}

/// Operand `y`: bits 4-7 of the instruction word, a register index.
pub open spec fn op_y(instruction: u16) -> usize {
    (((instruction & 0x00F0) >> 4u16) as usize)
}

/// Operand `kk`: bits 0-7 of the instruction word, an immediate byte.
pub open spec fn op_kk(instruction: u16) -> u8 {
    ((instruction & 0x00FF) as u8)
}

/// Operand `nnn`: bits 0-11 of the instruction word, an address.
pub open spec fn op_nnn(instruction: u16) -> u16 {
    instruction & 0x0FFF
}

/// Operand `n`: bits 0-3 of the instruction word, a nibble count.
pub open spec fn op_n(instruction: u16) -> u8 {
    ((instruction & 0x000F) as u8)
}

/// Ranges of the operand fields of an instruction word.
pub proof fn lemma_operand_bounds(instruction: u16)
    by (bit_vector)
    ensures
        ((instruction & 0x0F00) >> 8u16) < 16,
        ((instruction & 0x00F0) >> 4u16) < 16,
        (instruction & 0x00FF) < 0x100,
        (instruction & 0x0FFF) < 0x1000,
        (instruction & 0x000F) < 16,
{
}

/// True when `b` keeps the index register and both timers of `a`.
pub open spec fn keeps_i_and_timers(a: Register, b: Register) -> bool {
    &&& b.i == a.i
    &&& b.delay_timer == a.delay_timer
    &&& b.sound_timer == a.sound_timer
}

/// One decoded instruction: a closed sum over the whole instruction set, so
/// that dispatch is exhaustive and an unsupported opcode can only be
/// rejected by the decoder, never slip through it.
pub enum Instruction {
    Sys(flow::Opcode0x0nnn),
    Clear(draw::Opcode0x00e0),
    Return(flow::Opcode0x00ee),
    Jump(flow::Opcode0x1nnn),
    Call(flow::Opcode0x2nnn),
    SkipEqImm(skip::Opcode0x3xkk),
    SkipNeImm(skip::Opcode0x4xkk),
    SkipEqReg(skip::Opcode0x5xy0),
    LoadImm(alu::Opcode0x6xkk),
    AddImm(alu::Opcode0x7xkk),
    Copy(alu::Opcode0x8xy0),
    Or(alu::Opcode0x8xy1),
    And(alu::Opcode0x8xy2),
    Xor(alu::Opcode0x8xy3),
    AddReg(alu::Opcode0x8xy4),
    SubReg(alu::Opcode0x8xy5),
    ShiftRight(alu::Opcode0x8xy6),
    SubFrom(alu::Opcode0x8xy7),
    ShiftLeft(alu::Opcode0x8xye),
    SkipNeReg(skip::Opcode0x9xy0),
    LoadIndex(index::Opcode0xannn),
    JumpV0(flow::Opcode0xbnnn),
    Random(alu::Opcode0xcxkk),
    Draw(draw::Opcode0xdxyn),
    SkipKeyPressed(key::Opcode0xex9e),
    SkipKeyNotPressed(key::Opcode0xexa1),
    ReadDelay(timer::Opcode0xfx07),
    WaitKey(key::Opcode0xfx0a),
    SetDelay(timer::Opcode0xfx15),
    SetSound(timer::Opcode0xfx18),
    AddIndex(index::Opcode0xfx1e),
    FontAddress(index::Opcode0xfx29),
    StoreDigits(mem::Opcode0xfx33),
    StoreRegs(mem::Opcode0xfx55),
    LoadRegs(mem::Opcode0xfx65),
}

/// What an instruction wants from the keyboard before it executes: nothing,
/// a non-blocking poll of the event queue, or a blocking wait for the next
/// event. Only 0xFX0A may suspend the whole execution loop.
#[derive(Clone, Copy, Debug, PartialEq, Eq, Structural)]
pub enum KeyDemand {
    NoKey,
    Poll,
    Block,
}

/// True when the two fetched bytes match some opcode pattern. Three
/// operators need a secondary dispatch: 0x8 on the low nibble, 0xE and 0xF
/// on the low byte.
pub open spec fn recognized(op: u16) -> bool {
    let operator = op >> 12u16;
    if operator == 0x8 {
        let sub = op & 0x000F;
        ||| sub == 0x0
        ||| sub == 0x1
        ||| sub == 0x2
        ||| sub == 0x3
        ||| sub == 0x4
        ||| sub == 0x5
        ||| sub == 0x6
        ||| sub == 0x7
        ||| sub == 0xe
    } else if operator == 0xe {
        let sub = op & 0x00FF;
        sub == 0x9e || sub == 0xa1
    } else if operator == 0xf {
        let sub = op & 0x00FF;
        ||| sub == 0x07
        ||| sub == 0x0a
        ||| sub == 0x15
        ||| sub == 0x18
        ||| sub == 0x1e
        ||| sub == 0x29
        ||| sub == 0x33
        ||| sub == 0x55
        ||| sub == 0x65
    } else {
        true
    }
}

/// The opcode table as a relation: `instr` is a correct decoding of the
/// instruction word `op`. Every operand field is pinned by the word; only
/// the drawn byte of 0xCXKK is free, since decoding draws it fresh.
pub open spec fn decodes_to(op: u16, instr: Instruction) -> bool {
    match instr {
        Instruction::Sys(_) => op >> 12u16 == 0x0 && op != 0x00E0 && op != 0x00EE,
        Instruction::Clear(_) => op == 0x00E0,
        Instruction::Return(_) => op == 0x00EE,
        Instruction::Jump(o) => op >> 12u16 == 0x1 && o.address == op_nnn(op),
        Instruction::Call(o) => op >> 12u16 == 0x2 && o.address == op_nnn(op),
        Instruction::SkipEqImm(o) => op >> 12u16 == 0x3 && o.vx == op_x(op) && o.byte == op_kk(
            op,
        ),
        Instruction::SkipNeImm(o) => op >> 12u16 == 0x4 && o.vx == op_x(op) && o.byte == op_kk(
            op,
        ),
        Instruction::SkipEqReg(o) => op >> 12u16 == 0x5 && o.vx == op_x(op) && o.vy == op_y(op),
        Instruction::LoadImm(o) => op >> 12u16 == 0x6 && o.vx == op_x(op) && o.byte == op_kk(op),
        Instruction::AddImm(o) => op >> 12u16 == 0x7 && o.vx == op_x(op) && o.byte == op_kk(op),
        Instruction::Copy(o) => op >> 12u16 == 0x8 && op & 0x000F == 0x0 && o.vx == op_x(op)
            && o.vy == op_y(op),
        Instruction::Or(o) => op >> 12u16 == 0x8 && op & 0x000F == 0x1 && o.vx == op_x(op)
            && o.vy == op_y(op),
        Instruction::And(o) => op >> 12u16 == 0x8 && op & 0x000F == 0x2 && o.vx == op_x(op)
            && o.vy == op_y(op),
        Instruction::Xor(o) => op >> 12u16 == 0x8 && op & 0x000F == 0x3 && o.vx == op_x(op)
            && o.vy == op_y(op),
        Instruction::AddReg(o) => op >> 12u16 == 0x8 && op & 0x000F == 0x4 && o.vx == op_x(op)
            && o.vy == op_y(op),
        Instruction::SubReg(o) => op >> 12u16 == 0x8 && op & 0x000F == 0x5 && o.vx == op_x(op)
            && o.vy == op_y(op),
        Instruction::ShiftRight(o) => op >> 12u16 == 0x8 && op & 0x000F == 0x6 && o.vx == op_x(
            op,
        ),
        Instruction::SubFrom(o) => op >> 12u16 == 0x8 && op & 0x000F == 0x7 && o.vx == op_x(op)
            && o.vy == op_y(op),
        Instruction::ShiftLeft(o) => op >> 12u16 == 0x8 && op & 0x000F == 0xe && o.vx == op_x(
            op,
        ),
        Instruction::SkipNeReg(o) => op >> 12u16 == 0x9 && o.vx == op_x(op) && o.vy == op_y(op),
        Instruction::LoadIndex(o) => op >> 12u16 == 0xa && o.address == op_nnn(op),
        Instruction::JumpV0(o) => op >> 12u16 == 0xb && o.address == op_nnn(op),
        Instruction::Random(o) => op >> 12u16 == 0xc && o.vx == op_x(op) && o.byte == op_kk(op),
        Instruction::Draw(o) => op >> 12u16 == 0xd && o.vx == op_x(op) && o.vy == op_y(op)
            && o.nibble == op_n(op),
        Instruction::SkipKeyPressed(o) => op >> 12u16 == 0xe && op & 0x00FF == 0x9e && o.vx
            == op_x(op),
        Instruction::SkipKeyNotPressed(o) => op >> 12u16 == 0xe && op & 0x00FF == 0xa1 && o.vx
            == op_x(op),
        Instruction::ReadDelay(o) => op >> 12u16 == 0xf && op & 0x00FF == 0x07 && o.vx == op_x(
            op,
        ),
        Instruction::WaitKey(o) => op >> 12u16 == 0xf && op & 0x00FF == 0x0a && o.vx == op_x(op),
        Instruction::SetDelay(o) => op >> 12u16 == 0xf && op & 0x00FF == 0x15 && o.vx == op_x(
            op,
        ),
        Instruction::SetSound(o) => op >> 12u16 == 0xf && op & 0x00FF == 0x18 && o.vx == op_x(
            op,
        ),
        Instruction::AddIndex(o) => op >> 12u16 == 0xf && op & 0x00FF == 0x1e && o.vx == op_x(
            op,
        ),
        Instruction::FontAddress(o) => op >> 12u16 == 0xf && op & 0x00FF == 0x29 && o.vx == op_x(
            op,
        ),
        Instruction::StoreDigits(o) => op >> 12u16 == 0xf && op & 0x00FF == 0x33 && o.vx == op_x(
            op,
        ),
        Instruction::StoreRegs(o) => op >> 12u16 == 0xf && op & 0x00FF == 0x55 && o.vx == op_x(
            op,
        ),
        Instruction::LoadRegs(o) => op >> 12u16 == 0xf && op & 0x00FF == 0x65 && o.vx == op_x(
            op,
        ),
    }
}

impl Instruction {
    /// Every register index carried by the instruction is below 16 and every
    /// address below 0x1000.
    pub open spec fn wf(self) -> bool {
        match self {
            Instruction::Sys(_) => true,
            Instruction::Clear(_) => true,
            Instruction::Return(_) => true,
            Instruction::Jump(o) => o.address < 0x1000,
            Instruction::Call(o) => o.address < 0x1000,
            Instruction::SkipEqImm(o) => o.wf(),
            Instruction::SkipNeImm(o) => o.wf(),
            Instruction::SkipEqReg(o) => o.wf(),
            Instruction::LoadImm(o) => o.wf(),
            Instruction::AddImm(o) => o.wf(),
            Instruction::Copy(o) => o.wf(),
            Instruction::Or(o) => o.wf(),
            Instruction::And(o) => o.wf(),
            Instruction::Xor(o) => o.wf(),
            Instruction::AddReg(o) => o.wf(),
            Instruction::SubReg(o) => o.wf(),
            Instruction::ShiftRight(o) => o.wf(),
            Instruction::SubFrom(o) => o.wf(),
            Instruction::ShiftLeft(o) => o.wf(),
            Instruction::SkipNeReg(o) => o.wf(),
            Instruction::LoadIndex(o) => o.address < 0x1000,
            Instruction::JumpV0(o) => o.address < 0x1000,
            Instruction::Random(o) => o.wf(),
            Instruction::Draw(o) => o.wf(),
            Instruction::SkipKeyPressed(o) => o.wf(),
            Instruction::SkipKeyNotPressed(o) => o.wf(),
            Instruction::ReadDelay(o) => o.wf(),
            Instruction::WaitKey(o) => o.wf(),
            Instruction::SetDelay(o) => o.wf(),
            Instruction::SetSound(o) => o.wf(),
            Instruction::AddIndex(o) => o.wf(),
            Instruction::FontAddress(o) => o.wf(),
            Instruction::StoreDigits(o) => o.wf(),
            Instruction::StoreRegs(o) => o.wf(),
            Instruction::LoadRegs(o) => o.wf(),
        }
    }

    /// True of the instructions that redirect the program counter rather
    /// than stepping it: jumps, calls and returns.
    pub open spec fn is_jump(self) -> bool {
        match self {
            Instruction::Jump(_) => true,
            Instruction::Call(_) => true,
            Instruction::Return(_) => true,
            Instruction::JumpV0(_) => true,
            _ => false,
        }
    }

    /// True of the instructions that conditionally skip the next one.
    pub open spec fn is_skip(self) -> bool {
        match self {
            Instruction::SkipEqImm(_) => true,
            Instruction::SkipNeImm(_) => true,
            Instruction::SkipEqReg(_) => true,
            Instruction::SkipNeReg(_) => true,
            Instruction::SkipKeyPressed(_) => true,
            Instruction::SkipKeyNotPressed(_) => true,
            _ => false,
        }
    }

    /// The fatal conditions of the error taxonomy, per instruction: stack
    /// overflow and underflow, program counter overflow, index overflow,
    /// and memory accesses beyond address 4095. Executing in a state where
    /// this holds reports the error and changes nothing.
    pub open spec fn fault(self, memory: Memory, register: Register, key: Option<u8>) -> bool {
        match self {
            Instruction::Jump(_) => false,
            Instruction::JumpV0(_) => false,
            Instruction::Return(_) => memory.stack@.len() == 0,
            Instruction::Call(_) => memory.stack@.len() >= STACK_LIMIT || register.pc + 2
                > u16::MAX,
            Instruction::SkipEqImm(o) => register.pc + (
            if register.v@[o.vx as int] == o.byte {
                4int
            } else {
                2int
            }) > u16::MAX,
            Instruction::SkipNeImm(o) => register.pc + (
            if register.v@[o.vx as int] != o.byte {
                4int
            } else {
                2int
            }) > u16::MAX,
            Instruction::SkipEqReg(o) => register.pc + (
            if register.v@[o.vx as int] == register.v@[o.vy as int] {
                4int
            } else {
                2int
            }) > u16::MAX,
            Instruction::SkipNeReg(o) => register.pc + (
            if register.v@[o.vx as int] != register.v@[o.vy as int] {
                4int
            } else {
                2int
            }) > u16::MAX,
            Instruction::SkipKeyPressed(o) => register.pc + (
            if key == Some(register.v@[o.vx as int]) {
                4int
            } else {
                2int
            }) > u16::MAX,
            Instruction::SkipKeyNotPressed(o) => register.pc + (
            if key == Some(register.v@[o.vx as int]) {
                2int
            } else {
                4int
            }) > u16::MAX,
            Instruction::AddIndex(o) => register.i + register.v@[o.vx as int] > u16::MAX
                || register.pc + 2 > u16::MAX,
            Instruction::StoreDigits(_) => register.i + 2 >= MEMORY_SIZE || register.pc + 2
                > u16::MAX,
            Instruction::StoreRegs(o) => register.i + o.vx + 1 > MEMORY_SIZE || register.pc + 2
                > u16::MAX,
            Instruction::LoadRegs(o) => register.i + o.vx + 1 > MEMORY_SIZE || register.pc + 2
                > u16::MAX,
            Instruction::Draw(o) => register.i + o.nibble > MEMORY_SIZE || register.pc + 2
                > u16::MAX,
            _ => register.pc + 2 > u16::MAX,
        }
    }

    /// The successful transition of each instruction: how the machine state
    /// after execution relates to the state before it, whenever `fault`
    /// does not hold. Every operand comes from the instruction's own
    /// fields, so for 0xCXKK the relation speaks of the byte the
    /// instruction holds.
    pub open spec fn executes_to(
        self,
        m0: Memory,
        r0: Register,
        g0: Graphic,
        key: Option<u8>,
        m1: Memory,
        r1: Register,
        g1: Graphic,
    ) -> bool {
        match self {
            Instruction::Sys(_) => {
                &&& m1 == m0
                &&& g1 == g0
                &&& r1 == (Register { pc: (r0.pc + 2) as u16, ..r0 })
            },
            Instruction::Clear(_) => {
                &&& m1 == m0
                &&& g1.gfx@.len() == SCREEN_PIXELS
                &&& forall|p: int| 0 <= p < SCREEN_PIXELS ==> g1.gfx@[p] == 0
                &&& r1 == (Register { pc: (r0.pc + 2) as u16, ..r0 })
            },
            Instruction::Return(_) => {
                &&& g1 == g0
                &&& m1.all@ == m0.all@
                &&& m1.stack@ == m0.stack@.drop_last()
                &&& r1 == (Register { pc: m0.stack@.last(), ..r0 })
            },
            Instruction::Jump(o) => {
                &&& m1 == m0
                &&& g1 == g0
                &&& r1 == (Register { pc: o.address, ..r0 })
            },
            Instruction::Call(o) => {
                &&& g1 == g0
                &&& m1.all@ == m0.all@
                &&& m1.stack@ == m0.stack@.push((r0.pc + 2) as u16)
                &&& r1 == (Register { pc: o.address, ..r0 })
            },
            Instruction::SkipEqImm(o) => {
                &&& m1 == m0
                &&& g1 == g0
                &&& r1 == (Register {
                    pc: (r0.pc + (if r0.v@[o.vx as int] == o.byte {
                        4int
                    } else {
                        2int
                    })) as u16,
                    ..r0
                })
            },
            Instruction::SkipNeImm(o) => {
                &&& m1 == m0
                &&& g1 == g0
                &&& r1 == (Register {
                    pc: (r0.pc + (if r0.v@[o.vx as int] != o.byte {
                        4int
                    } else {
                        2int
                    })) as u16,
                    ..r0
                })
            },
            Instruction::SkipEqReg(o) => {
                &&& m1 == m0
                &&& g1 == g0
                &&& r1 == (Register {
                    pc: (r0.pc + (if r0.v@[o.vx as int] == r0.v@[o.vy as int] {
                        4int
                    } else {
                        2int
                    })) as u16,
                    ..r0
                })
            },
            Instruction::SkipNeReg(o) => {
                &&& m1 == m0
                &&& g1 == g0
                &&& r1 == (Register {
                    pc: (r0.pc + (if r0.v@[o.vx as int] != r0.v@[o.vy as int] {
                        4int
                    } else {
                        2int
                    })) as u16,
                    ..r0
                })
            },
            Instruction::LoadImm(o) => {
                &&& m1 == m0
                &&& g1 == g0
                &&& r1.pc == r0.pc + 2
                &&& r1.v@ == r0.v@.update(o.vx as int, o.byte)
                &&& keeps_i_and_timers(r0, r1)
            },
            Instruction::AddImm(o) => {
                &&& m1 == m0
                &&& g1 == g0
                &&& r1.pc == r0.pc + 2
                &&& r1.v@ == r0.v@.update(
                    o.vx as int,
                    (((r0.v@[o.vx as int] + o.byte) % 256) as u8),
                )
                &&& keeps_i_and_timers(r0, r1)
            },
            Instruction::Copy(o) => {
                &&& m1 == m0
                &&& g1 == g0
                &&& r1.pc == r0.pc + 2
                &&& r1.v@ == r0.v@.update(o.vx as int, r0.v@[o.vy as int])
                &&& keeps_i_and_timers(r0, r1)
            },
            Instruction::Or(o) => {
                &&& m1 == m0
                &&& g1 == g0
                &&& r1.pc == r0.pc + 2
                &&& r1.v@ == r0.v@.update(
                    o.vx as int,
                    r0.v@[o.vx as int] | r0.v@[o.vy as int],
                )
                &&& keeps_i_and_timers(r0, r1)
            },
            Instruction::And(o) => {
                &&& m1 == m0
                &&& g1 == g0
                &&& r1.pc == r0.pc + 2
                &&& r1.v@ == r0.v@.update(
                    o.vx as int,
                    r0.v@[o.vx as int] & r0.v@[o.vy as int],
                )
                &&& keeps_i_and_timers(r0, r1)
            },
            Instruction::Xor(o) => {
                &&& m1 == m0
                &&& g1 == g0
                &&& r1.pc == r0.pc + 2
                &&& r1.v@ == r0.v@.update(
                    o.vx as int,
                    r0.v@[o.vx as int] ^ r0.v@[o.vy as int],
                )
                &&& keeps_i_and_timers(r0, r1)
            },
            Instruction::AddReg(o) => {
                let sum = r0.v@[o.vx as int] + r0.v@[o.vy as int];
                let flag: u8 = if sum > 255 {
                    1u8
                } else {
                    0u8
                };
                &&& m1 == m0
                &&& g1 == g0
                &&& r1.pc == r0.pc + 2
                &&& r1.v@ == r0.v@.update(o.vx as int, ((sum % 256) as u8)).update(15, flag)
                &&& keeps_i_and_timers(r0, r1)
            },
            Instruction::SubReg(o) => {
                let diff = r0.v@[o.vx as int] - r0.v@[o.vy as int];
                let flag: u8 = if diff >= 0 {
                    1u8
                } else {
                    0u8
                };
                &&& m1 == m0
                &&& g1 == g0
                &&& r1.pc == r0.pc + 2
                &&& r1.v@ == r0.v@.update(o.vx as int, ((diff % 256) as u8)).update(15, flag)
                &&& keeps_i_and_timers(r0, r1)
            },
            Instruction::ShiftRight(o) => {
                let flag = r0.v@[o.vx as int] & 1;
                let with_flag = r0.v@.update(15, flag);
                &&& m1 == m0
                &&& g1 == g0
                &&& r1.pc == r0.pc + 2
                &&& r1.v@ == with_flag.update(o.vx as int, with_flag[o.vx as int] >> 1u8)
                &&& keeps_i_and_timers(r0, r1)
            },
            Instruction::SubFrom(o) => {
                let diff = r0.v@[o.vy as int] - r0.v@[o.vx as int];
                let flag: u8 = if diff >= 0 {
                    1u8
                } else {
                    0u8
                };
                &&& m1 == m0
                &&& g1 == g0
                &&& r1.pc == r0.pc + 2
                &&& r1.v@ == r0.v@.update(o.vx as int, ((diff % 256) as u8)).update(15, flag)
                &&& keeps_i_and_timers(r0, r1)
            },
            Instruction::ShiftLeft(o) => {
                let flag = (r0.v@[o.vx as int] & 0x80) >> 7u8;
                let with_flag = r0.v@.update(15, flag);
                &&& m1 == m0
                &&& g1 == g0
                &&& r1.pc == r0.pc + 2
                &&& r1.v@ == with_flag.update(o.vx as int, with_flag[o.vx as int] << 1u8)
                &&& keeps_i_and_timers(r0, r1)
            },
            Instruction::LoadIndex(o) => {
                &&& m1 == m0
                &&& g1 == g0
                &&& r1 == (Register { pc: (r0.pc + 2) as u16, i: o.address, ..r0 })
            },
            Instruction::JumpV0(o) => {
                &&& m1 == m0
                &&& g1 == g0
                &&& r1 == (Register { pc: (o.address + r0.v@[0]) as u16, ..r0 })
            },
            Instruction::Random(o) => {
                &&& m1 == m0
                &&& g1 == g0
                &&& r1.pc == r0.pc + 2
                &&& r1.v@ == r0.v@.update(o.vx as int, o.random_byte & o.byte)
                &&& keeps_i_and_timers(r0, r1)
            },
            Instruction::Draw(o) => {
                let at = r0.i as int;
                let sprite = m0.all@.subrange(at, at + o.nibble);
                let x = r0.v@[o.vx as int] as int;
                let y = r0.v@[o.vy as int] as int;
                let collision = blit_collision(g0.gfx@, x, y, sprite);
                &&& m1 == m0
                &&& g1.gfx@ == blit(g0.gfx@, x, y, sprite)
                &&& r1.pc == r0.pc + 2
                &&& r1.v@ == r0.v@.update(
                    15,
                    if collision {
                        1u8
                    } else {
                        0u8
                    },
                )
                &&& keeps_i_and_timers(r0, r1)
            },
            Instruction::SkipKeyPressed(o) => {
                &&& m1 == m0
                &&& g1 == g0
                &&& r1 == (Register {
                    pc: (r0.pc + (if key == Some(r0.v@[o.vx as int]) {
                        4int
                    } else {
                        2int
                    })) as u16,
                    ..r0
                })
            },
            Instruction::SkipKeyNotPressed(o) => {
                &&& m1 == m0
                &&& g1 == g0
                &&& r1 == (Register {
                    pc: (r0.pc + (if key == Some(r0.v@[o.vx as int]) {
                        2int
                    } else {
                        4int
                    })) as u16,
                    ..r0
                })
            },
            Instruction::ReadDelay(o) => {
                &&& m1 == m0
                &&& g1 == g0
                &&& r1.pc == r0.pc + 2
                &&& r1.v@ == r0.v@.update(o.vx as int, r0.delay_timer)
                &&& keeps_i_and_timers(r0, r1)
            },
            Instruction::WaitKey(o) => {
                &&& m1 == m0
                &&& g1 == g0
                &&& r1.pc == r0.pc + 2
                &&& r1.v@ == (match key {
                    Some(k) => r0.v@.update(o.vx as int, k),
                    None => r0.v@,
                })
                &&& keeps_i_and_timers(r0, r1)
            },
            Instruction::SetDelay(o) => {
                &&& m1 == m0
                &&& g1 == g0
                &&& r1.pc == r0.pc + 2
                &&& r1.v@ == r0.v@
                &&& r1.i == r0.i
                &&& r1.delay_timer == r0.v@[o.vx as int]
                &&& r1.sound_timer == r0.sound_timer
            },
            Instruction::SetSound(o) => {
                &&& m1 == m0
                &&& g1 == g0
                &&& r1.pc == r0.pc + 2
                &&& r1.v@ == r0.v@
                &&& r1.i == r0.i
                &&& r1.delay_timer == r0.delay_timer
                &&& r1.sound_timer == r0.v@[o.vx as int]
            },
            Instruction::AddIndex(o) => {
                &&& m1 == m0
                &&& g1 == g0
                &&& r1 == (Register {
                    pc: (r0.pc + 2) as u16,
                    i: (r0.i + r0.v@[o.vx as int]) as u16,
                    ..r0
                })
            },
            Instruction::FontAddress(o) => {
                &&& m1 == m0
                &&& g1 == g0
                &&& r1 == (Register {
                    pc: (r0.pc + 2) as u16,
                    i: (FONT_BASE + r0.v@[o.vx as int] * FONT_LENGTH) as u16,
                    ..r0
                })
            },
            Instruction::StoreDigits(o) => {
                let value = r0.v@[o.vx as int];
                let at = r0.i as int;
                &&& g1 == g0
                &&& m1.stack@ == m0.stack@
                &&& m1.all@ == m0.all@.update(at, (value / 100) as u8).update(
                    at + 1,
                    (((value % 100) / 10) as u8),
                ).update(at + 2, (value % 10) as u8)
                &&& r1 == (Register { pc: (r0.pc + 2) as u16, ..r0 })
            },
            Instruction::StoreRegs(o) => {
                let at = r0.i as int;
                &&& g1 == g0
                &&& m1.stack@ == m0.stack@
                &&& m1.all@.len() == m0.all@.len()
                &&& forall|k: int| 0 <= k <= o.vx ==> m1.all@[at + k] == r0.v@[k]
                &&& forall|a: int|
                    0 <= a < m0.all@.len() && !(at <= a <= at + o.vx) ==> m1.all@[a]
                        == m0.all@[a]
                &&& r1 == (Register {
                    pc: (r0.pc + 2) as u16,
                    i: (r0.i + o.vx + 1) as u16,
                    ..r0
                })
            },
            Instruction::LoadRegs(o) => {
                let at = r0.i as int;
                &&& m1 == m0
                &&& g1 == g0
                &&& r1.v@.len() == r0.v@.len()
                &&& forall|k: int| 0 <= k <= o.vx ==> r1.v@[k] == m0.all@[at + k]
                &&& forall|k: int| o.vx < k < 16 ==> r1.v@[k] == r0.v@[k]
                &&& r1.pc == r0.pc + 2
                &&& r1.i == r0.i + o.vx + 1
                &&& r1.delay_timer == r0.delay_timer
                &&& r1.sound_timer == r0.sound_timer
            },
        }
    }

    /// What this instruction wants from the keyboard before executing.
    pub open spec fn spec_key_demand(self) -> KeyDemand {
        match self {
            Instruction::SkipKeyPressed(_) => KeyDemand::Poll,
            Instruction::SkipKeyNotPressed(_) => KeyDemand::Poll,
            Instruction::WaitKey(_) => KeyDemand::Block,
            _ => KeyDemand::NoKey,
        }
    }

    pub fn key_demand(&self) -> (r: KeyDemand)
        ensures
            r == self.spec_key_demand(),
    {
        match self {
            Instruction::SkipKeyPressed(_) => KeyDemand::Poll,
            Instruction::SkipKeyNotPressed(_) => KeyDemand::Poll,
            Instruction::WaitKey(_) => KeyDemand::Block,
            _ => KeyDemand::NoKey,
        }
    }

    /// Decode two fetched bytes, high byte first. Classification is by the
    /// top nibble, with a secondary dispatch on the low nibble for 0x8 and
    /// on the low byte for 0xE and 0xF; anything else is a fatal decode
    /// error, so that a malformed program halts instead of running on.
    pub fn decode(opcode: [u8; 2]) -> (r: Result<Instruction, Chip8Error>)
        ensures
            ({
                let op = word_of(opcode@[0], opcode@[1]);
                &&& (r is Ok <==> recognized(op))
                &&& (r is Err ==> r == Err::<Instruction, Chip8Error>(Chip8Error::UnknownOpcode))
                &&& (r is Ok ==> decodes_to(op, r->Ok_0) && r->Ok_0.wf())
            }),
    {
        let instruction: u16 = ((opcode[0] as u16) << 8) | (opcode[1] as u16);
        let operator = instruction >> 12;
        match operator {
            0x0 => {
                match instruction {
                    0x00EE => Ok(Instruction::Return(flow::Opcode0x00ee::new())),
                    0x00E0 => Ok(Instruction::Clear(draw::Opcode0x00e0::new())),
                    _ => Ok(Instruction::Sys(flow::Opcode0x0nnn::new())),
                }
            },
            0x1 => Ok(Instruction::Jump(flow::Opcode0x1nnn::new(instruction))),
            0x2 => Ok(Instruction::Call(flow::Opcode0x2nnn::new(instruction))),
            0x3 => Ok(Instruction::SkipEqImm(skip::Opcode0x3xkk::new(instruction))),
            0x4 => Ok(Instruction::SkipNeImm(skip::Opcode0x4xkk::new(instruction))),
            0x5 => Ok(Instruction::SkipEqReg(skip::Opcode0x5xy0::new(instruction))),
            0x6 => Ok(Instruction::LoadImm(alu::Opcode0x6xkk::new(instruction))),
            0x7 => Ok(Instruction::AddImm(alu::Opcode0x7xkk::new(instruction))),
            0x8 => {
                let suffix = instruction & 0x000F;
                match suffix {
                    0x0 => Ok(Instruction::Copy(alu::Opcode0x8xy0::new(instruction))),
                    0x1 => Ok(Instruction::Or(alu::Opcode0x8xy1::new(instruction))),
                    0x2 => Ok(Instruction::And(alu::Opcode0x8xy2::new(instruction))),
                    0x3 => Ok(Instruction::Xor(alu::Opcode0x8xy3::new(instruction))),
                    0x4 => Ok(Instruction::AddReg(alu::Opcode0x8xy4::new(instruction))),
                    0x5 => Ok(Instruction::SubReg(alu::Opcode0x8xy5::new(instruction))),
                    0x6 => Ok(Instruction::ShiftRight(alu::Opcode0x8xy6::new(instruction))),
                    0x7 => Ok(Instruction::SubFrom(alu::Opcode0x8xy7::new(instruction))),
                    0xe => Ok(Instruction::ShiftLeft(alu::Opcode0x8xye::new(instruction))),
                    _ => Err(Chip8Error::UnknownOpcode),
                }
            },
            0x9 => Ok(Instruction::SkipNeReg(skip::Opcode0x9xy0::new(instruction))),
            0xa => Ok(Instruction::LoadIndex(index::Opcode0xannn::new(instruction))),
            0xb => Ok(Instruction::JumpV0(flow::Opcode0xbnnn::new(instruction))),
            0xc => Ok(Instruction::Random(alu::Opcode0xcxkk::new(instruction))),
            0xd => Ok(Instruction::Draw(draw::Opcode0xdxyn::new(instruction))),
            0xe => {
                let suffix = instruction & 0x00FF;
                match suffix {
                    0x9e => Ok(Instruction::SkipKeyPressed(key::Opcode0xex9e::new(instruction))),
                    0xa1 => Ok(
                        Instruction::SkipKeyNotPressed(key::Opcode0xexa1::new(instruction)),
                    ),
                    _ => Err(Chip8Error::UnknownOpcode),
                }
            },
            0xf => {
                let suffix = instruction & 0x00FF;
                match suffix {
                    0x07 => Ok(Instruction::ReadDelay(timer::Opcode0xfx07::new(instruction))),
                    0x0a => Ok(Instruction::WaitKey(key::Opcode0xfx0a::new(instruction))),
                    0x15 => Ok(Instruction::SetDelay(timer::Opcode0xfx15::new(instruction))),
                    0x18 => Ok(Instruction::SetSound(timer::Opcode0xfx18::new(instruction))),
                    0x1e => Ok(Instruction::AddIndex(index::Opcode0xfx1e::new(instruction))),
                    0x29 => Ok(Instruction::FontAddress(index::Opcode0xfx29::new(instruction))),
                    0x33 => Ok(Instruction::StoreDigits(mem::Opcode0xfx33::new(instruction))),
                    0x55 => Ok(Instruction::StoreRegs(mem::Opcode0xfx55::new(instruction))),
                    0x65 => Ok(Instruction::LoadRegs(mem::Opcode0xfx65::new(instruction))),
                    _ => Err(Chip8Error::UnknownOpcode),
                }
            },
            _ => {
                proof {
                    assert(instruction >> 12u16 < 16) by (bit_vector);
                }
                Err(Chip8Error::UnknownOpcode)
            },
        }
    }

    /// A word that matches some entry of the opcode table is one the
    /// decoder accepts.
    pub proof fn lemma_decodes_to_recognized(op: u16, i: Instruction)
        requires
            decodes_to(op, i),
        ensures
            recognized(op),
    {
        assert(op == 0x00E0 ==> op >> 12u16 == 0x0) by (bit_vector);
        assert(op == 0x00EE ==> op >> 12u16 == 0x0) by (bit_vector);
        match i {
            Instruction::Sys(_) => {},
            Instruction::Clear(_) => {},
            Instruction::Return(_) => {},
            Instruction::Jump(_) => {},
            Instruction::Call(_) => {},
            Instruction::SkipEqImm(_) => {},
            Instruction::SkipNeImm(_) => {},
            Instruction::SkipEqReg(_) => {},
            Instruction::LoadImm(_) => {},
            Instruction::AddImm(_) => {},
            Instruction::Copy(_) => {},
            Instruction::Or(_) => {},
            Instruction::And(_) => {},
            Instruction::Xor(_) => {},
            Instruction::AddReg(_) => {},
            Instruction::SubReg(_) => {},
            Instruction::ShiftRight(_) => {},
            Instruction::SubFrom(_) => {},
            Instruction::ShiftLeft(_) => {},
            Instruction::SkipNeReg(_) => {},
            Instruction::LoadIndex(_) => {},
            Instruction::JumpV0(_) => {},
            Instruction::Random(_) => {},
            Instruction::Draw(_) => {},
            Instruction::SkipKeyPressed(_) => {},
            Instruction::SkipKeyNotPressed(_) => {},
            Instruction::ReadDelay(_) => {},
            Instruction::WaitKey(_) => {},
            Instruction::SetDelay(_) => {},
            Instruction::SetSound(_) => {},
            Instruction::AddIndex(_) => {},
            Instruction::FontAddress(_) => {},
            Instruction::StoreDigits(_) => {},
            Instruction::StoreRegs(_) => {},
            Instruction::LoadRegs(_) => {},
        }
    }

    /// Any two decodings of one instruction word agree on everything but
    /// the drawn random byte, hence on faults, on control-flow class and on
    /// what they want from the keyboard.
    pub proof fn lemma_decode_agreement(
        op: u16,
        i: Instruction,
        j: Instruction,
        memory: Memory,
        register: Register,
        key: Option<u8>,
    )
        requires
            decodes_to(op, i),
            decodes_to(op, j),
        ensures
            i.fault(memory, register, key) == j.fault(memory, register, key),
            i.is_jump() == j.is_jump(),
            i.is_skip() == j.is_skip(),
            i.spec_key_demand() == j.spec_key_demand(),
    {
        assert(op == 0x00E0 ==> op >> 12u16 == 0x0) by (bit_vector);
        assert(op == 0x00EE ==> op >> 12u16 == 0x0) by (bit_vector);
        match i {
            Instruction::Sys(_) => {},
            Instruction::Clear(_) => {},
            Instruction::Return(_) => {},
            Instruction::Jump(_) => {},
            Instruction::Call(_) => {},
            Instruction::SkipEqImm(_) => {},
            Instruction::SkipNeImm(_) => {},
            Instruction::SkipEqReg(_) => {},
            Instruction::LoadImm(_) => {},
            Instruction::AddImm(_) => {},
            Instruction::Copy(_) => {},
            Instruction::Or(_) => {},
            Instruction::And(_) => {},
            Instruction::Xor(_) => {},
            Instruction::AddReg(_) => {},
            Instruction::SubReg(_) => {},
            Instruction::ShiftRight(_) => {},
            Instruction::SubFrom(_) => {},
            Instruction::ShiftLeft(_) => {},
            Instruction::SkipNeReg(_) => {},
            Instruction::LoadIndex(_) => {},
            Instruction::JumpV0(_) => {},
            Instruction::Random(_) => {},
            Instruction::Draw(_) => {},
            Instruction::SkipKeyPressed(_) => {},
            Instruction::SkipKeyNotPressed(_) => {},
            Instruction::ReadDelay(_) => {},
            Instruction::WaitKey(_) => {},
            Instruction::SetDelay(_) => {},
            Instruction::SetSound(_) => {},
            Instruction::AddIndex(_) => {},
            Instruction::FontAddress(_) => {},
            Instruction::StoreDigits(_) => {},
            Instruction::StoreRegs(_) => {},
            Instruction::LoadRegs(_) => {},
        }
    }

    /// Execute one decoded instruction against the machine state. On
    /// success the new state relates to the old one exactly as
    /// `executes_to` says of this instruction, and the program counter has
    /// advanced by exactly 2, unless the instruction is a jump, call or
    /// return (which redirect it) or a skip (which advances it by exactly
    /// 2 or 4). A fatal condition is reported without changing anything.
    pub fn execute(
        &self,
        memory: &mut Memory,
        register: &mut Register,
        graphic: &mut Graphic,
        key: Option<u8>,
    ) -> (r: Result<(), Chip8Error>)
        requires
            old(memory).wf(),
            old(register).wf(),
            old(graphic).wf(),
            self.wf(),
        ensures
            final(memory).wf(),
            final(register).wf(),
            final(graphic).wf(),
            r is Ok <==> !self.fault(*old(memory), *old(register), key),
            r is Err ==> *final(memory) == *old(memory) && *final(register) == *old(register)
                && *final(graphic) == *old(graphic),
            r is Ok && !self.is_jump() && !self.is_skip() ==> final(register).pc == old(
                register,
            ).pc + 2,
            r is Ok && self.is_skip() ==> final(register).pc == old(register).pc + 2
                || final(register).pc == old(register).pc + 4,
            r is Ok ==> self.executes_to(
                *old(memory),
                *old(register),
                *old(graphic),
                key,
                *final(memory),
                *final(register),
                *final(graphic),
            ),
    {
        match self {
            Instruction::Sys(o) => o.execute(memory, register, graphic, key),
            Instruction::Clear(o) => o.execute(memory, register, graphic, key),
            Instruction::Return(o) => o.execute(memory, register, graphic, key),
            Instruction::Jump(o) => o.execute(memory, register, graphic, key),
            Instruction::Call(o) => o.execute(memory, register, graphic, key),
            Instruction::SkipEqImm(o) => o.execute(memory, register, graphic, key),
            Instruction::SkipNeImm(o) => o.execute(memory, register, graphic, key),
            Instruction::SkipEqReg(o) => o.execute(memory, register, graphic, key),
            Instruction::LoadImm(o) => o.execute(memory, register, graphic, key),
            Instruction::AddImm(o) => o.execute(memory, register, graphic, key),
            Instruction::Copy(o) => o.execute(memory, register, graphic, key),
            Instruction::Or(o) => o.execute(memory, register, graphic, key),
            Instruction::And(o) => o.execute(memory, register, graphic, key),
            Instruction::Xor(o) => o.execute(memory, register, graphic, key),
            Instruction::AddReg(o) => o.execute(memory, register, graphic, key),
            Instruction::SubReg(o) => o.execute(memory, register, graphic, key),
            Instruction::ShiftRight(o) => o.execute(memory, register, graphic, key),
            Instruction::SubFrom(o) => o.execute(memory, register, graphic, key),
            Instruction::ShiftLeft(o) => o.execute(memory, register, graphic, key),
            Instruction::SkipNeReg(o) => o.execute(memory, register, graphic, key),
            Instruction::LoadIndex(o) => o.execute(memory, register, graphic, key),
            Instruction::JumpV0(o) => o.execute(memory, register, graphic, key),
            Instruction::Random(o) => o.execute(memory, register, graphic, key),
            Instruction::Draw(o) => o.execute(memory, register, graphic, key),
            Instruction::SkipKeyPressed(o) => o.execute(memory, register, graphic, key),
            Instruction::SkipKeyNotPressed(o) => o.execute(memory, register, graphic, key),
            Instruction::ReadDelay(o) => o.execute(memory, register, graphic, key),
            Instruction::WaitKey(o) => o.execute(memory, register, graphic, key),
            Instruction::SetDelay(o) => o.execute(memory, register, graphic, key),
            Instruction::SetSound(o) => o.execute(memory, register, graphic, key),
            Instruction::AddIndex(o) => o.execute(memory, register, graphic, key),
            Instruction::FontAddress(o) => o.execute(memory, register, graphic, key),
            Instruction::StoreDigits(o) => o.execute(memory, register, graphic, key),
            Instruction::StoreRegs(o) => o.execute(memory, register, graphic, key),
            Instruction::LoadRegs(o) => o.execute(memory, register, graphic, key),
        }
    }
}

} // verus!
