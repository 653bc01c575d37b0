use vstd::prelude::*;

use crate::cpu::Register;
use crate::error::Chip8Error;
use crate::graphic::Graphic;
use crate::instructions::lemma_operand_bounds;
use crate::instructions::op_nnn;
use crate::instructions::op_x;
use crate::memory::Memory;
use crate::memory::FONT_BASE;
use crate::memory::FONT_LENGTH;

verus! {

/// 0xANNN: load the address NNN into the index register.
pub struct Opcode0xannn {
    pub address: u16,
}

impl Opcode0xannn {
    pub fn new(instruction: u16) -> (r: Opcode0xannn)
        ensures
            r.address == op_nnn(instruction),
            r.address < 0x1000,
    {
        proof {
            lemma_operand_bounds(instruction);
        }
        let address = instruction & 0x0FFF;
        Opcode0xannn { address }
    }

    #[allow(unused_variables)]
    pub fn execute(
        &self,
        memory: &mut Memory,
        register: &mut Register,
        graphic: &mut Graphic,
        key: Option<u8>,
    ) -> (r: Result<(), Chip8Error>)
        ensures
            *final(memory) == *old(memory),
            *final(graphic) == *old(graphic),
            r is Ok <==> old(register).pc + 2 <= u16::MAX,
            r is Err ==> *final(register) == *old(register) && r == Err::<(), Chip8Error>(
                Chip8Error::PcOverflow,
            ),
            r is Ok ==> *final(register) == (Register {
                pc: (old(register).pc + 2) as u16,
                i: self.address,
                ..*old(register)
            }),
    {
        if register.pc > u16::MAX - 2 {
            return Err(Chip8Error::PcOverflow);
        }
        register.i = self.address;
        register.pc = register.pc + 2;
        Ok(())
    }
}

/// 0xFX1E: add Vx to the index register; leaving the 16-bit range is fatal.
pub struct Opcode0xfx1e {
    pub vx: usize,
}

impl Opcode0xfx1e {
    pub open spec fn wf(self) -> bool {
        self.vx < 16
    }

    pub fn new(instruction: u16) -> (r: Opcode0xfx1e)
        ensures
            r.vx == op_x(instruction),
            r.wf(),
    {
        proof {
            lemma_operand_bounds(instruction);
        }
        let vx = ((instruction & 0x0F00) >> 8) as usize;
        Opcode0xfx1e { vx }
    }

    #[allow(unused_variables)]
    pub fn execute(
        &self,
        memory: &mut Memory,
        register: &mut Register,
        graphic: &mut Graphic,
        key: Option<u8>,
    ) -> (r: Result<(), Chip8Error>)
        requires
            old(register).wf(),
            self.wf(),
        ensures
            *final(memory) == *old(memory),
            *final(graphic) == *old(graphic),
            r is Ok <==> old(register).i + old(register).v@[self.vx as int] <= u16::MAX
                && old(register).pc + 2 <= u16::MAX,
            r is Err ==> *final(register) == *old(register),
            r is Err && old(register).i + old(register).v@[self.vx as int] > u16::MAX ==> r
                == Err::<(), Chip8Error>(Chip8Error::IndexOverflow),
            r is Err && old(register).i + old(register).v@[self.vx as int] <= u16::MAX ==> r
                == Err::<(), Chip8Error>(Chip8Error::PcOverflow),
            r is Ok ==> *final(register) == (Register {
                pc: (old(register).pc + 2) as u16,
                i: (old(register).i + old(register).v@[self.vx as int]) as u16,
                ..*old(register)
            }),
    {
        let add = register.v[self.vx] as u16;
        if register.i > u16::MAX - add {
            return Err(Chip8Error::IndexOverflow);
        }
        if register.pc > u16::MAX - 2 {
            return Err(Chip8Error::PcOverflow);
        }
        register.i = register.i + add;
        register.pc = register.pc + 2;
        Ok(())
    }
}

/// 0xFX29: point the index register at the font glyph for the digit held in
/// Vx: glyphs are 5 bytes long and start at the font base address.
pub struct Opcode0xfx29 {
    pub vx: usize,
}

impl Opcode0xfx29 {
    pub open spec fn wf(self) -> bool {
        self.vx < 16
    }

    pub fn new(instruction: u16) -> (r: Opcode0xfx29)
        ensures
            r.vx == op_x(instruction),
            r.wf(),
    {
        proof {
            lemma_operand_bounds(instruction);
        }
        let vx = ((instruction & 0x0F00) >> 8) as usize;
        Opcode0xfx29 { vx }
    }

    #[allow(unused_variables)]
    pub fn execute(
        &self,
        memory: &mut Memory,
        register: &mut Register,
        graphic: &mut Graphic,
        key: Option<u8>,
    ) -> (r: Result<(), Chip8Error>)
        requires
            old(register).wf(),
            self.wf(),
        ensures
            *final(memory) == *old(memory),
            *final(graphic) == *old(graphic),
            r is Ok <==> old(register).pc + 2 <= u16::MAX,
            r is Err ==> *final(register) == *old(register) && r == Err::<(), Chip8Error>(
                Chip8Error::PcOverflow,
            ),
            r is Ok ==> *final(register) == (Register {
                pc: (old(register).pc + 2) as u16,
                i: (FONT_BASE + old(register).v@[self.vx as int] * FONT_LENGTH) as u16,
                ..*old(register)
            }),
    {
        if register.pc > u16::MAX - 2 {
            return Err(Chip8Error::PcOverflow);
        }
        let digit = register.v[self.vx] as u16;
        let font_base = FONT_BASE as u16;
        let font_length = FONT_LENGTH as u16;
        register.i = font_base + digit * font_length;
        register.pc = register.pc + 2;
        Ok(())
    }
}

} // verus!
