use vstd::prelude::*;

use crate::cpu::Register;
use crate::error::Chip8Error;
use crate::graphic::Graphic;
use crate::instructions::lemma_operand_bounds;
use crate::instructions::op_x;
use crate::memory::Memory;

verus! {

/// 0xFX07: read the delay timer into Vx.
pub struct Opcode0xfx07 {
    pub vx: usize,
}

impl Opcode0xfx07 {
    pub open spec fn wf(self) -> bool {
        self.vx < 16
    }

    pub fn new(instruction: u16) -> (r: Opcode0xfx07)
        ensures
            r.vx == op_x(instruction),
            r.wf(),
    {
        proof {
            lemma_operand_bounds(instruction);
        }
        let vx = ((instruction & 0x0F00) >> 8) as usize;
        Opcode0xfx07 { vx }
    }

    #[allow(unused_variables)]
    pub fn execute(
        &self,
        memory: &mut Memory,
        register: &mut Register,
        graphic: &mut Graphic,
        key: Option<u8>,
    ) -> (r: Result<(), Chip8Error>)
        requires
            old(register).wf(),
            self.wf(),
        ensures
            *final(memory) == *old(memory),
            *final(graphic) == *old(graphic),
            r is Ok <==> old(register).pc + 2 <= u16::MAX,
            r is Err ==> *final(register) == *old(register) && r == Err::<(), Chip8Error>(
                Chip8Error::PcOverflow,
            ),
            r is Ok ==> {
                &&& final(register).pc == old(register).pc + 2
                &&& final(register).v@ == old(register).v@.update(
                    self.vx as int,
                    old(register).delay_timer,
                )
                &&& final(register).i == old(register).i
                &&& final(register).delay_timer == old(register).delay_timer
                &&& final(register).sound_timer == old(register).sound_timer
            },
    {
        if register.pc > u16::MAX - 2 {
            return Err(Chip8Error::PcOverflow);
        }
        let dt = register.delay_timer;
        register.v.set(self.vx, dt);
        register.pc = register.pc + 2;
        Ok(())
    }
}

/// 0xFX15: set the delay timer to Vx.
pub struct Opcode0xfx15 {
    pub vx: usize,
}

impl Opcode0xfx15 {
    pub open spec fn wf(self) -> bool {
        self.vx < 16
    }

    pub fn new(instruction: u16) -> (r: Opcode0xfx15)
        ensures
            r.vx == op_x(instruction),
            r.wf(),
    {
        proof {
            lemma_operand_bounds(instruction);
        }
        let vx = ((instruction & 0x0F00) >> 8) as usize;
        Opcode0xfx15 { vx }
    }

    #[allow(unused_variables)]
    pub fn execute(
        &self,
        memory: &mut Memory,
        register: &mut Register,
        graphic: &mut Graphic,
        key: Option<u8>,
    ) -> (r: Result<(), Chip8Error>)
        requires
            old(register).wf(),
            self.wf(),
        ensures
            *final(memory) == *old(memory),
            *final(graphic) == *old(graphic),
            r is Ok <==> old(register).pc + 2 <= u16::MAX,
            r is Err ==> *final(register) == *old(register) && r == Err::<(), Chip8Error>(
                Chip8Error::PcOverflow,
            ),
            r is Ok ==> {
                &&& final(register).pc == old(register).pc + 2
                &&& final(register).v@ == old(register).v@
                &&& final(register).i == old(register).i
                &&& final(register).delay_timer == old(register).v@[self.vx as int]
                &&& final(register).sound_timer == old(register).sound_timer
            },
    {
        if register.pc > u16::MAX - 2 {
            return Err(Chip8Error::PcOverflow);
        }
        register.delay_timer = register.v[self.vx];
        register.pc = register.pc + 2;
        Ok(())
    }
}

/// 0xFX18: set the sound timer to Vx.
pub struct Opcode0xfx18 {
    pub vx: usize,
}

impl Opcode0xfx18 {
    pub open spec fn wf(self) -> bool {
        self.vx < 16
    }

    pub fn new(instruction: u16) -> (r: Opcode0xfx18)
        ensures
            r.vx == op_x(instruction),
            r.wf(),
    {
        proof {
            lemma_operand_bounds(instruction);
        }
        let vx = ((instruction & 0x0F00) >> 8) as usize;
        Opcode0xfx18 { vx }
    }

    #[allow(unused_variables)]
    pub fn execute(
        &self,
        memory: &mut Memory,
        register: &mut Register,
        graphic: &mut Graphic,
        key: Option<u8>,
    ) -> (r: Result<(), Chip8Error>)
        requires
            old(register).wf(),
            self.wf(),
        ensures
            *final(memory) == *old(memory),
            *final(graphic) == *old(graphic),
            r is Ok <==> old(register).pc + 2 <= u16::MAX,
            r is Err ==> *final(register) == *old(register) && r == Err::<(), Chip8Error>(
                Chip8Error::PcOverflow,
            ),
            r is Ok ==> {
                &&& final(register).pc == old(register).pc + 2
                &&& final(register).v@ == old(register).v@
                &&& final(register).i == old(register).i
                &&& final(register).delay_timer == old(register).delay_timer
                &&& final(register).sound_timer == old(register).v@[self.vx as int]
            },
    {
        if register.pc > u16::MAX - 2 {
            return Err(Chip8Error::PcOverflow);
        }
        register.sound_timer = register.v[self.vx];
        register.pc = register.pc + 2;
        Ok(())
    }
}

} // verus!
