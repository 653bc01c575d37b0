use vstd::prelude::*;

use crate::cpu::Register;
use crate::error::Chip8Error;
use crate::graphic::blit;
use crate::graphic::blit_collision;
use crate::graphic::Graphic;
use crate::graphic::SCREEN_PIXELS;
use crate::instructions::lemma_operand_bounds;
use crate::instructions::op_n;
use crate::instructions::op_x;
use crate::instructions::op_y;
use crate::memory::Memory;
use crate::memory::MEMORY_SIZE;

verus! {

/// 0x00E0: clear the screen.
pub struct Opcode0x00e0;

impl Opcode0x00e0 {
    pub fn new() -> (r: Opcode0x00e0) {
        Opcode0x00e0
    }

    #[allow(unused_variables)]
    pub fn execute(
        &self,
        memory: &mut Memory,
        register: &mut Register,
        graphic: &mut Graphic,
        key: Option<u8>,
    ) -> (r: Result<(), Chip8Error>)
        requires
            old(graphic).wf(),
        ensures
            *final(memory) == *old(memory),
            final(graphic).wf(),
            r is Ok <==> old(register).pc + 2 <= u16::MAX,
            r is Err ==> *final(register) == *old(register) && *final(graphic) == *old(graphic)
                && r == Err::<(), Chip8Error>(Chip8Error::PcOverflow),
            r is Ok ==> {
                &&& forall|p: int| 0 <= p < SCREEN_PIXELS ==> final(graphic).gfx@[p] == 0
                &&& *final(register) == (Register {
                    pc: (old(register).pc + 2) as u16,
                    ..*old(register)
                })
            },
    {
        if register.pc > u16::MAX - 2 {
            return Err(Chip8Error::PcOverflow);
        }
        graphic.clear();
        register.pc = register.pc + 2;
        Ok(())
    }
}

/// 0xDXYN: draw the N-byte sprite held at memory addresses I through I+N-1
/// at screen position (Vx, Vy). The sprite is XOR-blitted with wraparound
/// on both axes, and VF is set to 1 when any set sprite bit lands on a
/// pixel that was already lit, 0 otherwise. A sprite read beyond address
/// 4095 is fatal.
pub struct Opcode0xdxyn {
    pub vx: usize,
    pub vy: usize,
    pub nibble: u8,
}

impl Opcode0xdxyn {
    pub open spec fn wf(self) -> bool {
        self.vx < 16 && self.vy < 16 && self.nibble < 16
    }

    pub fn new(instruction: u16) -> (r: Opcode0xdxyn)
        ensures
            r.vx == op_x(instruction),
            r.vy == op_y(instruction),
            r.nibble == op_n(instruction),
            r.wf(),
    {
        proof {
            lemma_operand_bounds(instruction);
        }
        let vx = ((instruction & 0x0F00) >> 8) as usize;
        let vy = ((instruction & 0x00F0) >> 4) as usize;
        let nibble = (instruction & 0x000F) as u8;
        Opcode0xdxyn { vx, vy, nibble }
    }

    #[allow(unused_variables)]
    pub fn execute(
        &self,
        memory: &mut Memory,
        register: &mut Register,
        graphic: &mut Graphic,
        key: Option<u8>,
    ) -> (r: Result<(), Chip8Error>)
        requires
            old(register).wf(),
            old(memory).wf(),
            old(graphic).wf(),
            self.wf(),
        ensures
            *final(memory) == *old(memory),
            final(graphic).wf(),
            final(register).wf(),
            r is Ok <==> old(register).i + self.nibble <= MEMORY_SIZE && old(register).pc + 2
                <= u16::MAX,
            r is Err ==> *final(register) == *old(register) && *final(graphic) == *old(graphic),
            r is Err && old(register).i + self.nibble > MEMORY_SIZE ==> r == Err::<
                (),
                Chip8Error,
            >(Chip8Error::AddressOutOfBounds),
            r is Err && old(register).i + self.nibble <= MEMORY_SIZE ==> r == Err::<
                (),
                Chip8Error,
            >(Chip8Error::PcOverflow),
            r is Ok ==> ({
                let at = old(register).i as int;
                let sprite = old(memory).all@.subrange(at, at + self.nibble);
                let x = old(register).v@[self.vx as int] as int;
                let y = old(register).v@[self.vy as int] as int;
                let collision = blit_collision(old(graphic).gfx@, x, y, sprite);
                &&& final(graphic).gfx@ == blit(old(graphic).gfx@, x, y, sprite)
                &&& final(register).v@ == old(register).v@.update(
                    15,
                    if collision {
                        1u8
                    } else {
                        0u8
                    },
                )
                &&& final(register).pc == old(register).pc + 2
                &&& final(register).i == old(register).i
                &&& final(register).delay_timer == old(register).delay_timer
                &&& final(register).sound_timer == old(register).sound_timer
            }),
    {
        let start = register.i as usize;
        let end = start + self.nibble as usize;
        if end > MEMORY_SIZE {
            return Err(Chip8Error::AddressOutOfBounds);
        }
        if register.pc > u16::MAX - 2 {
            return Err(Chip8Error::PcOverflow);
        }
        let sprite = &memory.all[start..end];
        let x = register.v[self.vx] as usize;
        let y = register.v[self.vy] as usize;
        let collision = graphic.set_sprite(x, y, sprite);
        if collision {
            register.v.set(0xF, 1);
        } else {
            register.v.set(0xF, 0);
        }
        register.pc = register.pc + 2;
        Ok(())
    }
}

} // verus!
