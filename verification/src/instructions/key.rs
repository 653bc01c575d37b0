use vstd::prelude::*;

use crate::cpu::Register;
use crate::error::Chip8Error;
use crate::graphic::Graphic;
use crate::instructions::lemma_operand_bounds;
use crate::instructions::op_x;
use crate::memory::Memory;

verus! {

/// 0xEX9E: skip the next instruction when the pending key event equals Vx.
/// The event queue is polled without blocking; no pending event takes the
/// not-pressed branch, advancing the program counter by 2.
pub struct Opcode0xex9e {
    pub vx: usize,
}

impl Opcode0xex9e {
    pub open spec fn wf(self) -> bool {
        self.vx < 16
    }

    pub fn new(instruction: u16) -> (r: Opcode0xex9e)
        ensures
            r.vx == op_x(instruction),
            r.wf(),
    {
        proof {
            lemma_operand_bounds(instruction);
        }
        let vx = ((instruction & 0x0F00) >> 8) as usize;
        Opcode0xex9e { vx }
    }

    #[allow(unused_variables)]
    pub fn execute(
        &self,
        memory: &mut Memory,
        register: &mut Register,
        graphic: &mut Graphic,
        key: Option<u8>,
    ) -> (r: Result<(), Chip8Error>)
        requires
            old(register).wf(),
            self.wf(),
        ensures
            *final(memory) == *old(memory),
            *final(graphic) == *old(graphic),
            ({
                let inc: int = if key == Some(old(register).v@[self.vx as int]) {
                    4
                } else {
                    2
                };
                &&& (r is Ok <==> old(register).pc + inc <= u16::MAX)
                &&& (r is Err ==> *final(register) == *old(register) && r == Err::<
                    (),
                    Chip8Error,
                >(Chip8Error::PcOverflow))
                &&& (r is Ok ==> *final(register) == (Register {
                    pc: (old(register).pc + inc) as u16,
                    ..*old(register)
                }))
            }),
    {
        let inc: u16 = match key {
            Some(value) if value == register.v[self.vx] => 4,
            _ => 2,
        };
        if register.pc > u16::MAX - inc {
            return Err(Chip8Error::PcOverflow);
        }
        register.pc = register.pc + inc;
        Ok(())
    }
}

/// 0xEXA1: skip the next instruction when the pending key event differs
/// from Vx. The event queue is polled without blocking; no pending event
/// counts as not pressed and skips, advancing the program counter by 4.
pub struct Opcode0xexa1 {
    pub vx: usize,
}

impl Opcode0xexa1 {
    pub open spec fn wf(self) -> bool {
        self.vx < 16
    }

    pub fn new(instruction: u16) -> (r: Opcode0xexa1)
        ensures
            r.vx == op_x(instruction),
            r.wf(),
    {
        proof {
            lemma_operand_bounds(instruction);
        }
        let vx = ((instruction & 0x0F00) >> 8) as usize;
        Opcode0xexa1 { vx }
    }

    #[allow(unused_variables)]
    pub fn execute(
        &self,
        memory: &mut Memory,
        register: &mut Register,
        graphic: &mut Graphic,
        key: Option<u8>,
    ) -> (r: Result<(), Chip8Error>)
        requires
            old(register).wf(),
            self.wf(),
        ensures
            *final(memory) == *old(memory),
            *final(graphic) == *old(graphic),
            ({
                let inc: int = if key == Some(old(register).v@[self.vx as int]) {
                    2
                } else {
                    4
                };
                &&& (r is Ok <==> old(register).pc + inc <= u16::MAX)
                &&& (r is Err ==> *final(register) == *old(register) && r == Err::<
                    (),
                    Chip8Error,
                >(Chip8Error::PcOverflow))
                &&& (r is Ok ==> *final(register) == (Register {
                    pc: (old(register).pc + inc) as u16,
                    ..*old(register)
                }))
            }),
    {
        let inc: u16 = match key {
            Some(value) if value == register.v[self.vx] => 2,
            _ => 4,
        };
        if register.pc > u16::MAX - inc {
            return Err(Chip8Error::PcOverflow);
        }
        register.pc = register.pc + inc;
        Ok(())
    }
}

/// 0xFX0A: wait for a key press and store it in Vx. The driver blocks on
/// the event queue before calling this; the key it hands over is written to
/// Vx. A closed queue hands over nothing and leaves Vx alone. Either way
/// the program counter advances by 2.
pub struct Opcode0xfx0a {
    pub vx: usize,
}

impl Opcode0xfx0a {
    pub open spec fn wf(self) -> bool {
        self.vx < 16
    }

    pub fn new(instruction: u16) -> (r: Opcode0xfx0a)
        ensures
            r.vx == op_x(instruction),
            r.wf(),
    {
        proof {
            lemma_operand_bounds(instruction);
        }
        let vx = ((instruction & 0x0F00) >> 8) as usize;
        Opcode0xfx0a { vx }
    }

    #[allow(unused_variables)]
    pub fn execute(
        &self,
        memory: &mut Memory,
        register: &mut Register,
        graphic: &mut Graphic,
        key: Option<u8>,
    ) -> (r: Result<(), Chip8Error>)
        requires
            old(register).wf(),
            self.wf(),
        ensures
            *final(memory) == *old(memory),
            *final(graphic) == *old(graphic),
            r is Ok <==> old(register).pc + 2 <= u16::MAX,
            r is Err ==> *final(register) == *old(register) && r == Err::<(), Chip8Error>(
                Chip8Error::PcOverflow,
            ),
            r is Ok ==> {
                &&& final(register).pc == old(register).pc + 2
                &&& final(register).v@ == (match key {
                    Some(k) => old(register).v@.update(self.vx as int, k),
                    None => old(register).v@,
                })
                &&& final(register).i == old(register).i
                &&& final(register).delay_timer == old(register).delay_timer
                &&& final(register).sound_timer == old(register).sound_timer
            },
    {
        if register.pc > u16::MAX - 2 {
            return Err(Chip8Error::PcOverflow);
        }
        match key {
            Some(k) => {
                register.v.set(self.vx, k);
            },
            None => {},
        }
        register.pc = register.pc + 2;
        Ok(())
    }
}

} // verus!
