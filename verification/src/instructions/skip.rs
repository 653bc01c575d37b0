use vstd::prelude::*;

use crate::cpu::Register;
use crate::error::Chip8Error;
use crate::graphic::Graphic;
use crate::instructions::lemma_operand_bounds;
use crate::instructions::op_kk;
use crate::instructions::op_x;
use crate::instructions::op_y;
use crate::memory::Memory;

verus! {

/// 0x3XKK: skip the next instruction when Vx equals KK; the program counter
/// advances by 4 on a skip and by 2 otherwise.
pub struct Opcode0x3xkk {
    pub vx: usize,
    pub byte: u8,
}

impl Opcode0x3xkk {
    pub open spec fn wf(self) -> bool {
        self.vx < 16
    }

    pub fn new(instruction: u16) -> (r: Opcode0x3xkk)
        ensures
            r.vx == op_x(instruction),
            r.byte == op_kk(instruction),
            r.wf(),
    {
        proof {
            lemma_operand_bounds(instruction);
        }
        let vx = ((instruction & 0x0F00) >> 8) as usize;
        let byte = (instruction & 0x00FF) as u8;
        Opcode0x3xkk { vx, byte }
    }

    #[allow(unused_variables)]
    pub fn execute(
        &self,
        memory: &mut Memory,
        register: &mut Register,
        graphic: &mut Graphic,
        key: Option<u8>,
    ) -> (r: Result<(), Chip8Error>)
        requires
            old(register).wf(),
            self.wf(),
        ensures
            *final(memory) == *old(memory),
            *final(graphic) == *old(graphic),
            ({
                let inc: int = if old(register).v@[self.vx as int] == self.byte {
                    4
                } else {
                    2
                };
                &&& (r is Ok <==> old(register).pc + inc <= u16::MAX)
                &&& (r is Err ==> *final(register) == *old(register) && r == Err::<
                    (),
                    Chip8Error,
                >(Chip8Error::PcOverflow))
                &&& (r is Ok ==> *final(register) == (Register {
                    pc: (old(register).pc + inc) as u16,
                    ..*old(register)
                }))
            }),
    {
        let inc: u16 = if register.v[self.vx] == self.byte {
            4
        } else {
            2
        };
        if register.pc > u16::MAX - inc {
            return Err(Chip8Error::PcOverflow);
        }
        register.pc = register.pc + inc;
        Ok(())
    }
}

/// 0x4XKK: skip the next instruction when Vx differs from KK; the program
/// counter advances by 4 on a skip and by 2 otherwise.
pub struct Opcode0x4xkk {
    pub vx: usize,
    pub byte: u8,
}

impl Opcode0x4xkk {
    pub open spec fn wf(self) -> bool {
        self.vx < 16
    }

    pub fn new(instruction: u16) -> (r: Opcode0x4xkk)
        ensures
            r.vx == op_x(instruction),
            r.byte == op_kk(instruction),
            r.wf(),
    {
        proof {
            lemma_operand_bounds(instruction);
        }
        let vx = ((instruction & 0x0F00) >> 8) as usize;
        let byte = (instruction & 0x00FF) as u8;
        Opcode0x4xkk { vx, byte }
    }

    #[allow(unused_variables)]
    pub fn execute(
        &self,
        memory: &mut Memory,
        register: &mut Register,
        graphic: &mut Graphic,
        key: Option<u8>,
    ) -> (r: Result<(), Chip8Error>)
        requires
            old(register).wf(),
            self.wf(),
        ensures
            *final(memory) == *old(memory),
            *final(graphic) == *old(graphic),
            ({
                let inc: int = if old(register).v@[self.vx as int] != self.byte {
                    4
                } else {
                    2
                };
                &&& (r is Ok <==> old(register).pc + inc <= u16::MAX)
                &&& (r is Err ==> *final(register) == *old(register) && r == Err::<
                    (),
                    Chip8Error,
                >(Chip8Error::PcOverflow))
                &&& (r is Ok ==> *final(register) == (Register {
                    pc: (old(register).pc + inc) as u16,
                    ..*old(register)
                }))
            }),
    {
        let inc: u16 = if register.v[self.vx] != self.byte {
            4
        } else {
            2
        };
        if register.pc > u16::MAX - inc {
            return Err(Chip8Error::PcOverflow);
        }
        register.pc = register.pc + inc;
        Ok(())
    }
}

/// 0x5XY0: skip the next instruction when Vx equals Vy; the program counter
/// advances by 4 on a skip and by 2 otherwise.
pub struct Opcode0x5xy0 {
    pub vx: usize,
    pub vy: usize,
}

impl Opcode0x5xy0 {
    pub open spec fn wf(self) -> bool {
        self.vx < 16 && self.vy < 16
    }

    pub fn new(instruction: u16) -> (r: Opcode0x5xy0)
        ensures
            r.vx == op_x(instruction),
            r.vy == op_y(instruction),
            r.wf(),
    {
        proof {
            lemma_operand_bounds(instruction);
        }
        let vx = ((instruction & 0x0F00) >> 8) as usize;
        let vy = ((instruction & 0x00F0) >> 4) as usize;
        Opcode0x5xy0 { vx, vy }
    }

    #[allow(unused_variables)]
    pub fn execute(
        &self,
        memory: &mut Memory,
        register: &mut Register,
        graphic: &mut Graphic,
        key: Option<u8>,
    ) -> (r: Result<(), Chip8Error>)
        requires
            old(register).wf(),
            self.wf(),
        ensures
            *final(memory) == *old(memory),
            *final(graphic) == *old(graphic),
            ({
                let inc: int = if old(register).v@[self.vx as int] == old(register).v@[self.vy as int] {
                    4
                } else {
                    2
                };
                &&& (r is Ok <==> old(register).pc + inc <= u16::MAX)
                &&& (r is Err ==> *final(register) == *old(register) && r == Err::<
                    (),
                    Chip8Error,
                >(Chip8Error::PcOverflow))
                &&& (r is Ok ==> *final(register) == (Register {
                    pc: (old(register).pc + inc) as u16,
                    ..*old(register)
                }))
            }),
    {
        let inc: u16 = if register.v[self.vx] == register.v[self.vy] {
            4
        } else {
            2
        };
        if register.pc > u16::MAX - inc {
            return Err(Chip8Error::PcOverflow);
        }
        register.pc = register.pc + inc;
        Ok(())
    }
}

/// 0x9XY0: skip the next instruction when Vx differs from Vy; the program
/// counter advances by 4 on a skip and by 2 otherwise.
pub struct Opcode0x9xy0 {
    pub vx: usize,
    pub vy: usize,
}

impl Opcode0x9xy0 {
    pub open spec fn wf(self) -> bool {
        self.vx < 16 && self.vy < 16
    }

    pub fn new(instruction: u16) -> (r: Opcode0x9xy0)
        ensures
            r.vx == op_x(instruction),
            r.vy == op_y(instruction),
            r.wf(),
    {
        proof {
            lemma_operand_bounds(instruction);
        }
        let vx = ((instruction & 0x0F00) >> 8) as usize;
        let vy = ((instruction & 0x00F0) >> 4) as usize;
        Opcode0x9xy0 { vx, vy }
    }

    #[allow(unused_variables)]
    pub fn execute(
        &self,
        memory: &mut Memory,
        register: &mut Register,
        graphic: &mut Graphic,
        key: Option<u8>,
    ) -> (r: Result<(), Chip8Error>)
        requires
            old(register).wf(),
            self.wf(),
        ensures
            *final(memory) == *old(memory),
            *final(graphic) == *old(graphic),
            ({
                let inc: int = if old(register).v@[self.vx as int] != old(register).v@[self.vy as int] {
                    4
                } else {
                    2
                };
                &&& (r is Ok <==> old(register).pc + inc <= u16::MAX)
                &&& (r is Err ==> *final(register) == *old(register) && r == Err::<
                    (),
                    Chip8Error,
                >(Chip8Error::PcOverflow))
                &&& (r is Ok ==> *final(register) == (Register {
                    pc: (old(register).pc + inc) as u16,
                    ..*old(register)
                }))
            }),
    {
        let inc: u16 = if register.v[self.vx] != register.v[self.vy] {
            4
        } else {
            2
        };
        if register.pc > u16::MAX - inc {
            return Err(Chip8Error::PcOverflow);
        }
        register.pc = register.pc + inc;
        Ok(())
    }
}

} // verus!
