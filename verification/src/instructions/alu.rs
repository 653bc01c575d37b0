use vstd::prelude::*;

use vstd::arithmetic::div_mod::lemma_small_mod;
use vstd::arithmetic::div_mod::lemma_mod_add_multiples_vanish;

use crate::cpu::Register;
use crate::error::Chip8Error;
use crate::graphic::Graphic;
use crate::instructions::keeps_i_and_timers;
use crate::instructions::lemma_operand_bounds;
use crate::instructions::op_kk;
use crate::instructions::op_x;
use crate::instructions::op_y;
use crate::memory::Memory;

verus! {

/// A sum or difference of two bytes, wrapped modulo 256.
pub proof fn lemma_wrap_byte(s: int)
    requires
        -256 < s < 512,
    ensures
        s % 256 == (if s < 0 {
            s + 256
        } else if s < 256 {
            s
        } else {
            s - 256
        }),
{
    if s < 0 {
        lemma_mod_add_multiples_vanish(s, 256);
        lemma_small_mod((s + 256) as nat, 256);
    } else if s < 256 {
        lemma_small_mod(s as nat, 256);
    } else {
        lemma_mod_add_multiples_vanish(s - 256, 256);
        lemma_small_mod((s - 256) as nat, 256);
    }
}

/// 0x6XKK: load the immediate byte KK into Vx.
pub struct Opcode0x6xkk {
    pub vx: usize,
    pub byte: u8,
}

impl Opcode0x6xkk {
    pub open spec fn wf(self) -> bool {
        self.vx < 16
    }

    pub fn new(instruction: u16) -> (r: Opcode0x6xkk)
        ensures
            r.vx == op_x(instruction),
            r.byte == op_kk(instruction),
            r.wf(),
    {
        proof {
            lemma_operand_bounds(instruction);
        }
        let vx = ((instruction & 0x0F00) >> 8) as usize;
        let byte = (instruction & 0x00FF) as u8;
        Opcode0x6xkk { vx, byte }
    }

    #[allow(unused_variables)]
    pub fn execute(
        &self,
        memory: &mut Memory,
        register: &mut Register,
        graphic: &mut Graphic,
        key: Option<u8>,
    ) -> (r: Result<(), Chip8Error>)
        requires
            old(register).wf(),
            self.wf(),
        ensures
            *final(memory) == *old(memory),
            *final(graphic) == *old(graphic),
            r is Ok <==> old(register).pc + 2 <= u16::MAX,
            r is Err ==> *final(register) == *old(register) && r == Err::<(), Chip8Error>(
                Chip8Error::PcOverflow,
            ),
            r is Ok ==> {
                &&& final(register).pc == old(register).pc + 2
                &&& final(register).v@ == old(register).v@.update(self.vx as int, self.byte)
                &&& keeps_i_and_timers(*old(register), *final(register))
            },
    {
        if register.pc > u16::MAX - 2 {
            return Err(Chip8Error::PcOverflow);
        }
        register.v.set(self.vx, self.byte);
        register.pc = register.pc + 2;
        Ok(())
    }
}

/// 0x7XKK: add the immediate byte KK to Vx, wrapping modulo 256; no carry
/// flag is written.
pub struct Opcode0x7xkk {
    pub vx: usize,
    pub byte: u8,
}

impl Opcode0x7xkk {
    pub open spec fn wf(self) -> bool {
        self.vx < 16
    }

    pub fn new(instruction: u16) -> (r: Opcode0x7xkk)
        ensures
            r.vx == op_x(instruction),
            r.byte == op_kk(instruction),
            r.wf(),
    {
        proof {
            lemma_operand_bounds(instruction);
        }
        let vx = ((instruction & 0x0F00) >> 8) as usize;
        let byte = (instruction & 0x00FF) as u8;
        Opcode0x7xkk { vx, byte }
    }

    #[allow(unused_variables)]
    pub fn execute(
        &self,
        memory: &mut Memory,
        register: &mut Register,
        graphic: &mut Graphic,
        key: Option<u8>,
    ) -> (r: Result<(), Chip8Error>)
        requires
            old(register).wf(),
            self.wf(),
        ensures
            *final(memory) == *old(memory),
            *final(graphic) == *old(graphic),
            r is Ok <==> old(register).pc + 2 <= u16::MAX,
            r is Err ==> *final(register) == *old(register) && r == Err::<(), Chip8Error>(
                Chip8Error::PcOverflow,
            ),
            r is Ok ==> {
                &&& final(register).pc == old(register).pc + 2
                &&& final(register).v@ == old(register).v@.update(
                    self.vx as int,
                    (((old(register).v@[self.vx as int] + self.byte) % 256) as u8),
                )
                &&& keeps_i_and_timers(*old(register), *final(register))
            },
    {
        if register.pc > u16::MAX - 2 {
            return Err(Chip8Error::PcOverflow);
        }
        let value = register.v[self.vx].wrapping_add(self.byte);
        proof {
            lemma_wrap_byte(old(register).v@[self.vx as int] + self.byte);
        }
        register.v.set(self.vx, value);
        register.pc = register.pc + 2;
        Ok(())
    }
}

/// 0x8XY0: copy Vy into Vx.
pub struct Opcode0x8xy0 {
    pub vx: usize,
    pub vy: usize,
}

impl Opcode0x8xy0 {
    pub open spec fn wf(self) -> bool {
        self.vx < 16 && self.vy < 16
    }

    pub fn new(instruction: u16) -> (r: Opcode0x8xy0)
        ensures
            r.vx == op_x(instruction),
            r.vy == op_y(instruction),
            r.wf(),
    {
        proof {
            lemma_operand_bounds(instruction);
        }
        let vx = ((instruction & 0x0F00) >> 8) as usize;
        let vy = ((instruction & 0x00F0) >> 4) as usize;
        Opcode0x8xy0 { vx, vy }
    }

    #[allow(unused_variables)]
    pub fn execute(
        &self,
        memory: &mut Memory,
        register: &mut Register,
        graphic: &mut Graphic,
        key: Option<u8>,
    ) -> (r: Result<(), Chip8Error>)
        requires
            old(register).wf(),
            self.wf(),
        ensures
            *final(memory) == *old(memory),
            *final(graphic) == *old(graphic),
            r is Ok <==> old(register).pc + 2 <= u16::MAX,
            r is Err ==> *final(register) == *old(register) && r == Err::<(), Chip8Error>(
                Chip8Error::PcOverflow,
            ),
            r is Ok ==> {
                &&& final(register).pc == old(register).pc + 2
                &&& final(register).v@ == old(register).v@.update(
                    self.vx as int,
                    old(register).v@[self.vy as int],
                )
                &&& keeps_i_and_timers(*old(register), *final(register))
            },
    {
        if register.pc > u16::MAX - 2 {
            return Err(Chip8Error::PcOverflow);
        }
        let value = register.v[self.vy];
        register.v.set(self.vx, value);
        register.pc = register.pc + 2;
        Ok(())
    }
}

/// 0x8XY1: bitwise OR Vy into Vx.
pub struct Opcode0x8xy1 {
    pub vx: usize,
    pub vy: usize,
}

impl Opcode0x8xy1 {
    pub open spec fn wf(self) -> bool {
        self.vx < 16 && self.vy < 16
    }

    pub fn new(instruction: u16) -> (r: Opcode0x8xy1)
        ensures
            r.vx == op_x(instruction),
            r.vy == op_y(instruction),
            r.wf(),
    {
        proof {
            lemma_operand_bounds(instruction);
        }
        let vx = ((instruction & 0x0F00) >> 8) as usize;
        let vy = ((instruction & 0x00F0) >> 4) as usize;
        Opcode0x8xy1 { vx, vy }
    }

    #[allow(unused_variables)]
    pub fn execute(
        &self,
        memory: &mut Memory,
        register: &mut Register,
        graphic: &mut Graphic,
        key: Option<u8>,
    ) -> (r: Result<(), Chip8Error>)
        requires
            old(register).wf(),
            self.wf(),
        ensures
            *final(memory) == *old(memory),
            *final(graphic) == *old(graphic),
            r is Ok <==> old(register).pc + 2 <= u16::MAX,
            r is Err ==> *final(register) == *old(register) && r == Err::<(), Chip8Error>(
                Chip8Error::PcOverflow,
            ),
            r is Ok ==> {
                &&& final(register).pc == old(register).pc + 2
                &&& final(register).v@ == old(register).v@.update(
                    self.vx as int,
                    old(register).v@[self.vx as int] | old(register).v@[self.vy as int],
                )
                &&& keeps_i_and_timers(*old(register), *final(register))
            },
    {
        if register.pc > u16::MAX - 2 {
            return Err(Chip8Error::PcOverflow);
        }
        let value = register.v[self.vx] | register.v[self.vy];
        register.v.set(self.vx, value);
        register.pc = register.pc + 2;
        Ok(())
    }
}

/// 0x8XY2: bitwise AND Vy into Vx.
pub struct Opcode0x8xy2 {
    pub vx: usize,
    pub vy: usize,
}

impl Opcode0x8xy2 {
    pub open spec fn wf(self) -> bool {
        self.vx < 16 && self.vy < 16
    }

    pub fn new(instruction: u16) -> (r: Opcode0x8xy2)
        ensures
            r.vx == op_x(instruction),
            r.vy == op_y(instruction),
            r.wf(),
    {
        proof {
            lemma_operand_bounds(instruction);
        }
        let vx = ((instruction & 0x0F00) >> 8) as usize;
        let vy = ((instruction & 0x00F0) >> 4) as usize;
        Opcode0x8xy2 { vx, vy }
    }

    #[allow(unused_variables)]
    pub fn execute(
        &self,
        memory: &mut Memory,
        register: &mut Register,
        graphic: &mut Graphic,
        key: Option<u8>,
    ) -> (r: Result<(), Chip8Error>)
        requires
            old(register).wf(),
            self.wf(),
        ensures
            *final(memory) == *old(memory),
            *final(graphic) == *old(graphic),
            r is Ok <==> old(register).pc + 2 <= u16::MAX,
            r is Err ==> *final(register) == *old(register) && r == Err::<(), Chip8Error>(
                Chip8Error::PcOverflow,
            ),
            r is Ok ==> {
                &&& final(register).pc == old(register).pc + 2
                &&& final(register).v@ == old(register).v@.update(
                    self.vx as int,
                    old(register).v@[self.vx as int] & old(register).v@[self.vy as int],
                )
                &&& keeps_i_and_timers(*old(register), *final(register))
            },
    {
        if register.pc > u16::MAX - 2 {
            return Err(Chip8Error::PcOverflow);
        }
        let value = register.v[self.vx] & register.v[self.vy];
        register.v.set(self.vx, value);
        register.pc = register.pc + 2;
        Ok(())
    }
}

/// 0x8XY3: bitwise XOR Vy into Vx.
pub struct Opcode0x8xy3 {
    pub vx: usize,
    pub vy: usize,
}

impl Opcode0x8xy3 {
    pub open spec fn wf(self) -> bool {
        self.vx < 16 && self.vy < 16
    }

    pub fn new(instruction: u16) -> (r: Opcode0x8xy3)
        ensures
            r.vx == op_x(instruction),
            r.vy == op_y(instruction),
            r.wf(),
    {
        proof {
            lemma_operand_bounds(instruction);
        }
        let vx = ((instruction & 0x0F00) >> 8) as usize;
        let vy = ((instruction & 0x00F0) >> 4) as usize;
        Opcode0x8xy3 { vx, vy }
    }

    #[allow(unused_variables)]
    pub fn execute(
        &self,
        memory: &mut Memory,
        register: &mut Register,
        graphic: &mut Graphic,
        key: Option<u8>,
    ) -> (r: Result<(), Chip8Error>)
        requires
            old(register).wf(),
            self.wf(),
        ensures
            *final(memory) == *old(memory),
            *final(graphic) == *old(graphic),
            r is Ok <==> old(register).pc + 2 <= u16::MAX,
            r is Err ==> *final(register) == *old(register) && r == Err::<(), Chip8Error>(
                Chip8Error::PcOverflow,
            ),
            r is Ok ==> {
                &&& final(register).pc == old(register).pc + 2
                &&& final(register).v@ == old(register).v@.update(
                    self.vx as int,
                    old(register).v@[self.vx as int] ^ old(register).v@[self.vy as int],
                )
                &&& keeps_i_and_timers(*old(register), *final(register))
            },
    {
        if register.pc > u16::MAX - 2 {
            return Err(Chip8Error::PcOverflow);
        }
        let value = register.v[self.vx] ^ register.v[self.vy];
        register.v.set(self.vx, value);
        register.pc = register.pc + 2;
        Ok(())
    }
}

/// 0x8XY4: add Vy to Vx, wrapping modulo 256; VF is set to 1 when the true
/// sum exceeds 255 (carry) and to 0 otherwise. The flag write comes second,
/// so for X = F it overwrites the sum.
pub struct Opcode0x8xy4 {
    pub vx: usize,
    pub vy: usize,
}

impl Opcode0x8xy4 {
    pub open spec fn wf(self) -> bool {
        self.vx < 16 && self.vy < 16
    }

    pub fn new(instruction: u16) -> (r: Opcode0x8xy4)
        ensures
            r.vx == op_x(instruction),
            r.vy == op_y(instruction),
            r.wf(),
    {
        proof {
            lemma_operand_bounds(instruction);
        }
        let vx = ((instruction & 0x0F00) >> 8) as usize;
        let vy = ((instruction & 0x00F0) >> 4) as usize;
        Opcode0x8xy4 { vx, vy }
    }

    #[allow(unused_variables)]
    pub fn execute(
        &self,
        memory: &mut Memory,
        register: &mut Register,
        graphic: &mut Graphic,
        key: Option<u8>,
    ) -> (r: Result<(), Chip8Error>)
        requires
            old(register).wf(),
            self.wf(),
        ensures
            *final(memory) == *old(memory),
            *final(graphic) == *old(graphic),
            r is Ok <==> old(register).pc + 2 <= u16::MAX,
            r is Err ==> *final(register) == *old(register) && r == Err::<(), Chip8Error>(
                Chip8Error::PcOverflow,
            ),
            r is Ok ==> ({
                let sum = old(register).v@[self.vx as int] + old(register).v@[self.vy as int];
                let flag: u8 = if sum > 255 {
                    1u8
                } else {
                    0u8
                };
                &&& final(register).pc == old(register).pc + 2
                &&& final(register).v@ == old(register).v@.update(
                    self.vx as int,
                    ((sum % 256) as u8),
                ).update(15, flag)
                &&& keeps_i_and_timers(*old(register), *final(register))
            }),
    {
        if register.pc > u16::MAX - 2 {
            return Err(Chip8Error::PcOverflow);
        }
        let a = register.v[self.vx];
        let b = register.v[self.vy];
        let value = a.wrapping_add(b);
        proof {
            lemma_wrap_byte(a + b);
        }
        register.v.set(self.vx, value);
        let flag: u8 = if (a as u16) + (b as u16) > 255 {
            1
        } else {
            0
        };
        register.v.set(0xF, flag);
        register.pc = register.pc + 2;
        Ok(())
    }
}

/// 0x8XY5: subtract Vy from Vx, wrapping modulo 256; VF is set to 1 when no
/// borrow occurred (Vx was at least Vy before the subtraction) and to 0
/// otherwise. The flag write comes second, so for X = F it overwrites the
/// difference.
pub struct Opcode0x8xy5 {
    pub vx: usize,
    pub vy: usize,
}

impl Opcode0x8xy5 {
    pub open spec fn wf(self) -> bool {
        self.vx < 16 && self.vy < 16
    }

    pub fn new(instruction: u16) -> (r: Opcode0x8xy5)
        ensures
            r.vx == op_x(instruction),
            r.vy == op_y(instruction),
            r.wf(),
    {
        proof {
            lemma_operand_bounds(instruction);
        }
        let vx = ((instruction & 0x0F00) >> 8) as usize;
        let vy = ((instruction & 0x00F0) >> 4) as usize;
        Opcode0x8xy5 { vx, vy }
    }

    #[allow(unused_variables)]
    pub fn execute(
        &self,
        memory: &mut Memory,
        register: &mut Register,
        graphic: &mut Graphic,
        key: Option<u8>,
    ) -> (r: Result<(), Chip8Error>)
        requires
            old(register).wf(),
            self.wf(),
        ensures
            *final(memory) == *old(memory),
            *final(graphic) == *old(graphic),
            r is Ok <==> old(register).pc + 2 <= u16::MAX,
            r is Err ==> *final(register) == *old(register) && r == Err::<(), Chip8Error>(
                Chip8Error::PcOverflow,
            ),
            r is Ok ==> ({
                let diff = old(register).v@[self.vx as int] - old(register).v@[self.vy as int];
                let flag: u8 = if diff >= 0 {
                    1u8
                } else {
                    0u8
                };
                &&& final(register).pc == old(register).pc + 2
                &&& final(register).v@ == old(register).v@.update(
                    self.vx as int,
                    ((diff % 256) as u8),
                ).update(15, flag)
                &&& keeps_i_and_timers(*old(register), *final(register))
            }),
    {
        if register.pc > u16::MAX - 2 {
            return Err(Chip8Error::PcOverflow);
        }
        let a = register.v[self.vx];
        let b = register.v[self.vy];
        let value = a.wrapping_sub(b);
        proof {
            lemma_wrap_byte(a - b);
        }
        register.v.set(self.vx, value);
        let flag: u8 = if a >= b {
            1
        } else {
            0
        };
        register.v.set(0xF, flag);
        register.pc = register.pc + 2;
        Ok(())
    }
}

/// 0x8XY6: shift Vx right by one. VF receives the bit shifted out (the
/// pre-shift least significant bit of Vx); the flag is written before the
/// shift, so for X = F the shift acts on the flag value.
pub struct Opcode0x8xy6 {
    pub vx: usize,
}

impl Opcode0x8xy6 {
    pub open spec fn wf(self) -> bool {
        self.vx < 16
    }

    pub fn new(instruction: u16) -> (r: Opcode0x8xy6)
        ensures
            r.vx == op_x(instruction),
            r.wf(),
    {
        proof {
            lemma_operand_bounds(instruction);
        }
        let vx = ((instruction & 0x0F00) >> 8) as usize;
        Opcode0x8xy6 { vx }
    }

    #[allow(unused_variables)]
    pub fn execute(
        &self,
        memory: &mut Memory,
        register: &mut Register,
        graphic: &mut Graphic,
        key: Option<u8>,
    ) -> (r: Result<(), Chip8Error>)
        requires
            old(register).wf(),
            self.wf(),
        ensures
            *final(memory) == *old(memory),
            *final(graphic) == *old(graphic),
            r is Ok <==> old(register).pc + 2 <= u16::MAX,
            r is Err ==> *final(register) == *old(register) && r == Err::<(), Chip8Error>(
                Chip8Error::PcOverflow,
            ),
            r is Ok ==> ({
                let flag = old(register).v@[self.vx as int] & 1;
                let with_flag = old(register).v@.update(15, flag);
                &&& final(register).pc == old(register).pc + 2
                &&& final(register).v@ == with_flag.update(
                    self.vx as int,
                    with_flag[self.vx as int] >> 1u8,
                )
                &&& keeps_i_and_timers(*old(register), *final(register))
            }),
    {
        if register.pc > u16::MAX - 2 {
            return Err(Chip8Error::PcOverflow);
        }
        let flag = register.v[self.vx] & 1;
        register.v.set(0xF, flag);
        let value = register.v[self.vx] >> 1;
        register.v.set(self.vx, value);
        register.pc = register.pc + 2;
        Ok(())
    }
}

/// 0x8XY7: set Vx to Vy minus Vx, wrapping modulo 256; VF is set to 1 when
/// no borrow occurred (Vy was at least Vx) and to 0 otherwise. The flag
/// write comes second, so for X = F it overwrites the difference.
pub struct Opcode0x8xy7 {
    pub vx: usize,
    pub vy: usize,
}

impl Opcode0x8xy7 {
    pub open spec fn wf(self) -> bool {
        self.vx < 16 && self.vy < 16
    }

    pub fn new(instruction: u16) -> (r: Opcode0x8xy7)
        ensures
            r.vx == op_x(instruction),
            r.vy == op_y(instruction),
            r.wf(),
    {
        proof {
            lemma_operand_bounds(instruction);
        }
        let vx = ((instruction & 0x0F00) >> 8) as usize;
        let vy = ((instruction & 0x00F0) >> 4) as usize;
        Opcode0x8xy7 { vx, vy }
    }

    #[allow(unused_variables)]
    pub fn execute(
        &self,
        memory: &mut Memory,
        register: &mut Register,
        graphic: &mut Graphic,
        key: Option<u8>,
    ) -> (r: Result<(), Chip8Error>)
        requires
            old(register).wf(),
            self.wf(),
        ensures
            *final(memory) == *old(memory),
            *final(graphic) == *old(graphic),
            r is Ok <==> old(register).pc + 2 <= u16::MAX,
            r is Err ==> *final(register) == *old(register) && r == Err::<(), Chip8Error>(
                Chip8Error::PcOverflow,
            ),
            r is Ok ==> ({
                let diff = old(register).v@[self.vy as int] - old(register).v@[self.vx as int];
                let flag: u8 = if diff >= 0 {
                    1u8
                } else {
                    0u8
                };
                &&& final(register).pc == old(register).pc + 2
                &&& final(register).v@ == old(register).v@.update(
                    self.vx as int,
                    ((diff % 256) as u8),
                ).update(15, flag)
                &&& keeps_i_and_timers(*old(register), *final(register))
            }),
    {
        if register.pc > u16::MAX - 2 {
            return Err(Chip8Error::PcOverflow);
        }
        let a = register.v[self.vx];
        let b = register.v[self.vy];
        let value = b.wrapping_sub(a);
        proof {
            lemma_wrap_byte(b - a);
        }
        register.v.set(self.vx, value);
        let flag: u8 = if b >= a {
            1
        } else {
            0
        };
        register.v.set(0xF, flag);
        register.pc = register.pc + 2;
        Ok(())
    }
}

/// 0x8XYE: shift Vx left by one, wrapping. VF receives the bit shifted out
/// (the pre-shift most significant bit of Vx); the flag is written before
/// the shift, so for X = F the shift acts on the flag value.
pub struct Opcode0x8xye {
    pub vx: usize,
}

impl Opcode0x8xye {
    pub open spec fn wf(self) -> bool {
        self.vx < 16
    }

    pub fn new(instruction: u16) -> (r: Opcode0x8xye)
        ensures
            r.vx == op_x(instruction),
            r.wf(),
    {
        proof {
            lemma_operand_bounds(instruction);
        }
        let vx = ((instruction & 0x0F00) >> 8) as usize;
        Opcode0x8xye { vx }
    }

    #[allow(unused_variables)]
    pub fn execute(
        &self,
        memory: &mut Memory,
        register: &mut Register,
        graphic: &mut Graphic,
        key: Option<u8>,
    ) -> (r: Result<(), Chip8Error>)
        requires
            old(register).wf(),
            self.wf(),
        ensures
            *final(memory) == *old(memory),
            *final(graphic) == *old(graphic),
            r is Ok <==> old(register).pc + 2 <= u16::MAX,
            r is Err ==> *final(register) == *old(register) && r == Err::<(), Chip8Error>(
                Chip8Error::PcOverflow,
            ),
            r is Ok ==> ({
                let flag = (old(register).v@[self.vx as int] & 0x80) >> 7u8;
                let with_flag = old(register).v@.update(15, flag);
                &&& final(register).pc == old(register).pc + 2
                &&& final(register).v@ == with_flag.update(
                    self.vx as int,
                    with_flag[self.vx as int] << 1u8,
                )
                &&& keeps_i_and_timers(*old(register), *final(register))
            }),
    {
        if register.pc > u16::MAX - 2 {
            return Err(Chip8Error::PcOverflow);
        }
        let flag = (register.v[self.vx] & 0x80) >> 7;
        register.v.set(0xF, flag);
        let value = register.v[self.vx] << 1;
        register.v.set(self.vx, value);
        register.pc = register.pc + 2;
        Ok(())
    }
}

/// Relies on rand::random: draws a byte from the thread-local generator.
/// Nothing is assumed about the value; every caller's contract holds for
/// any byte that comes back.
#[verifier::external_body]
fn random_byte() -> u8 {
    rand::random::<u8>()
}

/// 0xCXKK: set Vx to a random byte ANDed with KK. The random byte is drawn
/// when the instruction is decoded and held in `random_byte`; execution is
/// then a pure function of the held value.
pub struct Opcode0xcxkk {
    pub vx: usize,
    pub byte: u8,
    pub random_byte: u8,
}

impl Opcode0xcxkk {
    pub open spec fn wf(self) -> bool {
        self.vx < 16
    }

    pub fn new(instruction: u16) -> (r: Opcode0xcxkk)
        ensures
            r.vx == op_x(instruction),
            r.byte == op_kk(instruction),
            r.wf(),
    {
        proof {
            lemma_operand_bounds(instruction);
        }
        let vx = ((instruction & 0x0F00) >> 8) as usize;
        let byte = (instruction & 0x00FF) as u8;
        let random_byte = random_byte();
        Opcode0xcxkk { vx, byte, random_byte }
    }

    #[allow(unused_variables)]
    pub fn execute(
        &self,
        memory: &mut Memory,
        register: &mut Register,
        graphic: &mut Graphic,
        key: Option<u8>,
    ) -> (r: Result<(), Chip8Error>)
        requires
            old(register).wf(),
            self.wf(),
        ensures
            *final(memory) == *old(memory),
            *final(graphic) == *old(graphic),
            r is Ok <==> old(register).pc + 2 <= u16::MAX,
            r is Err ==> *final(register) == *old(register) && r == Err::<(), Chip8Error>(
                Chip8Error::PcOverflow,
            ),
            r is Ok ==> {
                &&& final(register).pc == old(register).pc + 2
                &&& final(register).v@ == old(register).v@.update(
                    self.vx as int,
                    self.random_byte & self.byte,
                )
                &&& keeps_i_and_timers(*old(register), *final(register))
            },
    {
        if register.pc > u16::MAX - 2 {
            return Err(Chip8Error::PcOverflow);
        }
        let value = self.random_byte & self.byte;
        register.v.set(self.vx, value);
        register.pc = register.pc + 2;
        Ok(())
    }
}

} // verus!
