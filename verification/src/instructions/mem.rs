use vstd::prelude::*;

use crate::cpu::Register;
use crate::error::Chip8Error;
use crate::graphic::Graphic;
use crate::instructions::lemma_operand_bounds;
use crate::instructions::op_x;
use crate::memory::Memory;
use crate::memory::MEMORY_SIZE;

verus! {

/// 0xFX33: store the binary-coded decimal form of Vx: the hundreds digit at
/// address I, the tens digit at I+1 and the ones digit at I+2. Touching
/// memory beyond 4095 is fatal.
pub struct Opcode0xfx33 {
    pub vx: usize,
}

impl Opcode0xfx33 {
    pub open spec fn wf(self) -> bool {
        self.vx < 16
    }

    pub fn new(instruction: u16) -> (r: Opcode0xfx33)
        ensures
            r.vx == op_x(instruction),
            r.wf(),
    {
        proof {
            lemma_operand_bounds(instruction);
        }
        let vx = ((instruction & 0x0F00) >> 8) as usize;
        Opcode0xfx33 { vx }
    }

    #[allow(unused_variables)]
    pub fn execute(
        &self,
        memory: &mut Memory,
        register: &mut Register,
        graphic: &mut Graphic,
        key: Option<u8>,
    ) -> (r: Result<(), Chip8Error>)
        requires
            old(register).wf(),
            old(memory).wf(),
            self.wf(),
        ensures
            final(memory).wf(),
            *final(graphic) == *old(graphic),
            final(memory).stack@ == old(memory).stack@,
            r is Ok <==> old(register).i + 2 < MEMORY_SIZE && old(register).pc + 2 <= u16::MAX,
            r is Err ==> *final(memory) == *old(memory) && *final(register) == *old(register),
            r is Err && old(register).i + 2 >= MEMORY_SIZE ==> r == Err::<(), Chip8Error>(
                Chip8Error::AddressOutOfBounds,
            ),
            r is Err && old(register).i + 2 < MEMORY_SIZE ==> r == Err::<(), Chip8Error>(
                Chip8Error::PcOverflow,
            ),
            r is Ok ==> ({
                let value = old(register).v@[self.vx as int];
                let at = old(register).i as int;
                &&& final(memory).all@ == old(memory).all@.update(at, (value / 100) as u8).update(
                    at + 1,
                    (((value % 100) / 10) as u8),
                ).update(at + 2, (value % 10) as u8)
                &&& *final(register) == (Register {
                    pc: (old(register).pc + 2) as u16,
                    ..*old(register)
                })
            }),
    {
        let at = register.i as usize;
        if at + 2 >= MEMORY_SIZE {
            return Err(Chip8Error::AddressOutOfBounds);
        }
        if register.pc > u16::MAX - 2 {
            return Err(Chip8Error::PcOverflow);
        }
        let value = register.v[self.vx];
        memory.all.set(at, value / 100);
        memory.all.set(at + 1, (value % 100) / 10);
        memory.all.set(at + 2, value % 10);
        register.pc = register.pc + 2;
        Ok(())
    }
}

/// 0xFX55: store registers V0 through Vx to memory starting at address I,
/// then advance I past the stored block. Touching memory beyond 4095 is
/// fatal.
pub struct Opcode0xfx55 {
    pub vx: usize,
}

impl Opcode0xfx55 {
    pub open spec fn wf(self) -> bool {
        self.vx < 16
    }

    pub fn new(instruction: u16) -> (r: Opcode0xfx55)
        ensures
            r.vx == op_x(instruction),
            r.wf(),
    {
        proof {
            lemma_operand_bounds(instruction);
        }
        let vx = ((instruction & 0x0F00) >> 8) as usize;
        Opcode0xfx55 { vx }
    }

    #[allow(unused_variables)]
    pub fn execute(
        &self,
        memory: &mut Memory,
        register: &mut Register,
        graphic: &mut Graphic,
        key: Option<u8>,
    ) -> (r: Result<(), Chip8Error>)
        requires
            old(register).wf(),
            old(memory).wf(),
            self.wf(),
        ensures
            final(memory).wf(),
            final(register).wf(),
            *final(graphic) == *old(graphic),
            final(memory).stack@ == old(memory).stack@,
            r is Ok <==> old(register).i + self.vx + 1 <= MEMORY_SIZE && old(register).pc + 2
                <= u16::MAX,
            r is Err ==> *final(memory) == *old(memory) && *final(register) == *old(register),
            r is Err && old(register).i + self.vx + 1 > MEMORY_SIZE ==> r == Err::<
                (),
                Chip8Error,
            >(Chip8Error::AddressOutOfBounds),
            r is Err && old(register).i + self.vx + 1 <= MEMORY_SIZE ==> r == Err::<
                (),
                Chip8Error,
            >(Chip8Error::PcOverflow),
            r is Ok ==> ({
                let at = old(register).i as int;
                &&& forall|k: int|
                    0 <= k <= self.vx ==> final(memory).all@[at + k] == old(register).v@[k]
                &&& forall|a: int|
                    0 <= a < MEMORY_SIZE && !(at <= a <= at + self.vx) ==> final(memory).all@[a]
                        == old(memory).all@[a]
                &&& *final(register) == (Register {
                    pc: (old(register).pc + 2) as u16,
                    i: (old(register).i + self.vx + 1) as u16,
                    ..*old(register)
                })
            }),
    {
        let at = register.i as usize;
        if at + self.vx + 1 > MEMORY_SIZE {
            return Err(Chip8Error::AddressOutOfBounds);
        }
        if register.pc > u16::MAX - 2 {
            return Err(Chip8Error::PcOverflow);
        }
        let mut index: usize = 0;
        while index < self.vx + 1
            invariant
                old(register).wf(),
                self.wf(),
                index <= self.vx + 1,
                at == old(register).i,
                at + self.vx + 1 <= MEMORY_SIZE,
                *register == *old(register),
                *graphic == *old(graphic),
                memory.all@.len() == old(memory).all@.len() == MEMORY_SIZE,
                memory.stack@ == old(memory).stack@,
                forall|k: int| 0 <= k < index ==> memory.all@[at + k] == old(register).v@[k],
                forall|a: int|
                    0 <= a < MEMORY_SIZE && !(at <= a < at + index) ==> memory.all@[a] == old(
                        memory,
                    ).all@[a],
            decreases self.vx + 1 - index,
        {
            let value = register.v[index];
            memory.all.set(at + index, value);
            index = index + 1;
        }
        register.i = register.i + (self.vx as u16) + 1;
        register.pc = register.pc + 2;
        Ok(())
    }
}

/// 0xFX65: load registers V0 through Vx from memory starting at address I,
/// then advance I past the loaded block. Touching memory beyond 4095 is
/// fatal.
pub struct Opcode0xfx65 {
    pub vx: usize,
}

impl Opcode0xfx65 {
    pub open spec fn wf(self) -> bool {
        self.vx < 16
    }

    pub fn new(instruction: u16) -> (r: Opcode0xfx65)
        ensures
            r.vx == op_x(instruction),
            r.wf(),
    {
        proof {
            lemma_operand_bounds(instruction);
        }
        let vx = ((instruction & 0x0F00) >> 8) as usize;
        Opcode0xfx65 { vx }
    }

    #[allow(unused_variables)]
    pub fn execute(
        &self,
        memory: &mut Memory,
        register: &mut Register,
        graphic: &mut Graphic,
        key: Option<u8>,
    ) -> (r: Result<(), Chip8Error>)
        requires
            old(register).wf(),
            old(memory).wf(),
            self.wf(),
        ensures
            final(register).wf(),
            *final(graphic) == *old(graphic),
            *final(memory) == *old(memory),
            r is Ok <==> old(register).i + self.vx + 1 <= MEMORY_SIZE && old(register).pc + 2
                <= u16::MAX,
            r is Err ==> *final(register) == *old(register),
            r is Err && old(register).i + self.vx + 1 > MEMORY_SIZE ==> r == Err::<
                (),
                Chip8Error,
            >(Chip8Error::AddressOutOfBounds),
            r is Err && old(register).i + self.vx + 1 <= MEMORY_SIZE ==> r == Err::<
                (),
                Chip8Error,
            >(Chip8Error::PcOverflow),
            r is Ok ==> ({
                let at = old(register).i as int;
                &&& forall|k: int|
                    0 <= k <= self.vx ==> final(register).v@[k] == old(memory).all@[at + k]
                &&& forall|k: int|
                    self.vx < k < 16 ==> final(register).v@[k] == old(register).v@[k]
                &&& final(register).pc == old(register).pc + 2
                &&& final(register).i == old(register).i + self.vx + 1
                &&& final(register).delay_timer == old(register).delay_timer
                &&& final(register).sound_timer == old(register).sound_timer
            }),
    {
        let at = register.i as usize;
        if at + self.vx + 1 > MEMORY_SIZE {
            return Err(Chip8Error::AddressOutOfBounds);
        }
        if register.pc > u16::MAX - 2 {
            return Err(Chip8Error::PcOverflow);
        }
        let mut index: usize = 0;
        while index < self.vx + 1
            invariant
                old(memory).wf(),
                self.wf(),
                index <= self.vx + 1,
                at == old(register).i,
                at + self.vx + 1 <= MEMORY_SIZE,
                *memory == *old(memory),
                *graphic == *old(graphic),
                register.v@.len() == 16,
                register.pc == old(register).pc,
                register.i == old(register).i,
                register.delay_timer == old(register).delay_timer,
                register.sound_timer == old(register).sound_timer,
                forall|k: int| 0 <= k < index ==> register.v@[k] == old(memory).all@[at + k],
                forall|k: int| index <= k < 16 ==> register.v@[k] == old(register).v@[k],
            decreases self.vx + 1 - index,
        {
            let value = memory.all[at + index];
            register.v.set(index, value);
            index = index + 1;
        }
        register.i = register.i + (self.vx as u16) + 1;
        register.pc = register.pc + 2;
        Ok(())
    }
}

/// A 0xFX55 store followed by a 0xFX65 load from the same address is a
/// round trip: when the store's contract has written V0 through Vx of `r0`
/// to `m1` at `at`, and the load's contract has then filled V0 through Vx
/// of `r2` from `m1` at the same `at`, the loaded registers carry their
/// original values. Each direction advances the index register by x+1 as
/// part of its own contract.
pub proof fn lemma_store_load_round_trip(
    x: int,
    at: int,
    r0: Register,
    m1: Memory,
    r2: Register,
)
    requires
        0 <= x < 16,
        forall|k: int| 0 <= k <= x ==> m1.all@[at + k] == r0.v@[k],
        forall|k: int| 0 <= k <= x ==> r2.v@[k] == m1.all@[at + k],
    ensures
        forall|k: int| 0 <= k <= x ==> r2.v@[k] == r0.v@[k],
{
}

} // verus!
