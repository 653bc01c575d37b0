use vstd::prelude::*;

use crate::cpu::Register;
use crate::error::Chip8Error;
use crate::graphic::Graphic;
use crate::instructions::lemma_operand_bounds;
use crate::instructions::op_nnn;
use crate::memory::Memory;
use crate::memory::STACK_LIMIT;

verus! {

/// 0x0NNN: jump to a machine code routine at NNN. Only meaningful on the
/// machines CHIP-8 originally ran on; modern interpreters treat it as a
/// no-op and simply step past it.
pub struct Opcode0x0nnn;

impl Opcode0x0nnn {
    pub fn new() -> (r: Opcode0x0nnn) {
        Opcode0x0nnn
    }

    #[allow(unused_variables)]
    pub fn execute(
        &self,
        memory: &mut Memory,
        register: &mut Register,
        graphic: &mut Graphic,
        key: Option<u8>,
    ) -> (r: Result<(), Chip8Error>)
        ensures
            *final(memory) == *old(memory),
            *final(graphic) == *old(graphic),
            r is Ok <==> old(register).pc + 2 <= u16::MAX,
            r is Err ==> *final(register) == *old(register) && r == Err::<(), Chip8Error>(
                Chip8Error::PcOverflow,
            ),
            r is Ok ==> *final(register) == (Register {
                pc: (old(register).pc + 2) as u16,
                ..*old(register)
            }),
    {
        if register.pc > u16::MAX - 2 {
            return Err(Chip8Error::PcOverflow);
        }
        register.pc = register.pc + 2;
        Ok(())
    }
}

/// 0x00EE: return from a subroutine. The program counter is set to the
/// address popped from the top of the call stack; an empty stack is fatal.
pub struct Opcode0x00ee;

impl Opcode0x00ee {
    pub fn new() -> (r: Opcode0x00ee) {
        Opcode0x00ee
    }

    #[allow(unused_variables)]
    pub fn execute(
        &self,
        memory: &mut Memory,
        register: &mut Register,
        graphic: &mut Graphic,
        key: Option<u8>,
    ) -> (r: Result<(), Chip8Error>)
        ensures
            *final(graphic) == *old(graphic),
            final(memory).all@ == old(memory).all@,
            r is Ok <==> old(memory).stack@.len() > 0,
            r is Err ==> *final(memory) == *old(memory) && *final(register) == *old(register)
                && r == Err::<(), Chip8Error>(Chip8Error::StackUnderflow),
            r is Ok ==> {
                &&& final(memory).stack@ == old(memory).stack@.drop_last()
                &&& *final(register) == (Register {
                    pc: old(memory).stack@.last(),
                    ..*old(register)
                })
            },
    {
        if memory.stack.len() == 0 {
            return Err(Chip8Error::StackUnderflow);
        }
        match memory.stack.pop() {
            Some(address) => {
                register.pc = address;
                Ok(())
            },
            None => {
                proof {
                    assert(false);
                }
                Err(Chip8Error::StackUnderflow)
            },
        }
    }
}

/// 0x1NNN: jump to address NNN.
pub struct Opcode0x1nnn {
    pub address: u16,
}

impl Opcode0x1nnn {
    pub fn new(instruction: u16) -> (r: Opcode0x1nnn)
        ensures
            r.address == op_nnn(instruction),
            r.address < 0x1000,
    {
        proof {
            lemma_operand_bounds(instruction);
        }
        let address = instruction & 0x0FFF;
        Opcode0x1nnn { address }
    }

    #[allow(unused_variables)]
    pub fn execute(
        &self,
        memory: &mut Memory,
        register: &mut Register,
        graphic: &mut Graphic,
        key: Option<u8>,
    ) -> (r: Result<(), Chip8Error>)
        ensures
            *final(memory) == *old(memory),
            *final(graphic) == *old(graphic),
            r is Ok,
            *final(register) == (Register { pc: self.address, ..*old(register) }),
    {
        register.pc = self.address;
        Ok(())
    }
}

/// 0x2NNN: call the subroutine at NNN. The address of the next instruction
/// is pushed onto the call stack (a seventeenth entry is fatal) and the
/// program counter is set to NNN, so that a later return resumes right
/// after this call.
pub struct Opcode0x2nnn {
    pub address: u16,
}

impl Opcode0x2nnn {
    pub fn new(instruction: u16) -> (r: Opcode0x2nnn)
        ensures
            r.address == op_nnn(instruction),
            r.address < 0x1000,
    {
        proof {
            lemma_operand_bounds(instruction);
        }
        let address = instruction & 0x0FFF;
        Opcode0x2nnn { address }
    }

    #[allow(unused_variables)]
    pub fn execute(
        &self,
        memory: &mut Memory,
        register: &mut Register,
        graphic: &mut Graphic,
        key: Option<u8>,
    ) -> (r: Result<(), Chip8Error>)
        ensures
            *final(graphic) == *old(graphic),
            final(memory).all@ == old(memory).all@,
            r is Ok <==> old(memory).stack@.len() < STACK_LIMIT && old(register).pc + 2
                <= u16::MAX,
            r is Err ==> *final(memory) == *old(memory) && *final(register) == *old(register),
            r is Err && old(memory).stack@.len() >= STACK_LIMIT ==> r == Err::<(), Chip8Error>(
                Chip8Error::StackOverflow,
            ),
            r is Err && old(memory).stack@.len() < STACK_LIMIT ==> r == Err::<(), Chip8Error>(
                Chip8Error::PcOverflow,
            ),
            r is Ok ==> {
                &&& final(memory).stack@ == old(memory).stack@.push(
                    (old(register).pc + 2) as u16,
                )
                &&& *final(register) == (Register { pc: self.address, ..*old(register) })
            },
    {
        if memory.stack.len() >= STACK_LIMIT {
            return Err(Chip8Error::StackOverflow);
        }
        if register.pc > u16::MAX - 2 {
            return Err(Chip8Error::PcOverflow);
        }
        memory.stack.push(register.pc + 2);
        register.pc = self.address;
        Ok(())
    }
}

/// 0xBNNN: jump to address NNN plus V0. NNN is at most 0xFFF and V0 at most
/// 0xFF, so the sum always fits in the program counter.
pub struct Opcode0xbnnn {
    pub address: u16,
}

impl Opcode0xbnnn {
    pub fn new(instruction: u16) -> (r: Opcode0xbnnn)
        ensures
            r.address == op_nnn(instruction),
            r.address < 0x1000,
    {
        proof {
            lemma_operand_bounds(instruction);
        }
        let address = instruction & 0x0FFF;
        Opcode0xbnnn { address }
    }

    #[allow(unused_variables)]
    pub fn execute(
        &self,
        memory: &mut Memory,
        register: &mut Register,
        graphic: &mut Graphic,
        key: Option<u8>,
    ) -> (r: Result<(), Chip8Error>)
        requires
            old(register).wf(),
            self.address < 0x1000,
        ensures
            *final(memory) == *old(memory),
            *final(graphic) == *old(graphic),
            r is Ok,
            *final(register) == (Register {
                pc: (self.address + old(register).v@[0]) as u16,
                ..*old(register)
            }),
    {
        let address = self.address + register.v[0] as u16;
        register.pc = address;
        Ok(())
    }
}

/// A 0x2NNN call followed by a 0x00EE return restores the machine: when a
/// call executes successfully from (`m0`, `r0`), its contract gives the
/// stack `m0.stack + [r0.pc + 2]`; when a return then executes successfully
/// on that stack, its contract pops the pushed address into the program
/// counter. The result is the address of the instruction after the call,
/// and the stack is back at its pre-call depth.
pub proof fn lemma_call_then_return(m0: Memory, r0: Register, m1: Memory, m2: Memory, r2: Register)
    requires
        r0.pc + 2 <= u16::MAX,
        m1.stack@ == m0.stack@.push((r0.pc + 2) as u16),
        m1.stack@.len() > 0,
        r2.pc == m1.stack@.last(),
        m2.stack@ == m1.stack@.drop_last(),
    ensures
        r2.pc == r0.pc + 2,
        m2.stack@ == m0.stack@,
        m2.stack@.len() == m0.stack@.len(),
{
    assert(m2.stack@ =~= m0.stack@);
}

} // verus!
