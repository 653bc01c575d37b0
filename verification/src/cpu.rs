use vstd::prelude::*;

use crate::error::Chip8Error;
use crate::graphic::Graphic;
use crate::instructions::decodes_to;
use crate::instructions::recognized;
use crate::instructions::word_of;
use crate::instructions::Instruction;
use crate::instructions::KeyDemand;
use crate::memory::Memory;
use crate::memory::MEMORY_SIZE;

verus! {

/// The register file: program counter, index register, the sixteen general
/// registers V0-VF, and the two byte timers. The timers are decremented
/// toward zero at a fixed real-time cadence by a driver that calls
/// `tick_timers`; instructions read and write them directly.
pub struct Register {
    pub pc: u16,
    pub i: u16,
    pub v: Vec<u8>,
    pub delay_timer: u8,
    pub sound_timer: u8,
}

impl Register {
    /// There are always exactly sixteen general registers.
    pub open spec fn wf(self) -> bool {
        self.v@.len() == 16
    }

    /// Power-on state: execution starts at 0x200 with every register and
    /// both timers at zero.
    pub fn new() -> (r: Register)
        ensures
            r.wf(),
            r.pc == 0x200,
            r.i == 0,
            r.delay_timer == 0,
            r.sound_timer == 0,
            forall|j: int| 0 <= j < 16 ==> r.v@[j] == 0,
    {
        let mut v: Vec<u8> = Vec::new();
        let mut j: usize = 0;
        while j < 16
            invariant
                j <= 16,
                v@.len() == j,
                forall|k: int| 0 <= k < j ==> v@[k] == 0,
            decreases 16 - j,
        {
            v.push(0);
            j = j + 1;
        }
        Register { pc: 0x200, i: 0, v, delay_timer: 0, sound_timer: 0 }
    }

    /// One timer tick: each timer that is above zero is decremented by one;
    /// a timer at zero stays at zero (no wraparound below zero). Nothing
    /// else changes.
    pub fn tick_timers(&mut self)
        ensures
            final(self).delay_timer == (if old(self).delay_timer > 0 {
                (old(self).delay_timer - 1) as u8
            } else {
                0u8
            }),
            final(self).sound_timer == (if old(self).sound_timer > 0 {
                (old(self).sound_timer - 1) as u8
            } else {
                0u8
            }),
            final(self).pc == old(self).pc,
            final(self).i == old(self).i,
            final(self).v@ == old(self).v@,
    {
        if self.delay_timer > 0 {
            self.delay_timer = self.delay_timer - 1;
        }
        if self.sound_timer > 0 {
            self.sound_timer = self.sound_timer - 1;
        }
    }
}

/// The nibble that a physical key maps to, following the standard 16-key
/// layout (1234 / qwer / asdf / zxcv); any other key maps to nothing and is
/// silently ignored.
pub open spec fn key_code(key: char) -> Option<u8> {
    if key == '1' {
        Some(0x1u8)
    } else if key == '2' {
        Some(0x2u8)
    } else if key == '3' {
        Some(0x3u8)
    } else if key == '4' {
        Some(0xcu8)
    } else if key == 'q' {
        Some(0x4u8)
    } else if key == 'w' {
        Some(0x5u8)
    } else if key == 'e' {
        Some(0x6u8)
    } else if key == 'r' {
        Some(0xdu8)
    } else if key == 'a' {
        Some(0x7u8)
    } else if key == 's' {
        Some(0x8u8)
    } else if key == 'd' {
        Some(0x9u8)
    } else if key == 'f' {
        Some(0xeu8)
    } else if key == 'z' {
        Some(0xau8)
    } else if key == 'x' {
        Some(0x0u8)
    } else if key == 'c' {
        Some(0xbu8)
    } else if key == 'v' {
        Some(0xfu8)
    } else {
        None
    }
}

/// The fixed keyboard mapping of the sixteen CHIP-8 keys.
pub struct Keypad;

impl Keypad {
    pub fn new() -> (r: Keypad) {
        Keypad
    }

    /// Map a physical key to its CHIP-8 nibble; unmapped keys give nothing.
    pub fn press(&self, key: char) -> (r: Option<u8>)
        ensures
            r == key_code(key),
    {
        match key {
            '1' => Some(0x1),
            '2' => Some(0x2),
            '3' => Some(0x3),
            '4' => Some(0xc),
            'q' => Some(0x4),
            'w' => Some(0x5),
            'e' => Some(0x6),
            'r' => Some(0xd),
            'a' => Some(0x7),
            's' => Some(0x8),
            'd' => Some(0x9),
            'f' => Some(0xe),
            'z' => Some(0xa),
            'x' => Some(0x0),
            'c' => Some(0xb),
            'v' => Some(0xf),
            _ => None,
        }
    }
}

/// The execution engine: the address space, the register file and the
/// framebuffer, driven one fetch-decode-execute cycle at a time. The driver
/// around it supplies key events, publishes framebuffer snapshots, ticks
/// the timers, and stops calling `step` when cancelled or when a fatal
/// error is reported.
pub struct Cpu {
    pub memory: Memory,
    pub register: Register,
    pub graphic: Graphic,
}

impl Cpu {
    pub open spec fn wf(self) -> bool {
        &&& self.memory.wf()
        &&& self.register.wf()
        &&& self.graphic.wf()
    }

    pub fn new(memory: Memory, register: Register, graphic: Graphic) -> (r: Cpu)
        ensures
            r.memory == memory,
            r.register == register,
            r.graphic == graphic,
    {
        Cpu { memory, register, graphic }
    }

    /// What the instruction at the program counter will want from the
    /// keyboard: nothing, a non-blocking poll, or a blocking wait. The
    /// driver asks this before each step so that only 0xFX0A ever blocks
    /// the loop. Fetch and decode errors surface here exactly as they
    /// would in the step itself; nothing is changed.
    pub fn key_demand(&self) -> (r: Result<KeyDemand, Chip8Error>)
        requires
            self.wf(),
        ensures
            ({
                let pc = self.register.pc;
                &&& (pc + 1 >= MEMORY_SIZE ==> r == Err::<KeyDemand, Chip8Error>(
                    Chip8Error::PcOutOfBounds,
                ))
                &&& (pc + 1 < MEMORY_SIZE ==> ({
                    let op = word_of(
                        self.memory.all@[pc as int],
                        self.memory.all@[pc as int + 1],
                    );
                    &&& (r is Ok <==> recognized(op))
                    &&& (r is Err ==> r == Err::<KeyDemand, Chip8Error>(
                        Chip8Error::UnknownOpcode,
                    ))
                    &&& (forall|i: Instruction| #[trigger]
                        decodes_to(op, i) ==> r == Ok::<KeyDemand, Chip8Error>(
                            i.spec_key_demand(),
                        ))
                }))
            }),
    {
        let bytes = match self.memory.read(self.register.pc) {
            Ok(bytes) => bytes,
            Err(e) => {
                return Err(e);
            },
        };
        let instruction = match Instruction::decode(bytes) {
            Ok(instruction) => instruction,
            Err(e) => {
                proof {
                    let pc = self.register.pc;
                    let op = word_of(
                        self.memory.all@[pc as int],
                        self.memory.all@[pc as int + 1],
                    );
                    assert forall|i: Instruction| !(#[trigger] decodes_to(op, i)) by {
                        if decodes_to(op, i) {
                            Instruction::lemma_decodes_to_recognized(op, i);
                        }
                    }
                }
                return Err(e);
            },
        };
        let demand = instruction.key_demand();
        proof {
            let pc = self.register.pc;
            let op = word_of(self.memory.all@[pc as int], self.memory.all@[pc as int + 1]);
            assert forall|i: Instruction| #[trigger] decodes_to(op, i) implies i.spec_key_demand()
                == instruction.spec_key_demand() by {
                Instruction::lemma_decode_agreement(
                    op,
                    i,
                    instruction,
                    self.memory,
                    self.register,
                    None,
                );
            }
        }
        Ok(demand)
    }

    /// One cycle: fetch the two bytes at the program counter, decode them,
    /// and execute the instruction with the supplied key event. Fetching
    /// past address 4095, an unrecognized opcode, or any fatal condition of
    /// the instruction itself is reported without changing anything. On
    /// success the machine has moved as `executes_to` says of a decoding of
    /// the fetched word (all decodings agree except on the byte a 0xCXKK
    /// draws), and the program counter has advanced by exactly 2, unless
    /// the instruction redirects it (jump, call, return) or skips (exactly
    /// 2 or 4).
    pub fn step(&mut self, key: Option<u8>) -> (r: Result<(), Chip8Error>)
        requires
            old(self).wf(),
        ensures
            final(self).wf(),
            r is Err ==> *final(self) == *old(self),
            ({
                let pc = old(self).register.pc;
                &&& (pc + 1 >= MEMORY_SIZE ==> r == Err::<(), Chip8Error>(
                    Chip8Error::PcOutOfBounds,
                ))
                &&& (pc + 1 < MEMORY_SIZE ==> ({
                    let op = word_of(
                        old(self).memory.all@[pc as int],
                        old(self).memory.all@[pc as int + 1],
                    );
                    &&& (!recognized(op) ==> r == Err::<(), Chip8Error>(
                        Chip8Error::UnknownOpcode,
                    ))
                    &&& (forall|i: Instruction| #[trigger]
                        decodes_to(op, i) ==> {
                            &&& (r is Ok <==> !i.fault(old(self).memory, old(self).register, key))
                            &&& (r is Ok && !i.is_jump() && !i.is_skip()
                                ==> final(self).register.pc == pc + 2)
                            &&& (r is Ok && i.is_skip() ==> final(self).register.pc == pc + 2
                                || final(self).register.pc == pc + 4)
                        })
                    &&& (r is Ok ==> exists|i: Instruction|
                        #[trigger] decodes_to(op, i) && i.executes_to(
                            old(self).memory,
                            old(self).register,
                            old(self).graphic,
                            key,
                            final(self).memory,
                            final(self).register,
                            final(self).graphic,
                        ))
                }))
            }),
    {
        let bytes = match self.memory.read(self.register.pc) {
            Ok(bytes) => bytes,
            Err(e) => {
                return Err(e);
            },
        };
        let instruction = match Instruction::decode(bytes) {
            Ok(instruction) => instruction,
            Err(e) => {
                proof {
                    let pc = old(self).register.pc;
                    let op = word_of(
                        old(self).memory.all@[pc as int],
                        old(self).memory.all@[pc as int + 1],
                    );
                    assert forall|i: Instruction| !(#[trigger] decodes_to(op, i)) by {
                        if decodes_to(op, i) {
                            Instruction::lemma_decodes_to_recognized(op, i);
                        }
                    }
                }
                return Err(e);
            },
        };
        let ghost pc = old(self).register.pc;
        let ghost op = word_of(
            old(self).memory.all@[pc as int],
            old(self).memory.all@[pc as int + 1],
        );
        let result = instruction.execute(
            &mut self.memory,
            &mut self.register,
            &mut self.graphic,
            key,
        );
        proof {
            assert forall|i: Instruction| #[trigger] decodes_to(op, i) implies i.fault(
                old(self).memory,
                old(self).register,
                key,
            ) == instruction.fault(old(self).memory, old(self).register, key) && i.is_jump()
                == instruction.is_jump() && i.is_skip() == instruction.is_skip() by {
                Instruction::lemma_decode_agreement(
                    op,
                    i,
                    instruction,
                    old(self).memory,
                    old(self).register,
                    key,
                );
            }
        }
        result
    }
}

} // verus!
