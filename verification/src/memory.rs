use vstd::prelude::*;

use crate::error::Chip8Error;

verus! {

/// Lowest address of the built-in font table.
pub const FONT_BASE: usize = 0;

/// Number of bytes per font glyph.
pub const FONT_LENGTH: usize = 5;

/// Lowest address at which a ROM image is placed.
pub const ROM_BASE: usize = 0x200;

/// Size of the address space in bytes.
pub const MEMORY_SIZE: usize = 4096;

/// Maximum number of return addresses the call stack may hold.
pub const STACK_LIMIT: usize = 16;

/// The 80-byte font table: sixteen 5-byte glyphs for the hex digits 0-F,
/// placed at the bottom of memory when a `Memory` is built.
pub open spec fn font_table() -> Seq<u8> {
    seq![
        0xf0u8, 0x90, 0x90, 0x90, 0xf0, // 0
        0x20, 0x60, 0x20, 0x20, 0x70, // 1
        0xf0, 0x10, 0xf0, 0x80, 0xf0, // 2
        0xf0, 0x10, 0xf0, 0x10, 0xf0, // 3
        0x90, 0x90, 0xf0, 0x10, 0x10, // 4
        0xf0, 0x80, 0xf0, 0x10, 0x10, // 5
        0xf0, 0x80, 0xf0, 0x90, 0xf0, // 6
        0xf0, 0x10, 0x20, 0x40, 0x40, // 7
        0xf0, 0x90, 0xf0, 0x90, 0xf0, // 8
        0xf0, 0x90, 0xf0, 0x10, 0xf0, // 9
        0xf0, 0x90, 0xf0, 0x90, 0x90, // A
        0xe0, 0x90, 0xe0, 0x90, 0xe0, // B
        0xf0, 0x80, 0x80, 0x80, 0xf0, // C
        0xe0, 0x90, 0x90, 0x90, 0xe0, // D
        0xf0, 0x80, 0xf0, 0x80, 0xf0, // E
        0xf0, 0x80, 0xf0, 0x80, 0x80, // F
    ]
}

/// The 4096-byte address space together with the call stack.
///
/// Addresses 0x000-0x04F hold the font table; a ROM image is copied in at
/// 0x200. The call stack holds at most sixteen return addresses; the
/// instructions that push and pop treat a deeper push or an empty pop as
/// fatal.
pub struct Memory {
    pub all: Vec<u8>,
    pub stack: Vec<u16>,
}

impl Memory {
    /// The address space always spans exactly 4096 bytes and the call stack
    /// never exceeds sixteen entries.
    pub open spec fn wf(self) -> bool {
        &&& self.all@.len() == MEMORY_SIZE
        &&& self.stack@.len() <= STACK_LIMIT as int
    }

    /// Fresh memory: the font table at the bottom, zeroes everywhere else,
    /// and an empty call stack.
    pub fn new() -> (r: Memory)
        ensures
            r.wf(),
            r.stack@ == Seq::<u16>::empty(),
            forall|a: int| 0 <= a < 80 ==> r.all@[a] == font_table()[a],
            forall|a: int| 80 <= a < MEMORY_SIZE ==> r.all@[a] == 0,
    {
        let fonts: [u8; 80] = [
            0xf0, 0x90, 0x90, 0x90, 0xf0, // 0
            0x20, 0x60, 0x20, 0x20, 0x70, // 1
            0xf0, 0x10, 0xf0, 0x80, 0xf0, // 2
            0xf0, 0x10, 0xf0, 0x10, 0xf0, // 3
            0x90, 0x90, 0xf0, 0x10, 0x10, // 4
            0xf0, 0x80, 0xf0, 0x10, 0x10, // 5
            0xf0, 0x80, 0xf0, 0x90, 0xf0, // 6
            0xf0, 0x10, 0x20, 0x40, 0x40, // 7
            0xf0, 0x90, 0xf0, 0x90, 0xf0, // 8
            0xf0, 0x90, 0xf0, 0x10, 0xf0, // 9
            0xf0, 0x90, 0xf0, 0x90, 0x90, // A
            0xe0, 0x90, 0xe0, 0x90, 0xe0, // B
            0xf0, 0x80, 0x80, 0x80, 0xf0, // C
            0xe0, 0x90, 0x90, 0x90, 0xe0, // D
            0xf0, 0x80, 0xf0, 0x80, 0xf0, // E
            0xf0, 0x80, 0xf0, 0x80, 0x80, // F
        ];
        proof {
            assert(fonts@ =~= font_table());
        }
        let mut all: Vec<u8> = Vec::new();
        let mut a: usize = 0;
        while a < 80
            invariant
                a <= 80,
                fonts@ == font_table(),
                all@.len() == a,
                forall|j: int| 0 <= j < a ==> all@[j] == font_table()[j],
            decreases 80 - a,
        {
            all.push(fonts[a]);
            a = a + 1;
        }
        while a < MEMORY_SIZE
            invariant
                80 <= a <= MEMORY_SIZE,
                all@.len() == a,
                forall|j: int| 0 <= j < 80 ==> all@[j] == font_table()[j],
                forall|j: int| 80 <= j < a ==> all@[j] == 0,
            decreases MEMORY_SIZE - a,
        {
            all.push(0);
            a = a + 1;
        }
        Memory { all, stack: Vec::new() }
    }

    /// Copy a ROM image into memory starting at 0x200; rejected when the
    /// image does not fit in the remaining space.
    pub fn load(&mut self, rom: &Vec<u8>) -> (r: Result<(), Chip8Error>)
        requires
            old(self).wf(),
        ensures
            final(self).wf(),
            final(self).stack@ == old(self).stack@,
            r is Ok <==> rom@.len() <= MEMORY_SIZE - ROM_BASE,
            r is Err ==> r == Err::<(), Chip8Error>(Chip8Error::RomTooLarge)
                && *final(self) == *old(self),
            r is Ok ==> {
                &&& forall|a: int|
                    0 <= a < ROM_BASE ==> final(self).all@[a] == old(self).all@[a]
                &&& forall|a: int|
                    0 <= a < rom@.len() ==> final(self).all@[ROM_BASE + a] == rom@[a]
                &&& forall|a: int|
                    ROM_BASE + rom@.len() <= a < MEMORY_SIZE
                        ==> final(self).all@[a] == old(self).all@[a]
            },
    {
        if rom.len() > MEMORY_SIZE - ROM_BASE {
            return Err(Chip8Error::RomTooLarge);
        }
        let mut k: usize = 0;
        while k < rom.len()
            invariant
                self.wf(),
                self.stack@ == old(self).stack@,
                k <= rom@.len(),
                rom@.len() <= MEMORY_SIZE - ROM_BASE,
                forall|a: int| 0 <= a < ROM_BASE ==> self.all@[a] == old(self).all@[a],
                forall|a: int| 0 <= a < k ==> self.all@[ROM_BASE + a] == rom@[a],
                forall|a: int|
                    ROM_BASE + k <= a < MEMORY_SIZE ==> self.all@[a] == old(self).all@[a],
            decreases rom@.len() - k,
        {
            self.all.set(ROM_BASE + k, rom[k]);
            k = k + 1;
        }
        Ok(())
    }

    /// Fetch the two instruction bytes at `program_counter`, high byte first;
    /// rejected when the second byte would lie beyond address 4095.
    pub fn read(&self, program_counter: u16) -> (r: Result<[u8; 2], Chip8Error>)
        requires
            self.wf(),
        ensures
            r is Ok <==> program_counter + 1 < MEMORY_SIZE,
            r is Err ==> r == Err::<[u8; 2], Chip8Error>(Chip8Error::PcOutOfBounds),
            r is Ok ==> r->Ok_0@ =~= seq![
                self.all@[program_counter as int],
                self.all@[program_counter as int + 1],
            ],
    {
        let s = program_counter as usize;
        if s + 1 >= MEMORY_SIZE {
            return Err(Chip8Error::PcOutOfBounds);
        }
        Ok([self.all[s], self.all[s + 1]])
    }
}

} // verus!
