//! A CHIP-8 execution engine: 4KB of addressable memory with a bounded call
//! stack, sixteen 8-bit registers, a 64x32 monochrome framebuffer with
//! XOR sprite blitting, and the full two-byte instruction set.

pub mod cpu;
pub mod emulator;
pub mod error;
pub mod instructions;
pub mod graphic;
pub mod memory;
