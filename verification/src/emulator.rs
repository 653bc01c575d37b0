//! The engine's public surface under one roof: the machine parts and the
//! keyboard mapping.

pub use crate::cpu::Cpu;
pub use crate::cpu::Keypad;
pub use crate::cpu::Register;
pub use crate::graphic::Graphic;
pub use crate::memory::Memory;
pub use crate::memory::FONT_BASE;
pub use crate::memory::FONT_LENGTH;
