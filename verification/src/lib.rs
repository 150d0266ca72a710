//! Core of a Game Boy (DMG) emulator: register file, memory bus, CPU
//! interpreter and pixel-processing unit, each with a verified contract.

pub mod alu;
pub mod bits;
pub mod cpu;
pub mod device;
pub mod display;
pub mod identities;
pub mod instructions;
pub mod memory;
pub mod ppu;
pub mod registers;
pub mod video;
