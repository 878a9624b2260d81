//! An emulator core for an 8-bit handheld console: processor, memory bus with cartridge
//! banking, pixel unit, timer and the interrupt logic that ties them together.

pub mod alu;
pub mod apu;
pub mod cart;
pub mod color;
pub mod cpu;
pub mod debugger;
pub mod dmg;
pub mod fault;
pub mod flags;
pub mod interconnect;
pub mod mem_map;
pub mod opcode;
pub mod ppu;
pub mod regs;
pub mod timer;
