//! The console core: cartridge ROM, CPU, PPU, bus, and the system scheduler.

pub mod cpu;
pub mod memory_map;
pub mod ppu;
pub mod rom;
pub mod system;
