//! Core of a cycle-stepped emulator for the 8-bit NES / Famicom console.
//!
//! The crate models the three interlocked machines of the console: the MOS
//! 6502 CPU with its documented and undocumented instruction set, the bus
//! that routes 16-bit addresses to work RAM, picture-processor registers and
//! cartridge ROM, and the picture processing unit that turns name, attribute,
//! pattern and palette data into a 256x240 RGBA frame. Every public
//! operation carries a contract that pins down the registers, memory and
//! flags it may touch.

pub mod sys;

use vstd::prelude::*;

verus! {

/// Parses an iNES cartridge image, exactly as `sys::rom::from_array` does.
pub fn load_cartridge(buf: &Vec<u8>) -> (r: Result<sys::rom::Rom, sys::rom::RomError>)
    ensures
        sys::rom::parse_ok(buf@, r),
{
    sys::rom::from_array(buf)
}

} // verus!
