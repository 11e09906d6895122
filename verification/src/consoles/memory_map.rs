use vstd::prelude::*;

verus! {

// The address map of the Game Boy, as first and last address of each region.
pub const ROM_BANK_00_START: usize = 0x0000;
pub const ROM_BANK_00_END: usize = 0x3FFF;
pub const ROM_BANK_1_N_START: usize = 0x4000;
pub const ROM_BANK_1_N_END: usize = 0x7FFF;
pub const VRAM_START: usize = 0x8000;
pub const VRAM_END: usize = 0x9FFF;
pub const EXTERNAL_RAM_START: usize = 0xA000;
pub const EXTERNAL_RAM_END: usize = 0xBFFF;
pub const WRAM_START: usize = 0xC000;
pub const WRAM_END: usize = 0xCFFF;
pub const EXTERNAL_WRAM_START: usize = 0xD000;
pub const EXTERNAL_WRAM_END: usize = 0xDFFF;
pub const ECHO_RAM_START: usize = 0xE000;
pub const ECHO_RAM_END: usize = 0xFDFF;
pub const OBJECT_ATTRIBUTE_MEMORY_START: usize = 0xFE00;
pub const OBJECT_ATTRIBUTE_MEMORY_END: usize = 0xFE9F;
pub const UNUSABLE_START: usize = 0xFEA0;
pub const UNUSABLE_END: usize = 0xFEFF;
pub const IO_REGISTERS_START: usize = 0xFF00;
pub const IO_REGISTERS_END: usize = 0xFF7F;
pub const H_RAM_START: usize = 0xFF80;
pub const H_RAM_END: usize = 0xFFFE;
pub const INTERRUPT_ENABLE_REGISTER: usize = 0xFFFF;

} // verus!
