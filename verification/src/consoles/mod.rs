pub mod addressable;
pub mod bus;
pub mod cartridge;
pub mod console;
pub mod fake_cartridge;
pub mod gameboy;
pub mod memory;
pub mod memory_map;
pub mod readable;
pub mod writeable;
pub mod device;
