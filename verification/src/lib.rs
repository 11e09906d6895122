pub mod consoles;
pub mod cpu;
pub mod filio;
pub mod instruction;
pub mod memory;
pub mod utils;
