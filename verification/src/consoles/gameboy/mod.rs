pub mod cpu;
pub mod game_boy;
pub mod gbcartridge;
pub mod instruction;
pub mod memory;
pub mod opcode;
pub mod registers;
pub mod target;
