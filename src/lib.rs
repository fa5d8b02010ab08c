pub mod addr;
pub mod util;
pub mod apu;
pub mod cart;
pub mod error;
pub mod mappers;
pub mod cpu;
pub mod ppu;
pub mod execution_state;
pub mod options;
pub mod system;
pub mod bus;
pub mod opcode_map;
pub mod opcode;
pub mod stack;
pub mod addressing;
pub mod execute;
pub mod font;
pub mod screen;
