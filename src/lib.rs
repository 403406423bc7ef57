//! A virtual machine for the classic 8-bit interpreted instruction set with
//! 4 KiB of memory, sixteen byte registers, a twelve-deep call stack and a
//! 64x32 monochrome display.

pub mod cycle;
pub mod execute;
pub mod instruction;
pub mod keypad;
pub mod laws;
pub mod machine;
mod random;

pub use execute::Flow;
pub use instruction::{decode, Instruction};
pub use keypad::keypad_index;
pub use machine::{
    Chip8State, Fault, FaultKind, Machine, FONT_SIZE, MEMORY_SIZE, PROGRAM_START, REGISTER_COUNT,
    SCREEN_CELLS, SCREEN_HEIGHT, SCREEN_WIDTH, STACK_CAPACITY,
};
