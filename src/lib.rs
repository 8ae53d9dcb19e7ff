//! An Intel 8080 core for the Space Invaders arcade board: memory, registers,
//! flags, the instruction engine, the shift-register peripheral and the input
//! ports, each with its behaviour stated and proved.

pub mod condition_flags;
pub mod core_error;
pub mod cpu;
pub mod instruction_set;
pub mod instructions;
pub mod io;
pub mod memory;
pub mod registers;
pub mod shift_register;

pub use condition_flags::ConditionFlags;
pub use core_error::CoreError;
pub use cpu::CPU;
pub use io::{ButtonState, Inputs};
pub use memory::Memory;
pub use registers::{RegisterPair, Registers};
pub use shift_register::ShiftRegister;
