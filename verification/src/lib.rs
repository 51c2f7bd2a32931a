//! A CHIP-8 virtual machine: memory, registers, call stack, timers,
//! framebuffer and keypad, driven one instruction at a time.
//!
//! [`machine::Machine`] is the mathematical model of the state and gives
//! every instruction its meaning; [`processor::Chip8`] is the executable
//! machine, proved to follow the model; [`laws`] holds theorems about the
//! model. [`display`], [`keypad`] and [`memory`] hold the parts that the
//! machine is built from, and [`pacing`] turns elapsed time into the
//! number of cycles and timer ticks that a host owes the machine.

pub mod display;
pub mod error;
pub mod font;
pub mod instruction;
pub mod keypad;
pub mod laws;
pub mod machine;
pub mod memory;
pub mod pacing;
pub mod processor;
mod random;

pub use crate::error::{Fault, LoadError};
pub use crate::instruction::{decode, Instruction};
pub use crate::processor::Chip8;
