//! A CHIP-8 virtual machine.
//!
//! [`Emu`] owns the whole machine: memory, registers, call stack, timers,
//! display and keypad. [`MachineState`] is its mathematical model, and every
//! operation of [`Emu`] is specified as a function on that model.

pub mod alu;
pub mod emu;
mod entropy;
pub mod font;
pub mod laws;
pub mod machine;
pub mod opcode;
mod sprite;

pub use emu::Emu;
pub use machine::{Fault, MachineState, SCREEN_HEIGHT, SCREEN_WIDTH};
