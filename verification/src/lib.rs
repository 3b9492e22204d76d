//! A CHIP-8 virtual machine: opcode decoding and instruction semantics over a
//! fixed machine state, with every transition specified and verified.
//!
//! - `masks` slices an opcode into its fields.
//! - `instruction` decodes an opcode into an `Instruction` and encodes it
//!   back.
//! - `machine` is the mathematical model: the abstract state and what each
//!   instruction does to it. `sprite` holds the model of drawing.
//! - `interpreter` is the executable machine, proved to follow the model.
//! - `screen` and `input` are the machine's side of the display and the
//!   keyboard: lit pixels as squares, key codes as keypad keys.
//! - `theorems` states what holds of every state.

pub mod font;
pub mod input;
pub mod instruction;
pub mod interpreter;
pub mod machine;
pub mod masks;
pub mod screen;
pub mod sprite;
pub mod theorems;
