//! A small register machine over 16-bit words.
//!
//! The machine has a 15-bit address space, eight registers, an unbounded
//! stack and byte-oriented console I/O. Every executable function here is
//! verified against a mathematical model of the machine: operand words
//! resolve to [`Address`] values, memory decodes to [`Instruction`] values, and
//! a [`VirtualMachine`] moves from one [`MachineState`] to the next exactly as
//! the model's step relation says.
//!
//! The library performs no I/O. [`VirtualMachine::step`] reports what the
//! host has to do (write a byte, read a line) as an [`Action`], and the host
//! hands input back through [`VirtualMachine::receive_line`].

pub mod address;
pub mod alu;
pub mod error;
pub mod image;
pub mod instruction;
pub mod laws;
pub mod machine;
pub mod state;
pub mod verbosity;

pub use address::Address;
pub use error::VmError;
pub use image::words_from_bytes;
pub use instruction::Instruction;
pub use machine::VirtualMachine;
pub use state::{Action, MachineState};
pub use verbosity::{log_level, LogLevel};
