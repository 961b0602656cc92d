//! A verified interpreter for a small CHIP-8-style virtual CPU.
//!
//! The machine owns sixteen 8-bit registers, 4096 bytes of memory, and a
//! sixteen-slot call stack.  Programs are written straight into memory;
//! [`cpu::Cpu::run`] then fetches, decodes, and executes two-byte
//! instructions until a halt instruction or a fault.  The module
//! [`model`] gives the mathematical account of the machine that every
//! contract is stated against, and [`laws`] proves the laws of the
//! instruction set over that account.  The small [`file`] record is a
//! separate documentation example with no behaviour of its own.

pub mod cpu;
pub mod file;
pub mod laws;
pub mod model;
