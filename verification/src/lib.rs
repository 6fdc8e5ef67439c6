//! An interpreter for the CHIP-8 virtual machine, verified with Verus.
//!
//! [`chip8::Chip8`] holds the machine: 4096 bytes of memory, sixteen registers and two
//! timers, a call stack of sixteen addresses, a display of 64 by 32 pixels and a keyboard
//! that another thread feeds. [`chip8::Chip8::step`] fetches, decodes and executes one
//! instruction. What every instruction does is stated over [`chip8::machine::Machine`], the
//! machine as a mathematical value, and proved of the code.

pub mod chip8;
pub mod util;
