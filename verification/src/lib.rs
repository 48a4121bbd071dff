//! An instruction-set simulator for the RV32I base integer architecture.
//!
//! A binary program image is loaded into a flat, bounds-checked memory;
//! the simulation loop then repeatedly fetches a 32-bit word at the program
//! counter, decodes it into a structured instruction, and executes it against
//! a register file and memory, until the machine halts or traps.

pub mod disasm;
pub mod exec;
pub mod hex;
pub mod machine;
pub mod memory;
pub mod register;
pub mod rv32i_decode;
pub mod sim;
