//! A disassembler for iNES cartridge images that is guided by a code/data log.
//!
//! Every byte of program ROM is rendered as a machine instruction, as a data
//! literal or as an unclassified literal, according to the log an emulator
//! recorded while the cartridge ran. The result is source text for the WLA
//! assembler dialect: one top-level unit and one unit for each program bank.

pub use crate::bank::disassemble_prg_bank;
pub use crate::error::DisasmError;
pub use crate::rom::{disassemble, Disassembly};

pub mod address;
pub mod bank;
pub mod error;
pub mod opcode;
pub mod operand;
pub mod rom;
pub mod text;
pub mod theorems;
