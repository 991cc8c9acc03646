//! Instruction-level emulation of a MOS 6502-family CPU (NES variant).
//!
//! The crate decodes raw opcode bytes into mnemonic / addressing-mode pairs,
//! resolves operands against a byte-addressable memory bus, executes the
//! instruction semantics, and drives a fetch-decode-resolve-execute loop.
//! An iNES container loader validates ROM images and hands the core its
//! program bytes.

pub mod arith;
pub mod bus;
pub mod cpu;
pub mod errors;
pub mod instruction;
pub mod nes;
pub mod rom;
