//! The error values the emulator can surface.
//!
//! Decode and execution faults are fatal to an emulation run: the core never
//! guesses at undefined-opcode behaviour. ROM-container faults are returned
//! to the caller, which reports them without crashing.

use vstd::prelude::*;

verus! {

/// Why an iNES container was rejected by the loader.
#[derive(Clone, Copy, Debug, PartialEq, Eq, Structural)]
pub enum RomFormatError {
    /// The file does not begin with the bytes `NES\x1A`.
    BadMagic,
    /// The file is shorter than its header claims.
    Truncated,
    /// The container carries a 512-byte trainer section, which is unsupported.
    TrainerPresent,
    /// The cartridge declares persistent memory, which is unsupported.
    PersistentMemory,
    /// The cartridge uses a mapper other than mapper 0.
    UnsupportedMapper,
    /// The header is in the extended container format, which is unsupported.
    ExtendedHeader,
    /// The program image does not fit the 64 KiB address space: a machine
    /// limit of this core, reported when a run is about to load the image.
    OversizedProgram,
}

/// A fatal fault inside the CPU core.
#[derive(Clone, Copy, Debug, PartialEq, Eq, Structural)]
pub enum EmuError {
    /// Decode met a byte with no mapped mnemonic and addressing mode.
    UnsupportedOpcode(u8),
    /// An instruction was handed an operand its semantics cannot use.
    UnsupportedAddressingMode,
    /// The ROM container was rejected before execution began.
    RomFormat(RomFormatError),
}

} // verus!
