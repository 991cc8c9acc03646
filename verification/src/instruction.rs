//! Instruction mnemonics, addressing modes, and the opcode table.
//!
//! The opcode table is a total mapping from every byte value to either a
//! mnemonic / addressing-mode pair or an explicit unsupported marker for
//! illegal and undocumented opcodes. [`decode_table`] is the mathematical
//! table; [`Instruction::new`] is proved to agree with it on every byte.

use vstd::prelude::*;

use crate::errors::EmuError;

verus! {

/// The mnemonic identifying an instruction's operation.
#[allow(clippy::upper_case_acronyms)]
#[derive(Clone, Copy, Debug, PartialEq, Eq, Structural)]
pub enum Opcode {
    ADC,
    AND,
    ASL,
    BCC,
    BCS,
    BEQ,
    BIT,
    BMI,
    BNE,
    BPL,
    BRK,
    BVC,
    BVS,
    CLC,
    CLD,
    CLI,
    CLV,
    CMP,
    CPX,
    CPY,
    DEC,
    DEX,
    DEY,
    EOR,
    INC,
    INX,
    INY,
    JMP,
    JSR,
    LDA,
    LDX,
    LDY,
    LSR,
    NOP,
    ORA,
    PHA,
    PHP,
    PLA,
    PLP,
    ROL,
    ROR,
    RTI,
    RTS,
    SBC,
    SEC,
    SED,
    SEI,
    STA,
    STX,
    STY,
    TAX,
    TAY,
    TSX,
    TXA,
    TXS,
    TYA,
}

/// The rule for locating an instruction's operand.
#[derive(Clone, Copy, Debug, PartialEq, Eq, Structural)]
pub enum AddressMode {
    /// No operand: the instruction does not access memory (e.g. NOP).
    Implicit,
    /// The instruction operates directly on the contents of the accumulator.
    Accumulator,
    /// Single operand byte: a constant value to operate on.
    Immediate,
    /// Single operand byte: an address in the zero page ($0000-$00FF).
    ZeroPage,
    /// Zero-page address plus the X register, wrapping within the zero page.
    ZeroPageX,
    /// Zero-page address plus the Y register, wrapping within the zero page.
    ZeroPageY,
    /// Single operand byte: a signed offset applied to the program counter
    /// when a branch condition holds.
    Relative,
    /// Two operand bytes, least significant first, forming a 16-bit address.
    Absolute,
    /// Absolute address plus the X register.
    AbsoluteX,
    /// Absolute address plus the Y register.
    AbsoluteY,
    /// Two operand bytes form a pointer; the address to use is read from
    /// that pointer location, low byte first.
    Indirect,
    /// Operand byte plus the X register forms a zero-page pointer from which
    /// the address is read.
    IndexedIndirect,
    /// Operand byte is a zero-page pointer; the address read from it is
    /// offset by the Y register.
    IndirectIndexed,
}

/// A decoded instruction: an ephemeral mnemonic / addressing-mode pair.
#[derive(Clone, Copy, Debug, PartialEq, Eq, Structural)]
pub struct Instruction {
    pub opcode: Opcode,
    pub address_mode: AddressMode,
}

/// Shorthand for a table entry that maps to a documented instruction.
pub open spec fn known(opcode: Opcode, address_mode: AddressMode) -> Result<
    Instruction,
    EmuError,
> {
    Ok(Instruction { opcode, address_mode })
}

/// The opcode table: a total function from every byte value to a documented
/// `(Opcode, AddressMode)` pair or the unsupported-opcode marker.
pub open spec fn decode_table(byte: u8) -> Result<Instruction, EmuError> {
    match byte {
        0x00u8 => known(Opcode::BRK, AddressMode::Implicit),
        0x01u8 => known(Opcode::ORA, AddressMode::IndexedIndirect),
        0x05u8 => known(Opcode::ORA, AddressMode::ZeroPage),
        0x06u8 => known(Opcode::ASL, AddressMode::ZeroPage),
        0x08u8 => known(Opcode::PHP, AddressMode::Implicit),
        0x09u8 => known(Opcode::ORA, AddressMode::Immediate),
        0x0Au8 => known(Opcode::ASL, AddressMode::Accumulator),
        0x0Du8 => known(Opcode::ORA, AddressMode::Absolute),
        0x0Eu8 => known(Opcode::ASL, AddressMode::Absolute),
        0x10u8 => known(Opcode::BPL, AddressMode::Relative),
        0x11u8 => known(Opcode::ORA, AddressMode::IndirectIndexed),
        0x15u8 => known(Opcode::ORA, AddressMode::ZeroPageX),
        0x16u8 => known(Opcode::ASL, AddressMode::ZeroPageX),
        0x18u8 => known(Opcode::CLC, AddressMode::Implicit),
        0x19u8 => known(Opcode::ORA, AddressMode::AbsoluteY),
        0x1Du8 => known(Opcode::ORA, AddressMode::AbsoluteX),
        0x1Eu8 => known(Opcode::ASL, AddressMode::AbsoluteX),
        0x20u8 => known(Opcode::JSR, AddressMode::Absolute),
        0x21u8 => known(Opcode::AND, AddressMode::IndexedIndirect),
        0x24u8 => known(Opcode::BIT, AddressMode::ZeroPage),
        0x25u8 => known(Opcode::AND, AddressMode::ZeroPage),
        0x26u8 => known(Opcode::ROL, AddressMode::ZeroPage),
        0x28u8 => known(Opcode::PLP, AddressMode::Implicit),
        0x29u8 => known(Opcode::AND, AddressMode::Immediate),
        0x2Au8 => known(Opcode::ROL, AddressMode::Accumulator),
        0x2Cu8 => known(Opcode::BIT, AddressMode::Absolute),
        0x2Du8 => known(Opcode::AND, AddressMode::Absolute),
        0x2Eu8 => known(Opcode::ROL, AddressMode::Absolute),
        0x30u8 => known(Opcode::BMI, AddressMode::Relative),
        0x31u8 => known(Opcode::AND, AddressMode::IndirectIndexed),
        0x35u8 => known(Opcode::AND, AddressMode::ZeroPageX),
        0x36u8 => known(Opcode::ROL, AddressMode::ZeroPageX),
        0x38u8 => known(Opcode::SEC, AddressMode::Implicit),
        0x39u8 => known(Opcode::AND, AddressMode::AbsoluteY),
        0x3Du8 => known(Opcode::AND, AddressMode::AbsoluteX),
        0x3Eu8 => known(Opcode::ROL, AddressMode::AbsoluteX),
        0x40u8 => known(Opcode::RTI, AddressMode::Implicit),
        0x41u8 => known(Opcode::EOR, AddressMode::IndexedIndirect),
        0x45u8 => known(Opcode::EOR, AddressMode::ZeroPage),
        0x46u8 => known(Opcode::LSR, AddressMode::ZeroPage),
        0x48u8 => known(Opcode::PHA, AddressMode::Implicit),
        0x49u8 => known(Opcode::EOR, AddressMode::Immediate),
        0x4Au8 => known(Opcode::LSR, AddressMode::Accumulator),
        0x4Cu8 => known(Opcode::JMP, AddressMode::Absolute),
        0x4Du8 => known(Opcode::EOR, AddressMode::Absolute),
        0x4Eu8 => known(Opcode::LSR, AddressMode::Absolute),
        0x50u8 => known(Opcode::BVC, AddressMode::Relative),
        0x51u8 => known(Opcode::EOR, AddressMode::IndirectIndexed),
        0x55u8 => known(Opcode::EOR, AddressMode::ZeroPageX),
        0x56u8 => known(Opcode::LSR, AddressMode::ZeroPageX),
        0x58u8 => known(Opcode::CLI, AddressMode::Implicit),
        0x59u8 => known(Opcode::EOR, AddressMode::AbsoluteY),
        0x5Du8 => known(Opcode::EOR, AddressMode::AbsoluteX),
        0x5Eu8 => known(Opcode::LSR, AddressMode::AbsoluteX),
        0x60u8 => known(Opcode::RTS, AddressMode::Implicit),
        0x61u8 => known(Opcode::ADC, AddressMode::IndexedIndirect),
        0x65u8 => known(Opcode::ADC, AddressMode::ZeroPage),
        0x66u8 => known(Opcode::ROR, AddressMode::ZeroPage),
        0x68u8 => known(Opcode::PLA, AddressMode::Implicit),
        0x69u8 => known(Opcode::ADC, AddressMode::Immediate),
        0x6Au8 => known(Opcode::ROR, AddressMode::Accumulator),
        0x6Cu8 => known(Opcode::JMP, AddressMode::Indirect),
        0x6Du8 => known(Opcode::ADC, AddressMode::Absolute),
        0x6Eu8 => known(Opcode::ROR, AddressMode::Absolute),
        0x70u8 => known(Opcode::BVS, AddressMode::Relative),
        0x71u8 => known(Opcode::ADC, AddressMode::IndirectIndexed),
        0x75u8 => known(Opcode::ADC, AddressMode::ZeroPageX),
        0x76u8 => known(Opcode::ROR, AddressMode::ZeroPageX),
        0x78u8 => known(Opcode::SEI, AddressMode::Implicit),
        0x79u8 => known(Opcode::ADC, AddressMode::AbsoluteY),
        0x7Du8 => known(Opcode::ADC, AddressMode::AbsoluteX),
        0x7Eu8 => known(Opcode::ROR, AddressMode::AbsoluteX),
        0x81u8 => known(Opcode::STA, AddressMode::IndexedIndirect),
        0x84u8 => known(Opcode::STY, AddressMode::ZeroPage),
        0x85u8 => known(Opcode::STA, AddressMode::ZeroPage),
        0x86u8 => known(Opcode::STX, AddressMode::ZeroPage),
        0x88u8 => known(Opcode::DEY, AddressMode::Implicit),
        0x8Au8 => known(Opcode::TXA, AddressMode::Implicit),
        0x8Cu8 => known(Opcode::STY, AddressMode::Absolute),
        0x8Du8 => known(Opcode::STA, AddressMode::Absolute),
        0x8Eu8 => known(Opcode::STX, AddressMode::Absolute),
        0x90u8 => known(Opcode::BCC, AddressMode::Relative),
        0x91u8 => known(Opcode::STA, AddressMode::IndirectIndexed),
        0x94u8 => known(Opcode::STY, AddressMode::ZeroPageX),
        0x95u8 => known(Opcode::STA, AddressMode::ZeroPageX),
        0x96u8 => known(Opcode::STX, AddressMode::ZeroPageY),
        0x98u8 => known(Opcode::TYA, AddressMode::Implicit),
        0x99u8 => known(Opcode::STA, AddressMode::AbsoluteY),
        0x9Au8 => known(Opcode::TXS, AddressMode::Implicit),
        0x9Du8 => known(Opcode::STA, AddressMode::AbsoluteX),
        0xA0u8 => known(Opcode::LDY, AddressMode::Immediate),
        0xA1u8 => known(Opcode::LDA, AddressMode::IndexedIndirect),
        0xA2u8 => known(Opcode::LDX, AddressMode::Immediate),
        0xA4u8 => known(Opcode::LDY, AddressMode::ZeroPage),
        0xA5u8 => known(Opcode::LDA, AddressMode::ZeroPage),
        0xA6u8 => known(Opcode::LDX, AddressMode::ZeroPage),
        0xA8u8 => known(Opcode::TAY, AddressMode::Implicit),
        0xA9u8 => known(Opcode::LDA, AddressMode::Immediate),
        0xAAu8 => known(Opcode::TAX, AddressMode::Implicit),
        0xACu8 => known(Opcode::LDY, AddressMode::Absolute),
        0xADu8 => known(Opcode::LDA, AddressMode::Absolute),
        0xAEu8 => known(Opcode::LDX, AddressMode::Absolute),
        0xB0u8 => known(Opcode::BCS, AddressMode::Relative),
        0xB1u8 => known(Opcode::LDA, AddressMode::IndirectIndexed),
        0xB4u8 => known(Opcode::LDY, AddressMode::ZeroPageX),
        0xB5u8 => known(Opcode::LDA, AddressMode::ZeroPageX),
        0xB6u8 => known(Opcode::LDX, AddressMode::ZeroPageY),
        0xB8u8 => known(Opcode::CLV, AddressMode::Implicit),
        0xB9u8 => known(Opcode::LDA, AddressMode::AbsoluteY),
        0xBAu8 => known(Opcode::TSX, AddressMode::Implicit),
        0xBCu8 => known(Opcode::LDY, AddressMode::AbsoluteX),
        0xBDu8 => known(Opcode::LDA, AddressMode::AbsoluteX),
        0xBEu8 => known(Opcode::LDX, AddressMode::AbsoluteY),
        0xC0u8 => known(Opcode::CPY, AddressMode::Immediate),
        0xC1u8 => known(Opcode::CMP, AddressMode::IndexedIndirect),
        0xC4u8 => known(Opcode::CPY, AddressMode::ZeroPage),
        0xC5u8 => known(Opcode::CMP, AddressMode::ZeroPage),
        0xC6u8 => known(Opcode::DEC, AddressMode::ZeroPage),
        0xC8u8 => known(Opcode::INY, AddressMode::Implicit),
        0xC9u8 => known(Opcode::CMP, AddressMode::Immediate),
        0xCAu8 => known(Opcode::DEX, AddressMode::Implicit),
        0xCCu8 => known(Opcode::CPY, AddressMode::Absolute),
        0xCDu8 => known(Opcode::CMP, AddressMode::Absolute),
        0xCEu8 => known(Opcode::DEC, AddressMode::Absolute),
        0xD0u8 => known(Opcode::BNE, AddressMode::Relative),
        0xD1u8 => known(Opcode::CMP, AddressMode::IndirectIndexed),
        0xD5u8 => known(Opcode::CMP, AddressMode::ZeroPageX),
        0xD6u8 => known(Opcode::DEC, AddressMode::ZeroPageX),
        0xD8u8 => known(Opcode::CLD, AddressMode::Implicit),
        0xD9u8 => known(Opcode::CMP, AddressMode::AbsoluteY),
        0xDDu8 => known(Opcode::CMP, AddressMode::AbsoluteX),
        0xDEu8 => known(Opcode::DEC, AddressMode::AbsoluteX),
        0xE0u8 => known(Opcode::CPX, AddressMode::Immediate),
        0xE1u8 => known(Opcode::SBC, AddressMode::IndexedIndirect),
        0xE4u8 => known(Opcode::CPX, AddressMode::ZeroPage),
        0xE5u8 => known(Opcode::SBC, AddressMode::ZeroPage),
        0xE6u8 => known(Opcode::INC, AddressMode::ZeroPage),
        0xE8u8 => known(Opcode::INX, AddressMode::Implicit),
        0xE9u8 => known(Opcode::SBC, AddressMode::Immediate),
        0xEAu8 => known(Opcode::NOP, AddressMode::Implicit),
        0xECu8 => known(Opcode::CPX, AddressMode::Absolute),
        0xEDu8 => known(Opcode::SBC, AddressMode::Absolute),
        0xEEu8 => known(Opcode::INC, AddressMode::Absolute),
        0xF0u8 => known(Opcode::BEQ, AddressMode::Relative),
        0xF1u8 => known(Opcode::SBC, AddressMode::IndirectIndexed),
        0xF5u8 => known(Opcode::SBC, AddressMode::ZeroPageX),
        0xF6u8 => known(Opcode::INC, AddressMode::ZeroPageX),
        0xF8u8 => known(Opcode::SED, AddressMode::Implicit),
        0xF9u8 => known(Opcode::SBC, AddressMode::AbsoluteY),
        0xFDu8 => known(Opcode::SBC, AddressMode::AbsoluteX),
        0xFEu8 => known(Opcode::INC, AddressMode::AbsoluteX),
        _ => Err(EmuError::UnsupportedOpcode(byte)),
    }
}

impl Instruction {
    /// Shorthand for a successful decode.
    fn known(opcode: Opcode, address_mode: AddressMode) -> (r: Result<
        Instruction,
        EmuError,
    >)
        ensures
            r == known(opcode, address_mode),
    {
        Ok(Instruction { opcode, address_mode })
    }

    /// Decode one raw opcode byte against the opcode table.
    ///
    /// Total over all 256 byte values: every byte yields either its
    /// documented mnemonic / addressing-mode pair or the unsupported-opcode
    /// marker carrying the offending byte; no byte is misdecoded.
    pub fn new(byte: u8) -> (r: Result<Instruction, EmuError>)
        ensures
            r == decode_table(byte),
    {
        match byte {
            0x00 => Self::known(Opcode::BRK, AddressMode::Implicit),
            0x01 => Self::known(Opcode::ORA, AddressMode::IndexedIndirect),
            0x05 => Self::known(Opcode::ORA, AddressMode::ZeroPage),
            0x06 => Self::known(Opcode::ASL, AddressMode::ZeroPage),
            0x08 => Self::known(Opcode::PHP, AddressMode::Implicit),
            0x09 => Self::known(Opcode::ORA, AddressMode::Immediate),
            0x0A => Self::known(Opcode::ASL, AddressMode::Accumulator),
            0x0D => Self::known(Opcode::ORA, AddressMode::Absolute),
            0x0E => Self::known(Opcode::ASL, AddressMode::Absolute),
            0x10 => Self::known(Opcode::BPL, AddressMode::Relative),
            0x11 => Self::known(Opcode::ORA, AddressMode::IndirectIndexed),
            0x15 => Self::known(Opcode::ORA, AddressMode::ZeroPageX),
            0x16 => Self::known(Opcode::ASL, AddressMode::ZeroPageX),
            0x18 => Self::known(Opcode::CLC, AddressMode::Implicit),
            0x19 => Self::known(Opcode::ORA, AddressMode::AbsoluteY),
            0x1D => Self::known(Opcode::ORA, AddressMode::AbsoluteX),
            0x1E => Self::known(Opcode::ASL, AddressMode::AbsoluteX),
            0x20 => Self::known(Opcode::JSR, AddressMode::Absolute),
            0x21 => Self::known(Opcode::AND, AddressMode::IndexedIndirect),
            0x24 => Self::known(Opcode::BIT, AddressMode::ZeroPage),
            0x25 => Self::known(Opcode::AND, AddressMode::ZeroPage),
            0x26 => Self::known(Opcode::ROL, AddressMode::ZeroPage),
            0x28 => Self::known(Opcode::PLP, AddressMode::Implicit),
            0x29 => Self::known(Opcode::AND, AddressMode::Immediate),
            0x2A => Self::known(Opcode::ROL, AddressMode::Accumulator),
            0x2C => Self::known(Opcode::BIT, AddressMode::Absolute),
            0x2D => Self::known(Opcode::AND, AddressMode::Absolute),
            0x2E => Self::known(Opcode::ROL, AddressMode::Absolute),
            0x30 => Self::known(Opcode::BMI, AddressMode::Relative),
            0x31 => Self::known(Opcode::AND, AddressMode::IndirectIndexed),
            0x35 => Self::known(Opcode::AND, AddressMode::ZeroPageX),
            0x36 => Self::known(Opcode::ROL, AddressMode::ZeroPageX),
            0x38 => Self::known(Opcode::SEC, AddressMode::Implicit),
            0x39 => Self::known(Opcode::AND, AddressMode::AbsoluteY),
            0x3D => Self::known(Opcode::AND, AddressMode::AbsoluteX),
            0x3E => Self::known(Opcode::ROL, AddressMode::AbsoluteX),
            0x40 => Self::known(Opcode::RTI, AddressMode::Implicit),
            0x41 => Self::known(Opcode::EOR, AddressMode::IndexedIndirect),
            0x45 => Self::known(Opcode::EOR, AddressMode::ZeroPage),
            0x46 => Self::known(Opcode::LSR, AddressMode::ZeroPage),
            0x48 => Self::known(Opcode::PHA, AddressMode::Implicit),
            0x49 => Self::known(Opcode::EOR, AddressMode::Immediate),
            0x4A => Self::known(Opcode::LSR, AddressMode::Accumulator),
            0x4C => Self::known(Opcode::JMP, AddressMode::Absolute),
            0x4D => Self::known(Opcode::EOR, AddressMode::Absolute),
            0x4E => Self::known(Opcode::LSR, AddressMode::Absolute),
            0x50 => Self::known(Opcode::BVC, AddressMode::Relative),
            0x51 => Self::known(Opcode::EOR, AddressMode::IndirectIndexed),
            0x55 => Self::known(Opcode::EOR, AddressMode::ZeroPageX),
            0x56 => Self::known(Opcode::LSR, AddressMode::ZeroPageX),
            0x58 => Self::known(Opcode::CLI, AddressMode::Implicit),
            0x59 => Self::known(Opcode::EOR, AddressMode::AbsoluteY),
            0x5D => Self::known(Opcode::EOR, AddressMode::AbsoluteX),
            0x5E => Self::known(Opcode::LSR, AddressMode::AbsoluteX),
            0x60 => Self::known(Opcode::RTS, AddressMode::Implicit),
            0x61 => Self::known(Opcode::ADC, AddressMode::IndexedIndirect),
            0x65 => Self::known(Opcode::ADC, AddressMode::ZeroPage),
            0x66 => Self::known(Opcode::ROR, AddressMode::ZeroPage),
            0x68 => Self::known(Opcode::PLA, AddressMode::Implicit),
            0x69 => Self::known(Opcode::ADC, AddressMode::Immediate),
            0x6A => Self::known(Opcode::ROR, AddressMode::Accumulator),
            0x6C => Self::known(Opcode::JMP, AddressMode::Indirect),
            0x6D => Self::known(Opcode::ADC, AddressMode::Absolute),
            0x6E => Self::known(Opcode::ROR, AddressMode::Absolute),
            0x70 => Self::known(Opcode::BVS, AddressMode::Relative),
            0x71 => Self::known(Opcode::ADC, AddressMode::IndirectIndexed),
            0x75 => Self::known(Opcode::ADC, AddressMode::ZeroPageX),
            0x76 => Self::known(Opcode::ROR, AddressMode::ZeroPageX),
            0x78 => Self::known(Opcode::SEI, AddressMode::Implicit),
            0x79 => Self::known(Opcode::ADC, AddressMode::AbsoluteY),
            0x7D => Self::known(Opcode::ADC, AddressMode::AbsoluteX),
            0x7E => Self::known(Opcode::ROR, AddressMode::AbsoluteX),
            0x81 => Self::known(Opcode::STA, AddressMode::IndexedIndirect),
            0x84 => Self::known(Opcode::STY, AddressMode::ZeroPage),
            0x85 => Self::known(Opcode::STA, AddressMode::ZeroPage),
            0x86 => Self::known(Opcode::STX, AddressMode::ZeroPage),
            0x88 => Self::known(Opcode::DEY, AddressMode::Implicit),
            0x8A => Self::known(Opcode::TXA, AddressMode::Implicit),
            0x8C => Self::known(Opcode::STY, AddressMode::Absolute),
            0x8D => Self::known(Opcode::STA, AddressMode::Absolute),
            0x8E => Self::known(Opcode::STX, AddressMode::Absolute),
            0x90 => Self::known(Opcode::BCC, AddressMode::Relative),
            0x91 => Self::known(Opcode::STA, AddressMode::IndirectIndexed),
            0x94 => Self::known(Opcode::STY, AddressMode::ZeroPageX),
            0x95 => Self::known(Opcode::STA, AddressMode::ZeroPageX),
            0x96 => Self::known(Opcode::STX, AddressMode::ZeroPageY),
            0x98 => Self::known(Opcode::TYA, AddressMode::Implicit),
            0x99 => Self::known(Opcode::STA, AddressMode::AbsoluteY),
            0x9A => Self::known(Opcode::TXS, AddressMode::Implicit),
            0x9D => Self::known(Opcode::STA, AddressMode::AbsoluteX),
            0xA0 => Self::known(Opcode::LDY, AddressMode::Immediate),
            0xA1 => Self::known(Opcode::LDA, AddressMode::IndexedIndirect),
            0xA2 => Self::known(Opcode::LDX, AddressMode::Immediate),
            0xA4 => Self::known(Opcode::LDY, AddressMode::ZeroPage),
            0xA5 => Self::known(Opcode::LDA, AddressMode::ZeroPage),
            0xA6 => Self::known(Opcode::LDX, AddressMode::ZeroPage),
            0xA8 => Self::known(Opcode::TAY, AddressMode::Implicit),
            0xA9 => Self::known(Opcode::LDA, AddressMode::Immediate),
            0xAA => Self::known(Opcode::TAX, AddressMode::Implicit),
            0xAC => Self::known(Opcode::LDY, AddressMode::Absolute),
            0xAD => Self::known(Opcode::LDA, AddressMode::Absolute),
            0xAE => Self::known(Opcode::LDX, AddressMode::Absolute),
            0xB0 => Self::known(Opcode::BCS, AddressMode::Relative),
            0xB1 => Self::known(Opcode::LDA, AddressMode::IndirectIndexed),
            0xB4 => Self::known(Opcode::LDY, AddressMode::ZeroPageX),
            0xB5 => Self::known(Opcode::LDA, AddressMode::ZeroPageX),
            0xB6 => Self::known(Opcode::LDX, AddressMode::ZeroPageY),
            0xB8 => Self::known(Opcode::CLV, AddressMode::Implicit),
            0xB9 => Self::known(Opcode::LDA, AddressMode::AbsoluteY),
            0xBA => Self::known(Opcode::TSX, AddressMode::Implicit),
            0xBC => Self::known(Opcode::LDY, AddressMode::AbsoluteX),
            0xBD => Self::known(Opcode::LDA, AddressMode::AbsoluteX),
            0xBE => Self::known(Opcode::LDX, AddressMode::AbsoluteY),
            0xC0 => Self::known(Opcode::CPY, AddressMode::Immediate),
            0xC1 => Self::known(Opcode::CMP, AddressMode::IndexedIndirect),
            0xC4 => Self::known(Opcode::CPY, AddressMode::ZeroPage),
            0xC5 => Self::known(Opcode::CMP, AddressMode::ZeroPage),
            0xC6 => Self::known(Opcode::DEC, AddressMode::ZeroPage),
            0xC8 => Self::known(Opcode::INY, AddressMode::Implicit),
            0xC9 => Self::known(Opcode::CMP, AddressMode::Immediate),
            0xCA => Self::known(Opcode::DEX, AddressMode::Implicit),
            0xCC => Self::known(Opcode::CPY, AddressMode::Absolute),
            0xCD => Self::known(Opcode::CMP, AddressMode::Absolute),
            0xCE => Self::known(Opcode::DEC, AddressMode::Absolute),
            0xD0 => Self::known(Opcode::BNE, AddressMode::Relative),
            0xD1 => Self::known(Opcode::CMP, AddressMode::IndirectIndexed),
            0xD5 => Self::known(Opcode::CMP, AddressMode::ZeroPageX),
            0xD6 => Self::known(Opcode::DEC, AddressMode::ZeroPageX),
            0xD8 => Self::known(Opcode::CLD, AddressMode::Implicit),
            0xD9 => Self::known(Opcode::CMP, AddressMode::AbsoluteY),
            0xDD => Self::known(Opcode::CMP, AddressMode::AbsoluteX),
            0xDE => Self::known(Opcode::DEC, AddressMode::AbsoluteX),
            0xE0 => Self::known(Opcode::CPX, AddressMode::Immediate),
            0xE1 => Self::known(Opcode::SBC, AddressMode::IndexedIndirect),
            0xE4 => Self::known(Opcode::CPX, AddressMode::ZeroPage),
            0xE5 => Self::known(Opcode::SBC, AddressMode::ZeroPage),
            0xE6 => Self::known(Opcode::INC, AddressMode::ZeroPage),
            0xE8 => Self::known(Opcode::INX, AddressMode::Implicit),
            0xE9 => Self::known(Opcode::SBC, AddressMode::Immediate),
            0xEA => Self::known(Opcode::NOP, AddressMode::Implicit),
            0xEC => Self::known(Opcode::CPX, AddressMode::Absolute),
            0xED => Self::known(Opcode::SBC, AddressMode::Absolute),
            0xEE => Self::known(Opcode::INC, AddressMode::Absolute),
            0xF0 => Self::known(Opcode::BEQ, AddressMode::Relative),
            0xF1 => Self::known(Opcode::SBC, AddressMode::IndirectIndexed),
            0xF5 => Self::known(Opcode::SBC, AddressMode::ZeroPageX),
            0xF6 => Self::known(Opcode::INC, AddressMode::ZeroPageX),
            0xF8 => Self::known(Opcode::SED, AddressMode::Implicit),
            0xF9 => Self::known(Opcode::SBC, AddressMode::AbsoluteY),
            0xFD => Self::known(Opcode::SBC, AddressMode::AbsoluteX),
            0xFE => Self::known(Opcode::INC, AddressMode::AbsoluteX),
            _ => Err(EmuError::UnsupportedOpcode(byte)),
        }
    }
}

/// The opcode table errs only with the unsupported-opcode marker carrying
/// the byte it was asked about.
pub proof fn lemma_decode_err_shape(byte: u8)
    ensures
        decode_table(byte) is Err ==> decode_table(byte) == Err::<Instruction, EmuError>(
            EmuError::UnsupportedOpcode(byte),
        ),
{
}

} // verus!
