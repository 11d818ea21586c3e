//! The opcode table: which mnemonic and which addressing mode each opcode
//! byte selects.
//!
//! The table is stated twice, from two sides. The specification groups the
//! opcodes by mnemonic and, separately, by addressing mode. The executable
//! lookup goes through the opcodes one by one. Verus checks that the two
//! agree on all 256 bytes.

use vstd::prelude::*;

use crate::machine::addressing::AddressingMode;

verus! {

/// The byte that decodes to the halt marker.
pub const HALT_OPCODE: u8 = 0xFF;

/// The symbolic names of the instructions.
#[derive(Clone, Copy, Debug, PartialEq, Eq)]
pub enum Mnemonic {
    /// Add with carry.
    ADC,
    /// Bitwise and.
    AND,
    /// Arithmetic shift left.
    ASL,
    /// Branch if carry clear.
    BCC,
    /// Branch if carry set.
    BCS,
    /// Branch if equal.
    BEQ,
    /// Bit test.
    BIT,
    /// Branch if minus.
    BMI,
    /// Branch if not equal.
    BNE,
    /// Branch if plus.
    BPL,
    /// Break.
    BRK,
    /// Branch if overflow clear.
    BVC,
    /// Branch if overflow set.
    BVS,
    /// Clear carry.
    CLC,
    /// Clear decimal.
    CLD,
    /// Clear interrupt disable.
    CLI,
    /// Clear overflow.
    CLV,
    /// Compare accumulator.
    CMP,
    /// Compare X.
    CPX,
    /// Compare Y.
    CPY,
    /// Decrement memory.
    DEC,
    /// Decrement X.
    DEX,
    /// Decrement Y.
    DEY,
    /// Bitwise exclusive or.
    EOR,
    /// Increment memory.
    INC,
    /// Increment X.
    INX,
    /// Increment Y.
    INY,
    /// Jump.
    JMP,
    /// Jump to subroutine.
    JSR,
    /// Load accumulator.
    LDA,
    /// Load X.
    LDX,
    /// Load Y.
    LDY,
    /// Logical shift right.
    LSR,
    /// No operation.
    NOP,
    /// Bitwise or.
    ORA,
    /// Push accumulator.
    PHA,
    /// Push status.
    PHP,
    /// Pull accumulator.
    PLA,
    /// Pull status.
    PLP,
    /// Rotate left.
    ROL,
    /// Rotate right.
    ROR,
    /// Return from interrupt.
    RTI,
    /// Return from subroutine.
    RTS,
    /// Subtract with carry.
    SBC,
    /// Set carry.
    SEC,
    /// Set decimal.
    SED,
    /// Set interrupt disable.
    SEI,
    /// Store accumulator.
    STA,
    /// Store X.
    STX,
    /// Store Y.
    STY,
    /// Transfer accumulator to X.
    TAX,
    /// Transfer accumulator to Y.
    TAY,
    /// Transfer stack pointer to X.
    TSX,
    /// Transfer X to accumulator.
    TXA,
    /// Transfer X to stack pointer.
    TXS,
    /// Transfer Y to accumulator.
    TYA,
}

/// The mnemonic that `opcode` selects, if it selects one.
pub open spec fn mnemonic_of(opcode: u8) -> Option<Mnemonic> {
    match opcode {
        0x61 | 0x65 | 0x69 | 0x6D | 0x71 | 0x75 | 0x79 | 0x7D => Some(Mnemonic::ADC),
        0x21 | 0x25 | 0x29 | 0x2D | 0x31 | 0x35 | 0x39 | 0x3D => Some(Mnemonic::AND),
        0x06 | 0x0A | 0x0E | 0x16 | 0x1E => Some(Mnemonic::ASL),
        0x90 => Some(Mnemonic::BCC),
        0xB0 => Some(Mnemonic::BCS),
        0xF0 => Some(Mnemonic::BEQ),
        0x24 | 0x2C => Some(Mnemonic::BIT),
        0x30 => Some(Mnemonic::BMI),
        0xD0 => Some(Mnemonic::BNE),
        0x10 => Some(Mnemonic::BPL),
        0x00 => Some(Mnemonic::BRK),
        0x50 => Some(Mnemonic::BVC),
        0x70 => Some(Mnemonic::BVS),
        0x18 => Some(Mnemonic::CLC),
        0xD8 => Some(Mnemonic::CLD),
        0x58 => Some(Mnemonic::CLI),
        0xB8 => Some(Mnemonic::CLV),
        0xC1 | 0xC5 | 0xC9 | 0xCD | 0xD1 | 0xD5 | 0xD9 | 0xDD => Some(Mnemonic::CMP),
        0xE0 | 0xE4 | 0xEC => Some(Mnemonic::CPX),
        0xC0 | 0xC4 | 0xCC => Some(Mnemonic::CPY),
        0xC6 | 0xCE | 0xD6 | 0xDE => Some(Mnemonic::DEC),
        0xCA => Some(Mnemonic::DEX),
        0x88 => Some(Mnemonic::DEY),
        0x41 | 0x45 | 0x49 | 0x4D | 0x51 | 0x55 | 0x59 | 0x5D => Some(Mnemonic::EOR),
        0xE6 | 0xEE | 0xF6 | 0xFE => Some(Mnemonic::INC),
        0xE8 => Some(Mnemonic::INX),
        0xC8 => Some(Mnemonic::INY),
        0x4C | 0x6C => Some(Mnemonic::JMP),
        0x20 => Some(Mnemonic::JSR),
        0xA1 | 0xA5 | 0xA9 | 0xAD | 0xB1 | 0xB5 | 0xB9 | 0xBD => Some(Mnemonic::LDA),
        0xA2 | 0xA6 | 0xAE | 0xB6 | 0xBE => Some(Mnemonic::LDX),
        0xA0 | 0xA4 | 0xAC | 0xB4 | 0xBC => Some(Mnemonic::LDY),
        0x46 | 0x4A | 0x4E | 0x56 | 0x5E => Some(Mnemonic::LSR),
        0xEA => Some(Mnemonic::NOP),
        0x01 | 0x05 | 0x09 | 0x0D | 0x11 | 0x15 | 0x19 | 0x1D => Some(Mnemonic::ORA),
        0x48 => Some(Mnemonic::PHA),
        0x08 => Some(Mnemonic::PHP),
        0x68 => Some(Mnemonic::PLA),
        0x28 => Some(Mnemonic::PLP),
        0x26 | 0x2A | 0x2E | 0x36 | 0x3E => Some(Mnemonic::ROL),
        0x66 | 0x6A | 0x6E | 0x76 | 0x7E => Some(Mnemonic::ROR),
        0x40 => Some(Mnemonic::RTI),
        0x60 => Some(Mnemonic::RTS),
        0xE1 | 0xE5 | 0xE9 | 0xED | 0xF1 | 0xF5 | 0xF9 | 0xFD => Some(Mnemonic::SBC),
        0x38 => Some(Mnemonic::SEC),
        0xF8 => Some(Mnemonic::SED),
        0x78 => Some(Mnemonic::SEI),
        0x81 | 0x85 | 0x8D | 0x91 | 0x95 | 0x99 | 0x9D => Some(Mnemonic::STA),
        0x86 | 0x8E | 0x96 => Some(Mnemonic::STX),
        0x84 | 0x8C | 0x94 => Some(Mnemonic::STY),
        0xAA => Some(Mnemonic::TAX),
        0xA8 => Some(Mnemonic::TAY),
        0xBA => Some(Mnemonic::TSX),
        0x8A => Some(Mnemonic::TXA),
        0x9A => Some(Mnemonic::TXS),
        0x98 => Some(Mnemonic::TYA),
        _ => None,
    }
}

/// The addressing mode that `opcode` selects, if it selects one.
pub open spec fn mode_of(opcode: u8) -> Option<AddressingMode> {
    match opcode {
        0x09 | 0x29 | 0x49 | 0x69 | 0xA0 | 0xA2 |
            0xA9 | 0xC0 | 0xC9 | 0xE0 | 0xE9 => Some(AddressingMode::Immediate),
        0x05 | 0x06 | 0x24 | 0x25 | 0x26 | 0x45 | 0x46 |
            0x65 | 0x66 | 0x84 | 0x85 | 0x86 | 0xA4 | 0xA5 |
            0xA6 | 0xC4 | 0xC5 | 0xC6 | 0xE4 | 0xE5 | 0xE6 => Some(AddressingMode::ZeroPage),
        0x15 | 0x16 | 0x35 | 0x36 | 0x55 | 0x56 |
            0x75 | 0x76 | 0x94 | 0x95 | 0xB4 | 0xB5 |
            0xD5 | 0xD6 | 0xF5 | 0xF6 => Some(AddressingMode::ZeroPageX),
        0x96 | 0xB6 => Some(AddressingMode::ZeroPageY),
        0x0D | 0x0E | 0x20 | 0x2C | 0x2D | 0x2E | 0x4C | 0x4D |
            0x4E | 0x6D | 0x6E | 0x8C | 0x8D | 0x8E | 0xAC | 0xAD |
            0xAE | 0xCC | 0xCD | 0xCE | 0xEC | 0xED | 0xEE => Some(AddressingMode::Absolute),
        0x1D | 0x1E | 0x3D | 0x3E | 0x5D | 0x5E | 0x7D | 0x7E |
            0x9D | 0xBC | 0xBD | 0xDD | 0xDE | 0xFD | 0xFE => Some(AddressingMode::AbsoluteX),
        0x19 | 0x39 | 0x59 | 0x79 | 0x99 |
            0xB9 | 0xBE | 0xD9 | 0xF9 => Some(AddressingMode::AbsoluteY),
        0x6C => Some(AddressingMode::Indirect),
        0x01 | 0x21 | 0x41 | 0x61 |
            0x81 | 0xA1 | 0xC1 | 0xE1 => Some(AddressingMode::IndexedIndirect),
        0x11 | 0x31 | 0x51 | 0x71 |
            0x91 | 0xB1 | 0xD1 | 0xF1 => Some(AddressingMode::IndirectIndexed),
        0x00 | 0x08 | 0x18 | 0x28 | 0x38 | 0x40 | 0x48 | 0x58 | 0x60 |
            0x68 | 0x78 | 0x88 | 0x8A | 0x98 | 0x9A | 0xA8 | 0xAA | 0xB8 |
            0xBA | 0xC8 | 0xCA | 0xD8 | 0xE8 | 0xEA | 0xF8 => Some(AddressingMode::Implied),
        0x0A | 0x2A | 0x4A | 0x6A => Some(AddressingMode::Accumulator),
        0x10 | 0x30 | 0x50 | 0x70 | 0x90 | 0xB0 | 0xD0 | 0xF0 => Some(AddressingMode::Relative),
        _ => None,
    }
}

/// The entry of the opcode table for `opcode`: its mnemonic and its
/// addressing mode. An opcode without an entry has no defined meaning.
pub open spec fn opcode_entry(opcode: u8) -> Option<(Mnemonic, AddressingMode)> {
    match (mnemonic_of(opcode), mode_of(opcode)) {
        (Some(mnemonic), Some(mode)) => Some((mnemonic, mode)),
        _ => None,
    }
}

/// Looks `opcode` up in the opcode table.
pub fn lookup_opcode(opcode: u8) -> (entry: Option<(Mnemonic, AddressingMode)>)
    ensures
        entry == opcode_entry(opcode),
{
    match opcode {
        0x69 => Some((Mnemonic::ADC, AddressingMode::Immediate)),
        0x65 => Some((Mnemonic::ADC, AddressingMode::ZeroPage)),
        0x75 => Some((Mnemonic::ADC, AddressingMode::ZeroPageX)),
        0x6D => Some((Mnemonic::ADC, AddressingMode::Absolute)),
        0x7D => Some((Mnemonic::ADC, AddressingMode::AbsoluteX)),
        0x79 => Some((Mnemonic::ADC, AddressingMode::AbsoluteY)),
        0x61 => Some((Mnemonic::ADC, AddressingMode::IndexedIndirect)),
        0x71 => Some((Mnemonic::ADC, AddressingMode::IndirectIndexed)),
        0x29 => Some((Mnemonic::AND, AddressingMode::Immediate)),
        0x25 => Some((Mnemonic::AND, AddressingMode::ZeroPage)),
        0x35 => Some((Mnemonic::AND, AddressingMode::ZeroPageX)),
        0x2D => Some((Mnemonic::AND, AddressingMode::Absolute)),
        0x3D => Some((Mnemonic::AND, AddressingMode::AbsoluteX)),
        0x39 => Some((Mnemonic::AND, AddressingMode::AbsoluteY)),
        0x21 => Some((Mnemonic::AND, AddressingMode::IndexedIndirect)),
        0x31 => Some((Mnemonic::AND, AddressingMode::IndirectIndexed)),
        0x0A => Some((Mnemonic::ASL, AddressingMode::Accumulator)),
        0x06 => Some((Mnemonic::ASL, AddressingMode::ZeroPage)),
        0x16 => Some((Mnemonic::ASL, AddressingMode::ZeroPageX)),
        0x0E => Some((Mnemonic::ASL, AddressingMode::Absolute)),
        0x1E => Some((Mnemonic::ASL, AddressingMode::AbsoluteX)),
        0x90 => Some((Mnemonic::BCC, AddressingMode::Relative)),
        0xB0 => Some((Mnemonic::BCS, AddressingMode::Relative)),
        0xF0 => Some((Mnemonic::BEQ, AddressingMode::Relative)),
        0x24 => Some((Mnemonic::BIT, AddressingMode::ZeroPage)),
        0x2C => Some((Mnemonic::BIT, AddressingMode::Absolute)),
        0x30 => Some((Mnemonic::BMI, AddressingMode::Relative)),
        0xD0 => Some((Mnemonic::BNE, AddressingMode::Relative)),
        0x10 => Some((Mnemonic::BPL, AddressingMode::Relative)),
        0x00 => Some((Mnemonic::BRK, AddressingMode::Implied)),
        0x50 => Some((Mnemonic::BVC, AddressingMode::Relative)),
        0x70 => Some((Mnemonic::BVS, AddressingMode::Relative)),
        0x18 => Some((Mnemonic::CLC, AddressingMode::Implied)),
        0xD8 => Some((Mnemonic::CLD, AddressingMode::Implied)),
        0x58 => Some((Mnemonic::CLI, AddressingMode::Implied)),
        0xB8 => Some((Mnemonic::CLV, AddressingMode::Implied)),
        0xC9 => Some((Mnemonic::CMP, AddressingMode::Immediate)),
        0xC5 => Some((Mnemonic::CMP, AddressingMode::ZeroPage)),
        0xD5 => Some((Mnemonic::CMP, AddressingMode::ZeroPageX)),
        0xCD => Some((Mnemonic::CMP, AddressingMode::Absolute)),
        0xDD => Some((Mnemonic::CMP, AddressingMode::AbsoluteX)),
        0xD9 => Some((Mnemonic::CMP, AddressingMode::AbsoluteY)),
        0xC1 => Some((Mnemonic::CMP, AddressingMode::IndexedIndirect)),
        0xD1 => Some((Mnemonic::CMP, AddressingMode::IndirectIndexed)),
        0xE0 => Some((Mnemonic::CPX, AddressingMode::Immediate)),
        0xE4 => Some((Mnemonic::CPX, AddressingMode::ZeroPage)),
        0xEC => Some((Mnemonic::CPX, AddressingMode::Absolute)),
        0xC0 => Some((Mnemonic::CPY, AddressingMode::Immediate)),
        0xC4 => Some((Mnemonic::CPY, AddressingMode::ZeroPage)),
        0xCC => Some((Mnemonic::CPY, AddressingMode::Absolute)),
        0xC6 => Some((Mnemonic::DEC, AddressingMode::ZeroPage)),
        0xD6 => Some((Mnemonic::DEC, AddressingMode::ZeroPageX)),
        0xCE => Some((Mnemonic::DEC, AddressingMode::Absolute)),
        0xDE => Some((Mnemonic::DEC, AddressingMode::AbsoluteX)),
        0xCA => Some((Mnemonic::DEX, AddressingMode::Implied)),
        0x88 => Some((Mnemonic::DEY, AddressingMode::Implied)),
        0x49 => Some((Mnemonic::EOR, AddressingMode::Immediate)),
        0x45 => Some((Mnemonic::EOR, AddressingMode::ZeroPage)),
        0x55 => Some((Mnemonic::EOR, AddressingMode::ZeroPageX)),
        0x4D => Some((Mnemonic::EOR, AddressingMode::Absolute)),
        0x5D => Some((Mnemonic::EOR, AddressingMode::AbsoluteX)),
        0x59 => Some((Mnemonic::EOR, AddressingMode::AbsoluteY)),
        0x41 => Some((Mnemonic::EOR, AddressingMode::IndexedIndirect)),
        0x51 => Some((Mnemonic::EOR, AddressingMode::IndirectIndexed)),
        0xE6 => Some((Mnemonic::INC, AddressingMode::ZeroPage)),
        0xF6 => Some((Mnemonic::INC, AddressingMode::ZeroPageX)),
        0xEE => Some((Mnemonic::INC, AddressingMode::Absolute)),
        0xFE => Some((Mnemonic::INC, AddressingMode::AbsoluteX)),
        0xE8 => Some((Mnemonic::INX, AddressingMode::Implied)),
        0xC8 => Some((Mnemonic::INY, AddressingMode::Implied)),
        0x4C => Some((Mnemonic::JMP, AddressingMode::Absolute)),
        0x6C => Some((Mnemonic::JMP, AddressingMode::Indirect)),
        0x20 => Some((Mnemonic::JSR, AddressingMode::Absolute)),
        0xA9 => Some((Mnemonic::LDA, AddressingMode::Immediate)),
        0xA5 => Some((Mnemonic::LDA, AddressingMode::ZeroPage)),
        0xB5 => Some((Mnemonic::LDA, AddressingMode::ZeroPageX)),
        0xAD => Some((Mnemonic::LDA, AddressingMode::Absolute)),
        0xBD => Some((Mnemonic::LDA, AddressingMode::AbsoluteX)),
        0xB9 => Some((Mnemonic::LDA, AddressingMode::AbsoluteY)),
        0xA1 => Some((Mnemonic::LDA, AddressingMode::IndexedIndirect)),
        0xB1 => Some((Mnemonic::LDA, AddressingMode::IndirectIndexed)),
        0xA2 => Some((Mnemonic::LDX, AddressingMode::Immediate)),
        0xA6 => Some((Mnemonic::LDX, AddressingMode::ZeroPage)),
        0xB6 => Some((Mnemonic::LDX, AddressingMode::ZeroPageY)),
        0xAE => Some((Mnemonic::LDX, AddressingMode::Absolute)),
        0xBE => Some((Mnemonic::LDX, AddressingMode::AbsoluteY)),
        0xA0 => Some((Mnemonic::LDY, AddressingMode::Immediate)),
        0xA4 => Some((Mnemonic::LDY, AddressingMode::ZeroPage)),
        0xB4 => Some((Mnemonic::LDY, AddressingMode::ZeroPageX)),
        0xAC => Some((Mnemonic::LDY, AddressingMode::Absolute)),
        0xBC => Some((Mnemonic::LDY, AddressingMode::AbsoluteX)),
        0x4A => Some((Mnemonic::LSR, AddressingMode::Accumulator)),
        0x46 => Some((Mnemonic::LSR, AddressingMode::ZeroPage)),
        0x56 => Some((Mnemonic::LSR, AddressingMode::ZeroPageX)),
        0x4E => Some((Mnemonic::LSR, AddressingMode::Absolute)),
        0x5E => Some((Mnemonic::LSR, AddressingMode::AbsoluteX)),
        0xEA => Some((Mnemonic::NOP, AddressingMode::Implied)),
        0x09 => Some((Mnemonic::ORA, AddressingMode::Immediate)),
        0x05 => Some((Mnemonic::ORA, AddressingMode::ZeroPage)),
        0x15 => Some((Mnemonic::ORA, AddressingMode::ZeroPageX)),
        0x0D => Some((Mnemonic::ORA, AddressingMode::Absolute)),
        0x1D => Some((Mnemonic::ORA, AddressingMode::AbsoluteX)),
        0x19 => Some((Mnemonic::ORA, AddressingMode::AbsoluteY)),
        0x01 => Some((Mnemonic::ORA, AddressingMode::IndexedIndirect)),
        0x11 => Some((Mnemonic::ORA, AddressingMode::IndirectIndexed)),
        0x48 => Some((Mnemonic::PHA, AddressingMode::Implied)),
        0x08 => Some((Mnemonic::PHP, AddressingMode::Implied)),
        0x68 => Some((Mnemonic::PLA, AddressingMode::Implied)),
        0x28 => Some((Mnemonic::PLP, AddressingMode::Implied)),
        0x2A => Some((Mnemonic::ROL, AddressingMode::Accumulator)),
        0x26 => Some((Mnemonic::ROL, AddressingMode::ZeroPage)),
        0x36 => Some((Mnemonic::ROL, AddressingMode::ZeroPageX)),
        0x2E => Some((Mnemonic::ROL, AddressingMode::Absolute)),
        0x3E => Some((Mnemonic::ROL, AddressingMode::AbsoluteX)),
        0x6A => Some((Mnemonic::ROR, AddressingMode::Accumulator)),
        0x66 => Some((Mnemonic::ROR, AddressingMode::ZeroPage)),
        0x76 => Some((Mnemonic::ROR, AddressingMode::ZeroPageX)),
        0x6E => Some((Mnemonic::ROR, AddressingMode::Absolute)),
        0x7E => Some((Mnemonic::ROR, AddressingMode::AbsoluteX)),
        0x40 => Some((Mnemonic::RTI, AddressingMode::Implied)),
        0x60 => Some((Mnemonic::RTS, AddressingMode::Implied)),
        0xE9 => Some((Mnemonic::SBC, AddressingMode::Immediate)),
        0xE5 => Some((Mnemonic::SBC, AddressingMode::ZeroPage)),
        0xF5 => Some((Mnemonic::SBC, AddressingMode::ZeroPageX)),
        0xED => Some((Mnemonic::SBC, AddressingMode::Absolute)),
        0xFD => Some((Mnemonic::SBC, AddressingMode::AbsoluteX)),
        0xF9 => Some((Mnemonic::SBC, AddressingMode::AbsoluteY)),
        0xE1 => Some((Mnemonic::SBC, AddressingMode::IndexedIndirect)),
        0xF1 => Some((Mnemonic::SBC, AddressingMode::IndirectIndexed)),
        0x38 => Some((Mnemonic::SEC, AddressingMode::Implied)),
        0xF8 => Some((Mnemonic::SED, AddressingMode::Implied)),
        0x78 => Some((Mnemonic::SEI, AddressingMode::Implied)),
        0x85 => Some((Mnemonic::STA, AddressingMode::ZeroPage)),
        0x95 => Some((Mnemonic::STA, AddressingMode::ZeroPageX)),
        0x8D => Some((Mnemonic::STA, AddressingMode::Absolute)),
        0x9D => Some((Mnemonic::STA, AddressingMode::AbsoluteX)),
        0x99 => Some((Mnemonic::STA, AddressingMode::AbsoluteY)),
        0x81 => Some((Mnemonic::STA, AddressingMode::IndexedIndirect)),
        0x91 => Some((Mnemonic::STA, AddressingMode::IndirectIndexed)),
        0x86 => Some((Mnemonic::STX, AddressingMode::ZeroPage)),
        0x96 => Some((Mnemonic::STX, AddressingMode::ZeroPageY)),
        0x8E => Some((Mnemonic::STX, AddressingMode::Absolute)),
        0x84 => Some((Mnemonic::STY, AddressingMode::ZeroPage)),
        0x94 => Some((Mnemonic::STY, AddressingMode::ZeroPageX)),
        0x8C => Some((Mnemonic::STY, AddressingMode::Absolute)),
        0xAA => Some((Mnemonic::TAX, AddressingMode::Implied)),
        0xA8 => Some((Mnemonic::TAY, AddressingMode::Implied)),
        0xBA => Some((Mnemonic::TSX, AddressingMode::Implied)),
        0x8A => Some((Mnemonic::TXA, AddressingMode::Implied)),
        0x9A => Some((Mnemonic::TXS, AddressingMode::Implied)),
        0x98 => Some((Mnemonic::TYA, AddressingMode::Implied)),
        _ => None,
    }
}

/// An opcode has a mnemonic exactly when it has an addressing mode, and the
/// halt opcode has neither.
pub proof fn lemma_table_is_complete(opcode: u8)
    ensures
        mnemonic_of(opcode) is Some <==> mode_of(opcode) is Some,
        opcode_entry(opcode) is Some <==> mnemonic_of(opcode) is Some,
        opcode_entry(HALT_OPCODE) is None,
{
}

} // verus!
