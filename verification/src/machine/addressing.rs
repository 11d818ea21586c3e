//! Addressing modes, and the operand that each of them resolves to.
//!
//! An instruction's operand bytes follow its opcode byte in memory. The
//! addressing mode says how many they are and how they are turned into the
//! 16-bit operand of the instruction: an immediate value, or the effective
//! address that the instruction works on. All address arithmetic wraps: in
//! eight bits within the zero page, in sixteen bits elsewhere.

use vstd::prelude::*;

verus! {

/// How the executor treats the resolved operand of an instruction.
#[derive(Clone, Copy, Debug, PartialEq, Eq)]
pub enum OperandType {
    /// The operand is the value itself.
    Imm,
    /// The operand is the address of the value.
    Mem,
    /// The instruction has no operand.
    Implied,
    /// The instruction works on the accumulator.
    Accumulator,
    /// The operand is a branch offset.
    Relative,
    /// The operand is a jump target that was fetched through a pointer.
    Indirect,
}

/// The rule by which an instruction locates its operand.
#[derive(Clone, Copy, Debug, PartialEq, Eq)]
pub enum AddressingMode {
    /// The operand byte is the value.
    Immediate,
    /// The operand byte is an address in the zero page.
    ZeroPage,
    /// The operand byte plus X, wrapped within the zero page.
    ZeroPageX,
    /// The operand byte plus Y, wrapped within the zero page.
    ZeroPageY,
    /// The two operand bytes are a little-endian address.
    Absolute,
    /// The absolute address plus X.
    AbsoluteX,
    /// The absolute address plus Y.
    AbsoluteY,
    /// The absolute address plus X points at the little-endian address.
    Indirect,
    /// The operand byte plus X, wrapped within the zero page, points at the
    /// little-endian address.
    IndexedIndirect,
    /// The operand byte points at a little-endian address in the zero page,
    /// to which Y is added.
    IndirectIndexed,
    /// No operand.
    Implied,
    /// The accumulator is the operand.
    Accumulator,
    /// The operand byte is a branch offset.
    Relative,
}

impl AddressingMode {
    /// The number of operand bytes that follow the opcode byte.
    pub open spec fn spec_operand_size(self) -> u8 {
        match self {
            AddressingMode::Implied | AddressingMode::Accumulator => 0,
            AddressingMode::Absolute
            | AddressingMode::AbsoluteX
            | AddressingMode::AbsoluteY
            | AddressingMode::Indirect => 2,
            _ => 1,
        }
    }

    /// The number of operand bytes that follow the opcode byte.
    #[verifier::when_used_as_spec(spec_operand_size)]
    pub fn operand_size(self) -> (size: u8)
        ensures
            size == self.spec_operand_size(),
            size <= 2,
    {
        match self {
            AddressingMode::Implied | AddressingMode::Accumulator => 0,
            AddressingMode::Absolute
            | AddressingMode::AbsoluteX
            | AddressingMode::AbsoluteY
            | AddressingMode::Indirect => 2,
            _ => 1,
        }
    }

    /// How the executor treats an operand that was resolved in this mode.
    pub open spec fn spec_operand_type(self) -> OperandType {
        match self {
            AddressingMode::Immediate => OperandType::Imm,
            AddressingMode::Implied => OperandType::Implied,
            AddressingMode::Accumulator => OperandType::Accumulator,
            AddressingMode::Relative => OperandType::Relative,
            AddressingMode::Indirect => OperandType::Indirect,
            _ => OperandType::Mem,
        }
    }

    /// How the executor treats an operand that was resolved in this mode.
    #[verifier::when_used_as_spec(spec_operand_type)]
    pub fn operand_type(self) -> (operand_type: OperandType)
        ensures
            operand_type == self.spec_operand_type(),
    {
        match self {
            AddressingMode::Immediate => OperandType::Imm,
            AddressingMode::Implied => OperandType::Implied,
            AddressingMode::Accumulator => OperandType::Accumulator,
            AddressingMode::Relative => OperandType::Relative,
            AddressingMode::Indirect => OperandType::Indirect,
            _ => OperandType::Mem,
        }
    }
}

/// The 16-bit value whose low byte is `low` and whose high byte is `high`.
pub open spec fn word(low: u8, high: u8) -> u16 {
    (high * 256 + low) as u16
}

/// The byte of `memory` at `addr`.
pub open spec fn byte_at(memory: Seq<u8>, addr: u16) -> u8 {
    memory[addr as int]
}

/// The little-endian word of `memory` at `addr`: the low byte at `addr`, the
/// high byte at the address after it. After `0xFFFF` comes `0x0000`.
pub open spec fn word_at(memory: Seq<u8>, addr: u16) -> u16 {
    word(byte_at(memory, addr), byte_at(memory, addr.wrapping_add(1)))
}

/// The little-endian word of `memory` at the zero-page address `addr`: the
/// low byte at `addr`, the high byte at the zero-page address after it.
/// After `0xFF` comes `0x00`.
pub open spec fn zero_page_word_at(memory: Seq<u8>, addr: u8) -> u16 {
    word(byte_at(memory, addr as u16), byte_at(memory, addr.wrapping_add(1) as u16))
}

/// The operand that `mode` resolves to, when the operand bytes start at `at`
/// in `memory` and the index registers hold `x` and `y`.
///
/// The pointer of `Indirect` is read like any other word: its high byte
/// comes from the address after its low byte, also across a page boundary.
/// The pointer of `IndexedIndirect` is read in the same way, so its high byte
/// may lie at `0x0100`. The pointer of `IndirectIndexed` stays within the
/// zero page.
pub open spec fn resolve(mode: AddressingMode, memory: Seq<u8>, at: u16, x: u8, y: u8) -> u16 {
    match mode {
        AddressingMode::Immediate | AddressingMode::ZeroPage | AddressingMode::Relative => byte_at(
            memory,
            at,
        ) as u16,
        AddressingMode::ZeroPageX => byte_at(memory, at).wrapping_add(x) as u16,
        AddressingMode::ZeroPageY => byte_at(memory, at).wrapping_add(y) as u16,
        AddressingMode::Absolute => word_at(memory, at),
        AddressingMode::AbsoluteX => word_at(memory, at).wrapping_add(x as u16),
        AddressingMode::AbsoluteY => word_at(memory, at).wrapping_add(y as u16),
        AddressingMode::Indirect => word_at(memory, word_at(memory, at).wrapping_add(x as u16)),
        AddressingMode::IndexedIndirect => word_at(
            memory,
            byte_at(memory, at).wrapping_add(x) as u16,
        ),
        AddressingMode::IndirectIndexed => zero_page_word_at(
            memory,
            byte_at(memory, at),
        ).wrapping_add(y as u16),
        AddressingMode::Implied | AddressingMode::Accumulator => 0,
    }
}

/// Joins two bytes into a word.
pub fn make_word(low: u8, high: u8) -> (w: u16)
    ensures
        w == word(low, high),
{
    let w = ((high as u16) << 8) | (low as u16);
    assert(((high as u16) << 8) | (low as u16) == (high as u16) * 256 + (low as u16))
        by (bit_vector);
    w
}

} // verus!
