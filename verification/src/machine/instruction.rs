//! Decoded instructions.

use vstd::prelude::*;

use crate::machine::addressing::{byte_at, AddressingMode, OperandType};
use crate::machine::cpu::{low_byte, signed_sum_overflows, take_low_byte, CPU};
use crate::machine::memory::MemoryBus;
use crate::machine::opcodes::{lookup_opcode, mode_of, opcode_entry, Mnemonic, HALT_OPCODE};

verus! {

/// A decoded instruction.
///
/// Each variant but the last two stands for one mnemonic and holds, in this
/// order, the opcode byte, the resolved operand, the number of operand bytes
/// and the way the operand is to be treated. `MyHalt` is a marker that parks
/// the processor; `Unknown` holds an opcode byte that has no meaning.
#[derive(Clone, Copy, Debug, PartialEq, Eq)]
pub enum Instruction {
    ADC(u8, u16, u8, OperandType),
    AND(u8, u16, u8, OperandType),
    ASL(u8, u16, u8, OperandType),
    BCC(u8, u16, u8, OperandType),
    BCS(u8, u16, u8, OperandType),
    BEQ(u8, u16, u8, OperandType),
    BIT(u8, u16, u8, OperandType),
    BMI(u8, u16, u8, OperandType),
    BNE(u8, u16, u8, OperandType),
    BPL(u8, u16, u8, OperandType),
    BRK(u8, u16, u8, OperandType),
    BVC(u8, u16, u8, OperandType),
    BVS(u8, u16, u8, OperandType),
    CLC(u8, u16, u8, OperandType),
    CLD(u8, u16, u8, OperandType),
    CLI(u8, u16, u8, OperandType),
    CLV(u8, u16, u8, OperandType),
    CMP(u8, u16, u8, OperandType),
    CPX(u8, u16, u8, OperandType),
    CPY(u8, u16, u8, OperandType),
    DEC(u8, u16, u8, OperandType),
    DEX(u8, u16, u8, OperandType),
    DEY(u8, u16, u8, OperandType),
    EOR(u8, u16, u8, OperandType),
    INC(u8, u16, u8, OperandType),
    INX(u8, u16, u8, OperandType),
    INY(u8, u16, u8, OperandType),
    JMP(u8, u16, u8, OperandType),
    JSR(u8, u16, u8, OperandType),
    LDA(u8, u16, u8, OperandType),
    LDX(u8, u16, u8, OperandType),
    LDY(u8, u16, u8, OperandType),
    LSR(u8, u16, u8, OperandType),
    NOP(u8, u16, u8, OperandType),
    ORA(u8, u16, u8, OperandType),
    PHA(u8, u16, u8, OperandType),
    PHP(u8, u16, u8, OperandType),
    PLA(u8, u16, u8, OperandType),
    PLP(u8, u16, u8, OperandType),
    ROL(u8, u16, u8, OperandType),
    ROR(u8, u16, u8, OperandType),
    RTI(u8, u16, u8, OperandType),
    RTS(u8, u16, u8, OperandType),
    SBC(u8, u16, u8, OperandType),
    SEC(u8, u16, u8, OperandType),
    SED(u8, u16, u8, OperandType),
    SEI(u8, u16, u8, OperandType),
    STA(u8, u16, u8, OperandType),
    STX(u8, u16, u8, OperandType),
    STY(u8, u16, u8, OperandType),
    TAX(u8, u16, u8, OperandType),
    TAY(u8, u16, u8, OperandType),
    TSX(u8, u16, u8, OperandType),
    TXA(u8, u16, u8, OperandType),
    TXS(u8, u16, u8, OperandType),
    TYA(u8, u16, u8, OperandType),
    MyHalt(u8),
    Unknown(u8),
}

impl Instruction {
    /// The opcode byte, the operand, the number of operand bytes and the
    /// operand type of the instruction. The two markers have no operand: the
    /// halt marker reports the halt opcode and an immediate zero, an unknown
    /// opcode reports itself and nothing else.
    pub open spec fn contents(self) -> (u8, u16, u8, OperandType) {
        match self {
              Instruction::ADC(opcode, operand, operand_size, operand_type)
            | Instruction::AND(opcode, operand, operand_size, operand_type)
            | Instruction::ASL(opcode, operand, operand_size, operand_type)
            | Instruction::BCC(opcode, operand, operand_size, operand_type)
            | Instruction::BCS(opcode, operand, operand_size, operand_type)
            | Instruction::BEQ(opcode, operand, operand_size, operand_type)
            | Instruction::BIT(opcode, operand, operand_size, operand_type)
            | Instruction::BMI(opcode, operand, operand_size, operand_type)
            | Instruction::BNE(opcode, operand, operand_size, operand_type)
            | Instruction::BPL(opcode, operand, operand_size, operand_type)
            | Instruction::BRK(opcode, operand, operand_size, operand_type)
            | Instruction::BVC(opcode, operand, operand_size, operand_type)
            | Instruction::BVS(opcode, operand, operand_size, operand_type)
            | Instruction::CLC(opcode, operand, operand_size, operand_type)
            | Instruction::CLD(opcode, operand, operand_size, operand_type)
            | Instruction::CLI(opcode, operand, operand_size, operand_type)
            | Instruction::CLV(opcode, operand, operand_size, operand_type)
            | Instruction::CMP(opcode, operand, operand_size, operand_type)
            | Instruction::CPX(opcode, operand, operand_size, operand_type)
            | Instruction::CPY(opcode, operand, operand_size, operand_type)
            | Instruction::DEC(opcode, operand, operand_size, operand_type)
            | Instruction::DEX(opcode, operand, operand_size, operand_type)
            | Instruction::DEY(opcode, operand, operand_size, operand_type)
            | Instruction::EOR(opcode, operand, operand_size, operand_type)
            | Instruction::INC(opcode, operand, operand_size, operand_type)
            | Instruction::INX(opcode, operand, operand_size, operand_type)
            | Instruction::INY(opcode, operand, operand_size, operand_type)
            | Instruction::JMP(opcode, operand, operand_size, operand_type)
            | Instruction::JSR(opcode, operand, operand_size, operand_type)
            | Instruction::LDA(opcode, operand, operand_size, operand_type)
            | Instruction::LDX(opcode, operand, operand_size, operand_type)
            | Instruction::LDY(opcode, operand, operand_size, operand_type)
            | Instruction::LSR(opcode, operand, operand_size, operand_type)
            | Instruction::NOP(opcode, operand, operand_size, operand_type)
            | Instruction::ORA(opcode, operand, operand_size, operand_type)
            | Instruction::PHA(opcode, operand, operand_size, operand_type)
            | Instruction::PHP(opcode, operand, operand_size, operand_type)
            | Instruction::PLA(opcode, operand, operand_size, operand_type)
            | Instruction::PLP(opcode, operand, operand_size, operand_type)
            | Instruction::ROL(opcode, operand, operand_size, operand_type)
            | Instruction::ROR(opcode, operand, operand_size, operand_type)
            | Instruction::RTI(opcode, operand, operand_size, operand_type)
            | Instruction::RTS(opcode, operand, operand_size, operand_type)
            | Instruction::SBC(opcode, operand, operand_size, operand_type)
            | Instruction::SEC(opcode, operand, operand_size, operand_type)
            | Instruction::SED(opcode, operand, operand_size, operand_type)
            | Instruction::SEI(opcode, operand, operand_size, operand_type)
            | Instruction::STA(opcode, operand, operand_size, operand_type)
            | Instruction::STX(opcode, operand, operand_size, operand_type)
            | Instruction::STY(opcode, operand, operand_size, operand_type)
            | Instruction::TAX(opcode, operand, operand_size, operand_type)
            | Instruction::TAY(opcode, operand, operand_size, operand_type)
            | Instruction::TSX(opcode, operand, operand_size, operand_type)
            | Instruction::TXA(opcode, operand, operand_size, operand_type)
            | Instruction::TXS(opcode, operand, operand_size, operand_type)
            | Instruction::TYA(opcode, operand, operand_size, operand_type) => (
                opcode,
                operand,
                operand_size,
                operand_type,
            ),
            Instruction::MyHalt(_) => (HALT_OPCODE, 0, 0, OperandType::Imm),
            Instruction::Unknown(opcode) => (opcode, 0, 0, OperandType::Implied),
        }
    }

    /// The mnemonic of the instruction; the two markers have none.
    pub open spec fn mnemonic(self) -> Option<Mnemonic> {
        match self {
            Instruction::ADC(..) => Some(Mnemonic::ADC),
            Instruction::AND(..) => Some(Mnemonic::AND),
            Instruction::ASL(..) => Some(Mnemonic::ASL),
            Instruction::BCC(..) => Some(Mnemonic::BCC),
            Instruction::BCS(..) => Some(Mnemonic::BCS),
            Instruction::BEQ(..) => Some(Mnemonic::BEQ),
            Instruction::BIT(..) => Some(Mnemonic::BIT),
            Instruction::BMI(..) => Some(Mnemonic::BMI),
            Instruction::BNE(..) => Some(Mnemonic::BNE),
            Instruction::BPL(..) => Some(Mnemonic::BPL),
            Instruction::BRK(..) => Some(Mnemonic::BRK),
            Instruction::BVC(..) => Some(Mnemonic::BVC),
            Instruction::BVS(..) => Some(Mnemonic::BVS),
            Instruction::CLC(..) => Some(Mnemonic::CLC),
            Instruction::CLD(..) => Some(Mnemonic::CLD),
            Instruction::CLI(..) => Some(Mnemonic::CLI),
            Instruction::CLV(..) => Some(Mnemonic::CLV),
            Instruction::CMP(..) => Some(Mnemonic::CMP),
            Instruction::CPX(..) => Some(Mnemonic::CPX),
            Instruction::CPY(..) => Some(Mnemonic::CPY),
            Instruction::DEC(..) => Some(Mnemonic::DEC),
            Instruction::DEX(..) => Some(Mnemonic::DEX),
            Instruction::DEY(..) => Some(Mnemonic::DEY),
            Instruction::EOR(..) => Some(Mnemonic::EOR),
            Instruction::INC(..) => Some(Mnemonic::INC),
            Instruction::INX(..) => Some(Mnemonic::INX),
            Instruction::INY(..) => Some(Mnemonic::INY),
            Instruction::JMP(..) => Some(Mnemonic::JMP),
            Instruction::JSR(..) => Some(Mnemonic::JSR),
            Instruction::LDA(..) => Some(Mnemonic::LDA),
            Instruction::LDX(..) => Some(Mnemonic::LDX),
            Instruction::LDY(..) => Some(Mnemonic::LDY),
            Instruction::LSR(..) => Some(Mnemonic::LSR),
            Instruction::NOP(..) => Some(Mnemonic::NOP),
            Instruction::ORA(..) => Some(Mnemonic::ORA),
            Instruction::PHA(..) => Some(Mnemonic::PHA),
            Instruction::PHP(..) => Some(Mnemonic::PHP),
            Instruction::PLA(..) => Some(Mnemonic::PLA),
            Instruction::PLP(..) => Some(Mnemonic::PLP),
            Instruction::ROL(..) => Some(Mnemonic::ROL),
            Instruction::ROR(..) => Some(Mnemonic::ROR),
            Instruction::RTI(..) => Some(Mnemonic::RTI),
            Instruction::RTS(..) => Some(Mnemonic::RTS),
            Instruction::SBC(..) => Some(Mnemonic::SBC),
            Instruction::SEC(..) => Some(Mnemonic::SEC),
            Instruction::SED(..) => Some(Mnemonic::SED),
            Instruction::SEI(..) => Some(Mnemonic::SEI),
            Instruction::STA(..) => Some(Mnemonic::STA),
            Instruction::STX(..) => Some(Mnemonic::STX),
            Instruction::STY(..) => Some(Mnemonic::STY),
            Instruction::TAX(..) => Some(Mnemonic::TAX),
            Instruction::TAY(..) => Some(Mnemonic::TAY),
            Instruction::TSX(..) => Some(Mnemonic::TSX),
            Instruction::TXA(..) => Some(Mnemonic::TXA),
            Instruction::TXS(..) => Some(Mnemonic::TXS),
            Instruction::TYA(..) => Some(Mnemonic::TYA),
            Instruction::MyHalt(_) | Instruction::Unknown(_) => None,
        }
    }

    /// The instruction with the given mnemonic and contents.
    pub open spec fn assemble(
        mnemonic: Mnemonic,
        opcode: u8,
        operand: u16,
        operand_size: u8,
        operand_type: OperandType,
    ) -> Instruction {
        match mnemonic {
            Mnemonic::ADC => Instruction::ADC(opcode, operand, operand_size, operand_type),
            Mnemonic::AND => Instruction::AND(opcode, operand, operand_size, operand_type),
            Mnemonic::ASL => Instruction::ASL(opcode, operand, operand_size, operand_type),
            Mnemonic::BCC => Instruction::BCC(opcode, operand, operand_size, operand_type),
            Mnemonic::BCS => Instruction::BCS(opcode, operand, operand_size, operand_type),
            Mnemonic::BEQ => Instruction::BEQ(opcode, operand, operand_size, operand_type),
            Mnemonic::BIT => Instruction::BIT(opcode, operand, operand_size, operand_type),
            Mnemonic::BMI => Instruction::BMI(opcode, operand, operand_size, operand_type),
            Mnemonic::BNE => Instruction::BNE(opcode, operand, operand_size, operand_type),
            Mnemonic::BPL => Instruction::BPL(opcode, operand, operand_size, operand_type),
            Mnemonic::BRK => Instruction::BRK(opcode, operand, operand_size, operand_type),
            Mnemonic::BVC => Instruction::BVC(opcode, operand, operand_size, operand_type),
            Mnemonic::BVS => Instruction::BVS(opcode, operand, operand_size, operand_type),
            Mnemonic::CLC => Instruction::CLC(opcode, operand, operand_size, operand_type),
            Mnemonic::CLD => Instruction::CLD(opcode, operand, operand_size, operand_type),
            Mnemonic::CLI => Instruction::CLI(opcode, operand, operand_size, operand_type),
            Mnemonic::CLV => Instruction::CLV(opcode, operand, operand_size, operand_type),
            Mnemonic::CMP => Instruction::CMP(opcode, operand, operand_size, operand_type),
            Mnemonic::CPX => Instruction::CPX(opcode, operand, operand_size, operand_type),
            Mnemonic::CPY => Instruction::CPY(opcode, operand, operand_size, operand_type),
            Mnemonic::DEC => Instruction::DEC(opcode, operand, operand_size, operand_type),
            Mnemonic::DEX => Instruction::DEX(opcode, operand, operand_size, operand_type),
            Mnemonic::DEY => Instruction::DEY(opcode, operand, operand_size, operand_type),
            Mnemonic::EOR => Instruction::EOR(opcode, operand, operand_size, operand_type),
            Mnemonic::INC => Instruction::INC(opcode, operand, operand_size, operand_type),
            Mnemonic::INX => Instruction::INX(opcode, operand, operand_size, operand_type),
            Mnemonic::INY => Instruction::INY(opcode, operand, operand_size, operand_type),
            Mnemonic::JMP => Instruction::JMP(opcode, operand, operand_size, operand_type),
            Mnemonic::JSR => Instruction::JSR(opcode, operand, operand_size, operand_type),
            Mnemonic::LDA => Instruction::LDA(opcode, operand, operand_size, operand_type),
            Mnemonic::LDX => Instruction::LDX(opcode, operand, operand_size, operand_type),
            Mnemonic::LDY => Instruction::LDY(opcode, operand, operand_size, operand_type),
            Mnemonic::LSR => Instruction::LSR(opcode, operand, operand_size, operand_type),
            Mnemonic::NOP => Instruction::NOP(opcode, operand, operand_size, operand_type),
            Mnemonic::ORA => Instruction::ORA(opcode, operand, operand_size, operand_type),
            Mnemonic::PHA => Instruction::PHA(opcode, operand, operand_size, operand_type),
            Mnemonic::PHP => Instruction::PHP(opcode, operand, operand_size, operand_type),
            Mnemonic::PLA => Instruction::PLA(opcode, operand, operand_size, operand_type),
            Mnemonic::PLP => Instruction::PLP(opcode, operand, operand_size, operand_type),
            Mnemonic::ROL => Instruction::ROL(opcode, operand, operand_size, operand_type),
            Mnemonic::ROR => Instruction::ROR(opcode, operand, operand_size, operand_type),
            Mnemonic::RTI => Instruction::RTI(opcode, operand, operand_size, operand_type),
            Mnemonic::RTS => Instruction::RTS(opcode, operand, operand_size, operand_type),
            Mnemonic::SBC => Instruction::SBC(opcode, operand, operand_size, operand_type),
            Mnemonic::SEC => Instruction::SEC(opcode, operand, operand_size, operand_type),
            Mnemonic::SED => Instruction::SED(opcode, operand, operand_size, operand_type),
            Mnemonic::SEI => Instruction::SEI(opcode, operand, operand_size, operand_type),
            Mnemonic::STA => Instruction::STA(opcode, operand, operand_size, operand_type),
            Mnemonic::STX => Instruction::STX(opcode, operand, operand_size, operand_type),
            Mnemonic::STY => Instruction::STY(opcode, operand, operand_size, operand_type),
            Mnemonic::TAX => Instruction::TAX(opcode, operand, operand_size, operand_type),
            Mnemonic::TAY => Instruction::TAY(opcode, operand, operand_size, operand_type),
            Mnemonic::TSX => Instruction::TSX(opcode, operand, operand_size, operand_type),
            Mnemonic::TXA => Instruction::TXA(opcode, operand, operand_size, operand_type),
            Mnemonic::TXS => Instruction::TXS(opcode, operand, operand_size, operand_type),
            Mnemonic::TYA => Instruction::TYA(opcode, operand, operand_size, operand_type),
        }
    }

    /// An instruction is well formed when it is one that decoding can
    /// produce: its mnemonic, its operand size and its operand type are those
    /// of its opcode's entry in the opcode table. The halt marker holds the
    /// halt opcode, and an unknown opcode is one without an entry.
    pub open spec fn well_formed(self) -> bool {
        match self {
            Instruction::MyHalt(opcode) => opcode == HALT_OPCODE,
            Instruction::Unknown(opcode) => opcode_entry(opcode) is None && opcode != HALT_OPCODE,
            _ => match opcode_entry(self.contents().0) {
                Some((mnemonic, mode)) => {
                    &&& self.mnemonic() == Some(mnemonic)
                    &&& self.contents().2 == mode.operand_size()
                    &&& self.contents().3 == mode.operand_type()
                },
                None => false,
            },
        }
    }

    /// The value that the instruction works on: the operand itself where it
    /// is immediate, the byte of `memory` at the operand where it is an
    /// address, and zero for every other operand type.
    pub open spec fn operand_value(self, memory: Seq<u8>) -> u16 {
        match self.contents().3 {
            OperandType::Imm => self.contents().1,
            OperandType::Mem => byte_at(memory, self.contents().1) as u16,
            _ => 0,
        }
    }

    /// An assembled instruction has the mnemonic and the contents that it
    /// was assembled from, and is neither of the two markers.
    pub proof fn lemma_assemble(
        mnemonic: Mnemonic,
        opcode: u8,
        operand: u16,
        operand_size: u8,
        operand_type: OperandType,
    )
        ensures
            Instruction::assemble(
                mnemonic,
                opcode,
                operand,
                operand_size,
                operand_type,
            ).mnemonic() == Some(mnemonic),
            Instruction::assemble(
                mnemonic,
                opcode,
                operand,
                operand_size,
                operand_type,
            ).contents() == (opcode, operand, operand_size, operand_type),
            !(Instruction::assemble(mnemonic, opcode, operand, operand_size, operand_type)
                is MyHalt),
            !(Instruction::assemble(mnemonic, opcode, operand, operand_size, operand_type)
                is Unknown),
    {
    }

    /// Builds the instruction with the given mnemonic and contents.
    pub fn new(
        mnemonic: Mnemonic,
        opcode: u8,
        operand: u16,
        operand_size: u8,
        operand_type: OperandType,
    ) -> (inst: Instruction)
        ensures
            inst == Instruction::assemble(mnemonic, opcode, operand, operand_size, operand_type),
            inst.mnemonic() == Some(mnemonic),
            inst.contents() == (opcode, operand, operand_size, operand_type),
    {
        match mnemonic {
            Mnemonic::ADC => Instruction::ADC(opcode, operand, operand_size, operand_type),
            Mnemonic::AND => Instruction::AND(opcode, operand, operand_size, operand_type),
            Mnemonic::ASL => Instruction::ASL(opcode, operand, operand_size, operand_type),
            Mnemonic::BCC => Instruction::BCC(opcode, operand, operand_size, operand_type),
            Mnemonic::BCS => Instruction::BCS(opcode, operand, operand_size, operand_type),
            Mnemonic::BEQ => Instruction::BEQ(opcode, operand, operand_size, operand_type),
            Mnemonic::BIT => Instruction::BIT(opcode, operand, operand_size, operand_type),
            Mnemonic::BMI => Instruction::BMI(opcode, operand, operand_size, operand_type),
            Mnemonic::BNE => Instruction::BNE(opcode, operand, operand_size, operand_type),
            Mnemonic::BPL => Instruction::BPL(opcode, operand, operand_size, operand_type),
            Mnemonic::BRK => Instruction::BRK(opcode, operand, operand_size, operand_type),
            Mnemonic::BVC => Instruction::BVC(opcode, operand, operand_size, operand_type),
            Mnemonic::BVS => Instruction::BVS(opcode, operand, operand_size, operand_type),
            Mnemonic::CLC => Instruction::CLC(opcode, operand, operand_size, operand_type),
            Mnemonic::CLD => Instruction::CLD(opcode, operand, operand_size, operand_type),
            Mnemonic::CLI => Instruction::CLI(opcode, operand, operand_size, operand_type),
            Mnemonic::CLV => Instruction::CLV(opcode, operand, operand_size, operand_type),
            Mnemonic::CMP => Instruction::CMP(opcode, operand, operand_size, operand_type),
            Mnemonic::CPX => Instruction::CPX(opcode, operand, operand_size, operand_type),
            Mnemonic::CPY => Instruction::CPY(opcode, operand, operand_size, operand_type),
            Mnemonic::DEC => Instruction::DEC(opcode, operand, operand_size, operand_type),
            Mnemonic::DEX => Instruction::DEX(opcode, operand, operand_size, operand_type),
            Mnemonic::DEY => Instruction::DEY(opcode, operand, operand_size, operand_type),
            Mnemonic::EOR => Instruction::EOR(opcode, operand, operand_size, operand_type),
            Mnemonic::INC => Instruction::INC(opcode, operand, operand_size, operand_type),
            Mnemonic::INX => Instruction::INX(opcode, operand, operand_size, operand_type),
            Mnemonic::INY => Instruction::INY(opcode, operand, operand_size, operand_type),
            Mnemonic::JMP => Instruction::JMP(opcode, operand, operand_size, operand_type),
            Mnemonic::JSR => Instruction::JSR(opcode, operand, operand_size, operand_type),
            Mnemonic::LDA => Instruction::LDA(opcode, operand, operand_size, operand_type),
            Mnemonic::LDX => Instruction::LDX(opcode, operand, operand_size, operand_type),
            Mnemonic::LDY => Instruction::LDY(opcode, operand, operand_size, operand_type),
            Mnemonic::LSR => Instruction::LSR(opcode, operand, operand_size, operand_type),
            Mnemonic::NOP => Instruction::NOP(opcode, operand, operand_size, operand_type),
            Mnemonic::ORA => Instruction::ORA(opcode, operand, operand_size, operand_type),
            Mnemonic::PHA => Instruction::PHA(opcode, operand, operand_size, operand_type),
            Mnemonic::PHP => Instruction::PHP(opcode, operand, operand_size, operand_type),
            Mnemonic::PLA => Instruction::PLA(opcode, operand, operand_size, operand_type),
            Mnemonic::PLP => Instruction::PLP(opcode, operand, operand_size, operand_type),
            Mnemonic::ROL => Instruction::ROL(opcode, operand, operand_size, operand_type),
            Mnemonic::ROR => Instruction::ROR(opcode, operand, operand_size, operand_type),
            Mnemonic::RTI => Instruction::RTI(opcode, operand, operand_size, operand_type),
            Mnemonic::RTS => Instruction::RTS(opcode, operand, operand_size, operand_type),
            Mnemonic::SBC => Instruction::SBC(opcode, operand, operand_size, operand_type),
            Mnemonic::SEC => Instruction::SEC(opcode, operand, operand_size, operand_type),
            Mnemonic::SED => Instruction::SED(opcode, operand, operand_size, operand_type),
            Mnemonic::SEI => Instruction::SEI(opcode, operand, operand_size, operand_type),
            Mnemonic::STA => Instruction::STA(opcode, operand, operand_size, operand_type),
            Mnemonic::STX => Instruction::STX(opcode, operand, operand_size, operand_type),
            Mnemonic::STY => Instruction::STY(opcode, operand, operand_size, operand_type),
            Mnemonic::TAX => Instruction::TAX(opcode, operand, operand_size, operand_type),
            Mnemonic::TAY => Instruction::TAY(opcode, operand, operand_size, operand_type),
            Mnemonic::TSX => Instruction::TSX(opcode, operand, operand_size, operand_type),
            Mnemonic::TXA => Instruction::TXA(opcode, operand, operand_size, operand_type),
            Mnemonic::TXS => Instruction::TXS(opcode, operand, operand_size, operand_type),
            Mnemonic::TYA => Instruction::TYA(opcode, operand, operand_size, operand_type),
        }
    }

    /// The opcode byte, the operand, the number of operand bytes and the
    /// operand type of the instruction.
    pub fn get_contents(&self) -> (contents: (u8, u16, u8, &OperandType))
        ensures
            contents.0 == self.contents().0,
            contents.1 == self.contents().1,
            contents.2 == self.contents().2,
            *contents.3 == self.contents().3,
    {
        match self {
              Instruction::ADC(opcode, operand, operand_size, operand_type)
            | Instruction::AND(opcode, operand, operand_size, operand_type)
            | Instruction::ASL(opcode, operand, operand_size, operand_type)
            | Instruction::BCC(opcode, operand, operand_size, operand_type)
            | Instruction::BCS(opcode, operand, operand_size, operand_type)
            | Instruction::BEQ(opcode, operand, operand_size, operand_type)
            | Instruction::BIT(opcode, operand, operand_size, operand_type)
            | Instruction::BMI(opcode, operand, operand_size, operand_type)
            | Instruction::BNE(opcode, operand, operand_size, operand_type)
            | Instruction::BPL(opcode, operand, operand_size, operand_type)
            | Instruction::BRK(opcode, operand, operand_size, operand_type)
            | Instruction::BVC(opcode, operand, operand_size, operand_type)
            | Instruction::BVS(opcode, operand, operand_size, operand_type)
            | Instruction::CLC(opcode, operand, operand_size, operand_type)
            | Instruction::CLD(opcode, operand, operand_size, operand_type)
            | Instruction::CLI(opcode, operand, operand_size, operand_type)
            | Instruction::CLV(opcode, operand, operand_size, operand_type)
            | Instruction::CMP(opcode, operand, operand_size, operand_type)
            | Instruction::CPX(opcode, operand, operand_size, operand_type)
            | Instruction::CPY(opcode, operand, operand_size, operand_type)
            | Instruction::DEC(opcode, operand, operand_size, operand_type)
            | Instruction::DEX(opcode, operand, operand_size, operand_type)
            | Instruction::DEY(opcode, operand, operand_size, operand_type)
            | Instruction::EOR(opcode, operand, operand_size, operand_type)
            | Instruction::INC(opcode, operand, operand_size, operand_type)
            | Instruction::INX(opcode, operand, operand_size, operand_type)
            | Instruction::INY(opcode, operand, operand_size, operand_type)
            | Instruction::JMP(opcode, operand, operand_size, operand_type)
            | Instruction::JSR(opcode, operand, operand_size, operand_type)
            | Instruction::LDA(opcode, operand, operand_size, operand_type)
            | Instruction::LDX(opcode, operand, operand_size, operand_type)
            | Instruction::LDY(opcode, operand, operand_size, operand_type)
            | Instruction::LSR(opcode, operand, operand_size, operand_type)
            | Instruction::NOP(opcode, operand, operand_size, operand_type)
            | Instruction::ORA(opcode, operand, operand_size, operand_type)
            | Instruction::PHA(opcode, operand, operand_size, operand_type)
            | Instruction::PHP(opcode, operand, operand_size, operand_type)
            | Instruction::PLA(opcode, operand, operand_size, operand_type)
            | Instruction::PLP(opcode, operand, operand_size, operand_type)
            | Instruction::ROL(opcode, operand, operand_size, operand_type)
            | Instruction::ROR(opcode, operand, operand_size, operand_type)
            | Instruction::RTI(opcode, operand, operand_size, operand_type)
            | Instruction::RTS(opcode, operand, operand_size, operand_type)
            | Instruction::SBC(opcode, operand, operand_size, operand_type)
            | Instruction::SEC(opcode, operand, operand_size, operand_type)
            | Instruction::SED(opcode, operand, operand_size, operand_type)
            | Instruction::SEI(opcode, operand, operand_size, operand_type)
            | Instruction::STA(opcode, operand, operand_size, operand_type)
            | Instruction::STX(opcode, operand, operand_size, operand_type)
            | Instruction::STY(opcode, operand, operand_size, operand_type)
            | Instruction::TAX(opcode, operand, operand_size, operand_type)
            | Instruction::TAY(opcode, operand, operand_size, operand_type)
            | Instruction::TSX(opcode, operand, operand_size, operand_type)
            | Instruction::TXA(opcode, operand, operand_size, operand_type)
            | Instruction::TXS(opcode, operand, operand_size, operand_type)
            | Instruction::TYA(opcode, operand, operand_size, operand_type) => (
                *opcode,
                *operand,
                *operand_size,
                operand_type,
            ),
            Instruction::MyHalt(_) => (HALT_OPCODE, 0, 0, &OperandType::Imm),
            Instruction::Unknown(opcode) => (*opcode, 0, 0, &OperandType::Implied),
        }
    }

    /// The opcode byte of the instruction.
    pub fn get_opcode(&self) -> (opcode: u8)
        ensures
            opcode == self.contents().0,
    {
        self.get_contents().0
    }

    /// The number of operand bytes of the instruction.
    pub fn get_operand_size(&self) -> (size: u8)
        ensures
            size == self.contents().2,
    {
        self.get_contents().2
    }

    /// The addressing mode that the opcode byte of the instruction selects;
    /// the two markers have none.
    pub fn addressing_mode(&self) -> (mode: Option<AddressingMode>)
        ensures
            mode == mode_of(self.contents().0),
            self.well_formed() ==> (match mode {
                Some(mode) => {
                    &&& self.contents().2 == mode.operand_size()
                    &&& self.contents().3 == mode.operand_type()
                },
                None => self is MyHalt || self is Unknown,
            }),
    {
        match lookup_opcode(self.get_opcode()) {
            Some((_, mode)) => Some(mode),
            None => None,
        }
    }

    /// The value that the instruction works on. The memory is only read.
    pub fn get_operand(&self, memory: &mut MemoryBus) -> (value: u16)
        ensures
            value == self.operand_value(old(memory)@),
            final(memory)@ == old(memory)@,
    {
        match self.get_contents().3 {
            OperandType::Imm => self.get_contents().1,
            OperandType::Mem => memory.read(self.get_contents().1) as u16,
            _ => 0,
        }
    }
}

/// The execution rule of one mnemonic: what an instruction with that
/// mnemonic does to the processor and to the memory.
pub trait InstEXE {
    /// Applies `inst` to the processor and the memory by this rule.
    fn execute(cpu: &mut CPU, inst: &Instruction, memory: &mut MemoryBus);
}

/// The rule of ADC: add to the accumulator.
pub struct ADCInst;

impl InstEXE for ADCInst {
    /// Adds the low byte of the operand value to the accumulator, in eight
    /// bits. The carry flag says whether the unsigned sum left the range of
    /// a byte, the overflow flag whether the signed sum did, and the negative
    /// and zero flags describe the new accumulator. The carry flag is not
    /// added in, and the decimal flag has no effect.
    fn execute(cpu: &mut CPU, inst: &Instruction, memory: &mut MemoryBus)
        ensures
            *final(cpu) == old(cpu).with_sum(low_byte(inst.operand_value(old(memory)@))),
            final(memory)@ == old(memory)@,
    {
        let operand = take_low_byte(inst.get_operand(memory));
        cpu.status.overflow = detect_signed_overflow(cpu.a, operand);
        cpu.status.carry = cpu.a > 0xFF - operand;
        cpu.a = cpu.a.wrapping_add(operand);
        cpu.set_nz(cpu.a);
    }
}

/// The rule of LDA: load the accumulator.
pub struct LDAInst;

impl InstEXE for LDAInst {
    /// Puts the low byte of the operand value into the accumulator and sets
    /// the negative and zero flags from it.
    fn execute(cpu: &mut CPU, inst: &Instruction, memory: &mut MemoryBus)
        ensures
            *final(cpu) == old(cpu).with_accumulator(low_byte(inst.operand_value(old(memory)@))),
            final(memory)@ == old(memory)@,
    {
        let operand = inst.get_operand(memory);
        cpu.a = take_low_byte(operand);
        cpu.set_nz(cpu.a);
    }
}

/// Whether the sum of `a` and `b`, both read as signed bytes, leaves the
/// range of a signed byte.
fn detect_signed_overflow(a: u8, b: u8) -> (overflows: bool)
    ensures
        overflows == signed_sum_overflows(a, b),
{
    let sa: i16 = if a >= 0x80 {
        a as i16 - 0x100
    } else {
        a as i16
    };
    let sb: i16 = if b >= 0x80 {
        b as i16 - 0x100
    } else {
        b as i16
    };
    let sum: i16 = sa + sb;
    sum < -0x80 || sum > 0x7F
}

} // verus!
