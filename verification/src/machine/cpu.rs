//! The processor: its registers, the operand resolver, the decoder, the
//! lookahead and the executor.

use vstd::prelude::*;

use crate::machine::addressing::{byte_at, make_word, resolve, AddressingMode};
use crate::machine::instruction::{ADCInst, InstEXE, Instruction, LDAInst};
use crate::machine::memory::MemoryBus;
use crate::machine::opcodes::{lookup_opcode, opcode_entry, HALT_OPCODE};
use crate::machine::status::{lemma_bit7, StatusRegister};

verus! {

/// The registers of the processor.
///
/// `pc` always points at the next byte that has not been consumed.
#[derive(Clone, Copy, Debug, PartialEq, Eq)]
pub struct CPU {
    pub a: u8,
    pub x: u8,
    pub y: u8,
    pub status: StatusRegister,
    pub pc: u16,
}

/// The instruction that the bytes of `memory` at `pc` encode, when the index
/// registers hold `x` and `y`. The operand bytes follow the opcode byte. The
/// halt opcode gives the halt marker, and any other opcode without an entry
/// in the opcode table gives `Unknown`.
pub open spec fn decode(memory: Seq<u8>, pc: u16, x: u8, y: u8) -> Instruction {
    let opcode = byte_at(memory, pc);
    match opcode_entry(opcode) {
        Some((mnemonic, mode)) => Instruction::assemble(
            mnemonic,
            opcode,
            resolve(mode, memory, pc.wrapping_add(1), x, y),
            mode.operand_size(),
            mode.operand_type(),
        ),
        None => if opcode == HALT_OPCODE {
            Instruction::MyHalt(HALT_OPCODE)
        } else {
            Instruction::Unknown(opcode)
        },
    }
}

/// The number of bytes that `inst` takes up in memory: its opcode byte and
/// its operand bytes.
pub open spec fn encoded_size(inst: Instruction) -> u16 {
    (1 + inst.contents().2) as u16
}

/// Whatever the memory holds, the instruction at `pc` is well formed: it
/// reports the operand size and the operand type of its addressing mode, so
/// it has at most two operand bytes, and an instruction without an entry in
/// the opcode table has none.
pub proof fn lemma_decode_is_well_formed(memory: Seq<u8>, pc: u16, x: u8, y: u8)
    ensures
        decode(memory, pc, x, y).well_formed(),
        decode(memory, pc, x, y).contents().0 == byte_at(memory, pc),
        decode(memory, pc, x, y).contents().2 <= 2,
        opcode_entry(byte_at(memory, pc)) is None ==> decode(memory, pc, x, y).contents().2 == 0,
{
    let opcode = byte_at(memory, pc);
    match opcode_entry(opcode) {
        Some((mnemonic, mode)) => {
            Instruction::lemma_assemble(
                mnemonic,
                opcode,
                resolve(mode, memory, pc.wrapping_add(1), x, y),
                mode.operand_size(),
                mode.operand_type(),
            );
        },
        None => {},
    }
}

/// The low byte of `value`.
pub open spec fn low_byte(value: u16) -> u8 {
    (value % 0x100) as u8
}

/// The low byte of `value`.
pub fn take_low_byte(value: u16) -> (byte: u8)
    ensures
        byte == low_byte(value),
{
    (value % 0x100) as u8
}

/// The number that `value` stands for when it is read as a signed byte, in
/// two's complement.
pub open spec fn signed(value: u8) -> int {
    if value >= 0x80 {
        value - 0x100
    } else {
        value as int
    }
}

/// The sum of `a` and `b`, both read as signed bytes, leaves the range of a
/// signed byte.
pub open spec fn signed_sum_overflows(a: u8, b: u8) -> bool {
    signed(a) + signed(b) < -0x80 || signed(a) + signed(b) > 0x7F
}

/// The sum of `a` and `b`, both read as unsigned bytes, leaves the range of
/// a byte.
pub open spec fn unsigned_sum_overflows(a: u8, b: u8) -> bool {
    a + b > 0xFF
}

/// An instruction has an execution rule when it is an LDA, an ADC or the
/// halt marker.
pub open spec fn has_execution_rule(inst: Instruction) -> bool {
    inst is LDA || inst is ADC || inst is MyHalt
}

/// Why an instruction was not executed.
#[derive(Clone, Copy, Debug, PartialEq, Eq)]
pub enum CpuError {
    /// The instruction with this opcode byte has no execution rule.
    UnimplementedOpcode(u8),
}

impl CPU {
    /// The processor after a reset: every register and every flag is zero.
    pub open spec fn initial() -> CPU {
        CPU { a: 0, x: 0, y: 0, status: StatusRegister::cleared(), pc: 0 }
    }

    /// The processor with `pc` moved forward by `count` bytes. After
    /// `0xFFFF` comes `0x0000`.
    pub open spec fn advanced(self, count: u16) -> CPU {
        CPU { pc: self.pc.wrapping_add(count), ..self }
    }

    /// The processor with `pc` moved back by `count` bytes. Before `0x0000`
    /// comes `0xFFFF`.
    pub open spec fn rewound(self, count: u16) -> CPU {
        CPU { pc: self.pc.wrapping_sub(count), ..self }
    }

    /// The processor after `value` was loaded into the accumulator: the
    /// negative and zero flags describe `value`.
    pub open spec fn with_accumulator(self, value: u8) -> CPU {
        CPU { a: value, status: self.status.with_negative_zero(value), ..self }
    }

    /// The processor after `value` was added to the accumulator. The sum is
    /// taken in eight bits. The carry flag says whether the unsigned sum left
    /// the range of a byte, the overflow flag whether the signed sum did, and
    /// the negative and zero flags describe the new accumulator.
    pub open spec fn with_sum(self, value: u8) -> CPU {
        let sum = self.a.wrapping_add(value);
        CPU {
            a: sum,
            status: StatusRegister {
                carry: unsigned_sum_overflows(self.a, value),
                overflow: signed_sum_overflows(self.a, value),
                ..self.status.with_negative_zero(sum)
            },
            ..self
        }
    }

    /// The processor after `inst` was applied to it, `pc` being already past
    /// the instruction. LDA loads the low byte of its operand value, ADC adds
    /// it, and the halt marker moves `pc` back onto itself. An instruction
    /// without an execution rule leaves the processor as it is.
    pub open spec fn executed(self, inst: Instruction, memory: Seq<u8>) -> CPU {
        match inst {
            Instruction::LDA(..) => self.with_accumulator(low_byte(inst.operand_value(memory))),
            Instruction::ADC(..) => self.with_sum(low_byte(inst.operand_value(memory))),
            Instruction::MyHalt(_) => self.rewound(1),
            _ => self,
        }
    }

    /// The processor after one step: the instruction at `pc` is decoded,
    /// `pc` moves past it, and the instruction is applied.
    pub open spec fn stepped(self, memory: Seq<u8>) -> CPU {
        let inst = self.next_instruction(memory);
        self.advanced(encoded_size(inst)).executed(inst, memory)
    }

    /// The processor after a lookahead: `pc` moves past the instruction at
    /// `pc`, as in decoding, and then back by the size of that instruction.
    pub open spec fn peeked(self, memory: Seq<u8>) -> CPU {
        let inst = self.next_instruction(memory);
        self.advanced(encoded_size(inst)).rewound(encoded_size(inst))
    }

    /// How applying `inst` ends: well, or with the opcode that has no
    /// execution rule.
    pub open spec fn outcome(inst: Instruction) -> Result<(), CpuError> {
        if has_execution_rule(inst) {
            Ok(())
        } else {
            Err(CpuError::UnimplementedOpcode(inst.contents().0))
        }
    }

    /// The instruction at `pc`.
    pub open spec fn next_instruction(self, memory: Seq<u8>) -> Instruction {
        decode(memory, self.pc, self.x, self.y)
    }

    /// A processor in its initial state.
    pub fn new() -> (cpu: CPU)
        ensures
            cpu == CPU::initial(),
    {
        CPU { a: 0, x: 0, y: 0, status: StatusRegister::new(), pc: 0 }
    }

    /// Puts every register and every flag back to zero.
    pub fn reset(&mut self)
        ensures
            *final(self) == CPU::initial(),
    {
        self.a = 0;
        self.x = 0;
        self.y = 0;
        self.status = StatusRegister::new();
        self.pc = 0;
    }

    /// Consumes one operand byte: the immediate value.
    pub fn _resolve_imm_opnd(&mut self, memory: &MemoryBus) -> (operand: u16)
        ensures
            operand == resolve(
                AddressingMode::Immediate,
                memory@,
                old(self).pc,
                old(self).x,
                old(self).y,
            ),
            *final(self) == old(self).advanced(1),
    {
        let operand = memory.read(self.pc);
        self.pc = self.pc.wrapping_add(1);
        operand as u16
    }

    /// Consumes one operand byte: an address in the zero page.
    pub fn _resolve_zero_page_opnd(&mut self, memory: &MemoryBus) -> (operand: u16)
        ensures
            operand == resolve(
                AddressingMode::ZeroPage,
                memory@,
                old(self).pc,
                old(self).x,
                old(self).y,
            ),
            *final(self) == old(self).advanced(1),
    {
        let zero_page_addr = memory.read(self.pc);
        self.pc = self.pc.wrapping_add(1);
        zero_page_addr as u16
    }

    /// Consumes one operand byte: an address in the zero page, to which X is
    /// added without leaving the zero page.
    pub fn _resolve_zero_page_x_opnd(&mut self, memory: &MemoryBus) -> (operand: u16)
        ensures
            operand == resolve(
                AddressingMode::ZeroPageX,
                memory@,
                old(self).pc,
                old(self).x,
                old(self).y,
            ),
            operand <= 0xFF,
            *final(self) == old(self).advanced(1),
    {
        let zero_page_addr = memory.read(self.pc);
        self.pc = self.pc.wrapping_add(1);
        zero_page_addr.wrapping_add(self.x) as u16
    }

    /// Consumes one operand byte: an address in the zero page, to which Y is
    /// added without leaving the zero page.
    pub fn _resolve_zero_page_y_opnd(&mut self, memory: &MemoryBus) -> (operand: u16)
        ensures
            operand == resolve(
                AddressingMode::ZeroPageY,
                memory@,
                old(self).pc,
                old(self).x,
                old(self).y,
            ),
            operand <= 0xFF,
            *final(self) == old(self).advanced(1),
    {
        let zero_page_addr = memory.read(self.pc);
        self.pc = self.pc.wrapping_add(1);
        zero_page_addr.wrapping_add(self.y) as u16
    }

    /// Consumes two operand bytes: a little-endian address.
    pub fn _resolve_absolute_opnd(&mut self, memory: &MemoryBus) -> (operand: u16)
        ensures
            operand == resolve(
                AddressingMode::Absolute,
                memory@,
                old(self).pc,
                old(self).x,
                old(self).y,
            ),
            *final(self) == old(self).advanced(2),
    {
        let low_byte = memory.read(self.pc);
        self.pc = self.pc.wrapping_add(1);
        let high_byte = memory.read(self.pc);
        self.pc = self.pc.wrapping_add(1);
        make_word(low_byte, high_byte)
    }

    /// Consumes two operand bytes: a little-endian address, to which X is
    /// added.
    pub fn _resolve_absolute_x_opnd(&mut self, memory: &MemoryBus) -> (operand: u16)
        ensures
            operand == resolve(
                AddressingMode::AbsoluteX,
                memory@,
                old(self).pc,
                old(self).x,
                old(self).y,
            ),
            *final(self) == old(self).advanced(2),
    {
        let low_byte = memory.read(self.pc);
        self.pc = self.pc.wrapping_add(1);
        let high_byte = memory.read(self.pc);
        self.pc = self.pc.wrapping_add(1);
        make_word(low_byte, high_byte).wrapping_add(self.x as u16)
    }

    /// Consumes two operand bytes: a little-endian address, to which Y is
    /// added.
    pub fn _resolve_absolute_y_opnd(&mut self, memory: &MemoryBus) -> (operand: u16)
        ensures
            operand == resolve(
                AddressingMode::AbsoluteY,
                memory@,
                old(self).pc,
                old(self).x,
                old(self).y,
            ),
            *final(self) == old(self).advanced(2),
    {
        let low_byte = memory.read(self.pc);
        self.pc = self.pc.wrapping_add(1);
        let high_byte = memory.read(self.pc);
        self.pc = self.pc.wrapping_add(1);
        make_word(low_byte, high_byte).wrapping_add(self.y as u16)
    }

    /// Consumes two operand bytes: a little-endian address which, with X
    /// added, points at the address that is the operand.
    pub fn _resolve_indirect_opnd(&mut self, memory: &MemoryBus) -> (operand: u16)
        ensures
            operand == resolve(
                AddressingMode::Indirect,
                memory@,
                old(self).pc,
                old(self).x,
                old(self).y,
            ),
            *final(self) == old(self).advanced(2),
    {
        let low_byte = memory.read(self.pc);
        self.pc = self.pc.wrapping_add(1);
        let high_byte = memory.read(self.pc);
        self.pc = self.pc.wrapping_add(1);
        let indirect_addr = make_word(low_byte, high_byte).wrapping_add(self.x as u16);
        let low_byte = memory.read(indirect_addr);
        let high_byte = memory.read(indirect_addr.wrapping_add(1));
        make_word(low_byte, high_byte)
    }

    /// Consumes one operand byte: an address in the zero page which, with X
    /// added without leaving the zero page, points at the address that is
    /// the operand.
    pub fn _resolve_index_indirect_opnd(&mut self, memory: &MemoryBus) -> (operand: u16)
        ensures
            operand == resolve(
                AddressingMode::IndexedIndirect,
                memory@,
                old(self).pc,
                old(self).x,
                old(self).y,
            ),
            *final(self) == old(self).advanced(1),
    {
        let base_addr = memory.read(self.pc);
        self.pc = self.pc.wrapping_add(1);
        let addr = base_addr.wrapping_add(self.x) as u16;
        let low_byte = memory.read(addr);
        let high_byte = memory.read(addr.wrapping_add(1));
        make_word(low_byte, high_byte)
    }

    /// Consumes one operand byte: an address in the zero page that points at
    /// an address, to which Y is added.
    pub fn _resolve_indirect_index_opnd(&mut self, memory: &MemoryBus) -> (operand: u16)
        ensures
            operand == resolve(
                AddressingMode::IndirectIndexed,
                memory@,
                old(self).pc,
                old(self).x,
                old(self).y,
            ),
            *final(self) == old(self).advanced(1),
    {
        let indirect_addr = memory.read(self.pc);
        self.pc = self.pc.wrapping_add(1);
        let low_byte = memory.read(indirect_addr as u16);
        let high_byte = memory.read(indirect_addr.wrapping_add(1) as u16);
        make_word(low_byte, high_byte).wrapping_add(self.y as u16)
    }

    /// Resolves the operand of an instruction in the given addressing mode:
    /// consumes the operand bytes at `pc` and returns the immediate value or
    /// the effective address.
    pub fn resolve_operand(&mut self, mode: AddressingMode, memory: &MemoryBus) -> (operand: u16)
        ensures
            operand == resolve(mode, memory@, old(self).pc, old(self).x, old(self).y),
            *final(self) == old(self).advanced(mode.operand_size() as u16),
    {
        match mode {
            AddressingMode::Immediate | AddressingMode::Relative => self._resolve_imm_opnd(memory),
            AddressingMode::ZeroPage => self._resolve_zero_page_opnd(memory),
            AddressingMode::ZeroPageX => self._resolve_zero_page_x_opnd(memory),
            AddressingMode::ZeroPageY => self._resolve_zero_page_y_opnd(memory),
            AddressingMode::Absolute => self._resolve_absolute_opnd(memory),
            AddressingMode::AbsoluteX => self._resolve_absolute_x_opnd(memory),
            AddressingMode::AbsoluteY => self._resolve_absolute_y_opnd(memory),
            AddressingMode::Indirect => self._resolve_indirect_opnd(memory),
            AddressingMode::IndexedIndirect => self._resolve_index_indirect_opnd(memory),
            AddressingMode::IndirectIndexed => self._resolve_indirect_index_opnd(memory),
            AddressingMode::Implied | AddressingMode::Accumulator => 0,
        }
    }

    /// Decodes the instruction at `pc` and moves `pc` past it.
    ///
    /// `pc` moves forward by the opcode byte and by as many operand bytes as
    /// the instruction reports, and by nothing more: by one byte only for an
    /// opcode that has no meaning. No other register changes.
    pub fn fetch_inst(&mut self, memory: &MemoryBus) -> (inst: Instruction)
        ensures
            inst == old(self).next_instruction(memory@),
            inst.well_formed(),
            *final(self) == old(self).advanced(encoded_size(inst)),
            encoded_size(inst) == 1 + inst.contents().2,
            inst.contents().2 <= 2,
            old(self).pc + encoded_size(inst) <= 0xFFFF ==> final(self).pc == old(self).pc
                + encoded_size(inst),
    {
        let opcode = memory.read(self.pc);
        self.pc = self.pc.wrapping_add(1);
        match lookup_opcode(opcode) {
            Some((mnemonic, mode)) => {
                let operand = self.resolve_operand(mode, memory);
                Instruction::new(
                    mnemonic,
                    opcode,
                    operand,
                    mode.operand_size(),
                    mode.operand_type(),
                )
            },
            None => {
                if opcode == HALT_OPCODE {
                    Instruction::MyHalt(HALT_OPCODE)
                } else {
                    Instruction::Unknown(opcode)
                }
            },
        }
    }

    /// Decodes the instruction at `pc` without consuming it.
    ///
    /// The instruction is decoded as `fetch_inst` decodes it, and `pc` is
    /// then moved back by the opcode byte and by the operand bytes that the
    /// instruction reports. The processor is left exactly as it was.
    pub fn get_next_inst(&mut self, memory: &MemoryBus) -> (inst: Instruction)
        ensures
            inst == old(self).next_instruction(memory@),
            inst.well_formed(),
            *final(self) == old(self).peeked(memory@),
            *final(self) == *old(self),
    {
        let inst = self.fetch_inst(memory);
        self.pc = self.pc.wrapping_sub(1);
        match inst.get_operand_size() {
            1 => {
                self.pc = self.pc.wrapping_sub(1);
            },
            2 => {
                self.pc = self.pc.wrapping_sub(2);
            },
            _ => (),
        }
        inst
    }

    /// Decodes the instruction at `pc`, moves `pc` past it and applies it.
    ///
    /// Fails exactly when the instruction has no execution rule. Then `pc`
    /// has still moved past the instruction, and nothing else has changed.
    pub fn execute(&mut self, memory: &mut MemoryBus) -> (outcome: Result<(), CpuError>)
        ensures
            *final(self) == old(self).stepped(old(memory)@),
            outcome == CPU::outcome(old(self).next_instruction(old(memory)@)),
            final(memory)@ == old(memory)@,
    {
        let inst = self.fetch_inst(memory);
        self.interpret(&inst, memory)
    }

    /// Applies `inst` to the processor.
    ///
    /// Fails exactly when `inst` has no execution rule, with the opcode of
    /// `inst`, and then changes nothing.
    pub fn interpret(&mut self, inst: &Instruction, memory: &mut MemoryBus) -> (outcome: Result<
        (),
        CpuError,
    >)
        ensures
            *final(self) == old(self).executed(*inst, old(memory)@),
            outcome == CPU::outcome(*inst),
            outcome is Ok <==> has_execution_rule(*inst),
            outcome is Err ==> *final(self) == *old(self),
            final(memory)@ == old(memory)@,
    {
        match inst {
            Instruction::LDA(_, _, _, _) => {
                LDAInst::execute(self, inst, memory);
                Ok(())
            },
            Instruction::ADC(_, _, _, _) => {
                ADCInst::execute(self, inst, memory);
                Ok(())
            },
            Instruction::MyHalt(_) => {
                self.pc = self.pc.wrapping_sub(1);
                Ok(())
            },
            _ => Err(CpuError::UnimplementedOpcode(inst.get_opcode())),
        }
    }

    /// Sets the negative flag from bit 7 of `target_reg` and the zero flag
    /// from whether `target_reg` is zero. Nothing else changes.
    pub fn set_nz(&mut self, target_reg: u8)
        ensures
            *final(self) == (CPU {
                status: old(self).status.with_negative_zero(target_reg),
                ..*old(self)
            }),
    {
        proof {
            lemma_bit7(target_reg);
        }
        self.status.negative = (target_reg & 0b1000_0000) != 0;
        self.status.zero = target_reg == 0;
    }
}

} // verus!
