//! An emulator core for the MOS 6502 processor family.
//!
//! The crate models the instruction-processing engine of the processor: a
//! flat 64 KiB memory, the operand resolution of every addressing mode, the
//! decoding of opcode bytes into instructions, the execution of the
//! instructions that have an execution rule, the status register and a
//! lookahead that inspects the next instruction without consuming it.
//! Every function carries a contract over a mathematical model of the
//! machine, and the contracts are checked by Verus.

use vstd::prelude::*;

pub mod machine;

verus! {

/// The assembly listing that `rs6502` writes for the bytes `code`, with its
/// default settings: one line for each instruction, with its byte offset.
pub uninterp spec fn listing(code: Seq<u8>) -> Seq<char>;

/// The length in bytes that `rs6502` lists for the instruction with the
/// opcode `opcode`, its opcode byte included; `None` for a byte that is no
/// opcode to it.
pub uninterp spec fn listed_length(opcode: u8) -> Option<u8>;

/// The opcodes of the relative branches.
pub open spec fn is_branch_opcode(opcode: u8) -> bool {
    opcode == 0x10 || opcode == 0x30 || opcode == 0x50 || opcode == 0x70 || opcode == 0x90
        || opcode == 0xB0 || opcode == 0xD0 || opcode == 0xF0
}

/// The branch offsets for which the disassembler's address arithmetic leaves
/// the range of its integers: minus one and minus 128.
pub open spec fn is_extreme_offset(offset: u8) -> bool {
    offset == 0xFF || offset == 0x80
}

/// The bytes of `code` from `at` on can be disassembled.
///
/// The disassembler walks the bytes instruction by instruction. Each
/// instruction has to lie within `code` with all its operand bytes, a branch
/// may not carry an extreme offset, and a byte that is no opcode counts as
/// one byte of data.
pub open spec fn listable_from(code: Seq<u8>, at: int) -> bool
    decreases code.len() - at,
{
    if at < 0 {
        false
    } else if at >= code.len() {
        true
    } else {
        match listed_length(code[at]) {
            None => listable_from(code, at + 1),
            Some(length) => {
                &&& 1 <= length
                &&& at + length <= code.len()
                &&& is_branch_opcode(code[at]) ==> 2 <= length && !is_extreme_offset(code[at + 1])
                &&& listable_from(code, at + length)
            },
        }
    }
}

/// The bytes `code` can be disassembled as a whole.
pub open spec fn listable(code: Seq<u8>) -> bool {
    listable_from(code, 0)
}

/// Calls `rs6502::OpCode::from_raw_byte` and hands back the `length` field
/// of the entry that it finds. The function searches a fixed table for the
/// byte, so the result depends on the byte alone.
#[verifier::external_body]
fn opcode_length(opcode: u8) -> (length: Option<u8>)
    ensures
        length == listed_length(opcode),
{
    rs6502::OpCode::from_raw_byte(opcode).map(|entry| entry.length)
}

/// Calls `rs6502::Disassembler::disassemble` on a disassembler made by
/// `rs6502::Disassembler::new`. The result depends on the bytes alone. The
/// function reads the operand bytes of each instruction without a bounds
/// check, and computes branch targets without an overflow check, so it is
/// called on listable bytes only.
#[verifier::external_body]
fn list_instructions(code: &Vec<u8>) -> (text: String)
    requires
        listable(code@),
    ensures
        text@ == listing(code@),
{
    let dasm = rs6502::Disassembler::new();
    dasm.disassemble(code)
}

/// Whether `code` can be disassembled.
pub fn can_disassemble(code: &Vec<u8>) -> (ok: bool)
    ensures
        ok == listable(code@),
{
    let mut at: usize = 0;
    while at < code.len()
        invariant
            at <= code.len(),
            listable(code@) == listable_from(code@, at as int),
        decreases code.len() - at,
    {
        match opcode_length(code[at]) {
            None => {
                at = at + 1;
            },
            Some(length) => {
                if length < 1 || length as usize > code.len() - at {
                    return false;
                }
                if is_branch(code[at]) {
                    if length < 2 {
                        return false;
                    }
                    let offset = code[at + 1];
                    if offset == 0xFF || offset == 0x80 {
                        return false;
                    }
                }
                at = at + length as usize;
            },
        }
    }
    true
}

/// Whether `opcode` is the opcode of a relative branch.
fn is_branch(opcode: u8) -> (branch: bool)
    ensures
        branch == is_branch_opcode(opcode),
{
    opcode == 0x10 || opcode == 0x30 || opcode == 0x50 || opcode == 0x70 || opcode == 0x90
        || opcode == 0xB0 || opcode == 0xD0 || opcode == 0xF0
}

/// The assembly listing of `code`.
pub fn disassemble(code: &Vec<u8>) -> (text: String)
    requires
        listable(code@),
    ensures
        text@ == listing(code@),
{
    list_instructions(code)
}

/// The assembly listing of `code`, where `code` can be disassembled, and
/// `None` where it cannot.
pub fn try_disassemble(code: &Vec<u8>) -> (found: Option<String>)
    ensures
        found is Some <==> listable(code@),
        found matches Some(text) ==> text@ == listing(code@),
{
    if can_disassemble(code) {
        Some(disassemble(code))
    } else {
        None
    }
}

} // verus!
