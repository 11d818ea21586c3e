use nesemu::machine::addressing::{make_word, AddressingMode, OperandType};
use nesemu::machine::cpu::CPU;
use nesemu::machine::memory::MemoryBus;

fn memory_with(bytes: &[(u16, u8)]) -> MemoryBus {
    let mut memory = MemoryBus::new();
    for (addr, data) in bytes {
        memory.write(*addr, *data);
    }
    memory
}

#[test]
fn word_is_little_endian() {
    assert_eq!(make_word(0x34, 0x12), 0x1234);
    assert_eq!(make_word(0xFF, 0xFF), 0xFFFF);
    assert_eq!(make_word(0x00, 0x00), 0x0000);
}

#[test]
fn operand_sizes_by_mode() {
    assert_eq!(AddressingMode::Implied.operand_size(), 0);
    assert_eq!(AddressingMode::Accumulator.operand_size(), 0);
    assert_eq!(AddressingMode::Immediate.operand_size(), 1);
    assert_eq!(AddressingMode::ZeroPage.operand_size(), 1);
    assert_eq!(AddressingMode::ZeroPageX.operand_size(), 1);
    assert_eq!(AddressingMode::ZeroPageY.operand_size(), 1);
    assert_eq!(AddressingMode::Relative.operand_size(), 1);
    assert_eq!(AddressingMode::IndexedIndirect.operand_size(), 1);
    assert_eq!(AddressingMode::IndirectIndexed.operand_size(), 1);
    assert_eq!(AddressingMode::Absolute.operand_size(), 2);
    assert_eq!(AddressingMode::AbsoluteX.operand_size(), 2);
    assert_eq!(AddressingMode::AbsoluteY.operand_size(), 2);
    assert_eq!(AddressingMode::Indirect.operand_size(), 2);
}

#[test]
fn operand_types_by_mode() {
    assert_eq!(AddressingMode::Immediate.operand_type(), OperandType::Imm);
    assert_eq!(AddressingMode::ZeroPage.operand_type(), OperandType::Mem);
    assert_eq!(AddressingMode::AbsoluteY.operand_type(), OperandType::Mem);
    assert_eq!(AddressingMode::IndexedIndirect.operand_type(), OperandType::Mem);
    assert_eq!(AddressingMode::Implied.operand_type(), OperandType::Implied);
    assert_eq!(AddressingMode::Accumulator.operand_type(), OperandType::Accumulator);
    assert_eq!(AddressingMode::Relative.operand_type(), OperandType::Relative);
    assert_eq!(AddressingMode::Indirect.operand_type(), OperandType::Indirect);
}

#[test]
fn immediate_reads_one_byte() {
    let memory = memory_with(&[(0x10, 0x42)]);
    let mut cpu = CPU::new();
    cpu.pc = 0x10;
    assert_eq!(cpu._resolve_imm_opnd(&memory), 0x42);
    assert_eq!(cpu.pc, 0x11);
}

#[test]
fn zero_page_reads_one_byte() {
    let memory = memory_with(&[(0x10, 0x80)]);
    let mut cpu = CPU::new();
    cpu.pc = 0x10;
    assert_eq!(cpu._resolve_zero_page_opnd(&memory), 0x0080);
    assert_eq!(cpu.pc, 0x11);
}

#[test]
fn zero_page_x_wraps_within_the_zero_page() {
    let memory = memory_with(&[(0x10, 0xF0)]);
    let mut cpu = CPU::new();
    cpu.pc = 0x10;
    cpu.x = 0x20;
    assert_eq!(cpu._resolve_zero_page_x_opnd(&memory), 0x0010);
    assert_eq!(cpu.pc, 0x11);
    cpu.pc = 0x10;
    cpu.x = 0x05;
    assert_eq!(cpu._resolve_zero_page_x_opnd(&memory), 0x00F5);
}

#[test]
fn zero_page_y_wraps_within_the_zero_page() {
    let memory = memory_with(&[(0x10, 0xFF)]);
    let mut cpu = CPU::new();
    cpu.pc = 0x10;
    cpu.y = 0x02;
    assert_eq!(cpu._resolve_zero_page_y_opnd(&memory), 0x0001);
    assert_eq!(cpu.pc, 0x11);
}

#[test]
fn absolute_reads_two_bytes() {
    let memory = memory_with(&[(0x10, 0x34), (0x11, 0x12)]);
    let mut cpu = CPU::new();
    cpu.pc = 0x10;
    assert_eq!(cpu._resolve_absolute_opnd(&memory), 0x1234);
    assert_eq!(cpu.pc, 0x12);
}

#[test]
fn absolute_x_crosses_pages_and_wraps_in_sixteen_bits() {
    let memory = memory_with(&[(0x10, 0xFF), (0x11, 0x12), (0x20, 0xFF), (0x21, 0xFF)]);
    let mut cpu = CPU::new();
    cpu.pc = 0x10;
    cpu.x = 0x01;
    assert_eq!(cpu._resolve_absolute_x_opnd(&memory), 0x1300);
    assert_eq!(cpu.pc, 0x12);
    cpu.pc = 0x20;
    cpu.x = 0x02;
    assert_eq!(cpu._resolve_absolute_x_opnd(&memory), 0x0001);
}

#[test]
fn absolute_y_adds_y() {
    let memory = memory_with(&[(0x10, 0x00), (0x11, 0x20)]);
    let mut cpu = CPU::new();
    cpu.pc = 0x10;
    cpu.x = 0x77;
    cpu.y = 0x10;
    assert_eq!(cpu._resolve_absolute_y_opnd(&memory), 0x2010);
    assert_eq!(cpu.pc, 0x12);
}

#[test]
fn indirect_follows_the_pointer() {
    let memory =
        memory_with(&[(0x10, 0x00), (0x11, 0x30), (0x3002, 0xCD), (0x3003, 0xAB)]);
    let mut cpu = CPU::new();
    cpu.pc = 0x10;
    cpu.x = 0x02;
    assert_eq!(cpu._resolve_indirect_opnd(&memory), 0xABCD);
    assert_eq!(cpu.pc, 0x12);
}

#[test]
fn indirect_pointer_crosses_a_page_boundary() {
    let memory =
        memory_with(&[(0x10, 0xFF), (0x11, 0x30), (0x30FF, 0x78), (0x3100, 0x56), (0x3000, 0x99)]);
    let mut cpu = CPU::new();
    cpu.pc = 0x10;
    assert_eq!(cpu._resolve_indirect_opnd(&memory), 0x5678);
}

#[test]
fn indexed_indirect_wraps_the_pointer_address() {
    let memory = memory_with(&[(0x10, 0xFE), (0x03, 0x34), (0x04, 0x12)]);
    let mut cpu = CPU::new();
    cpu.pc = 0x10;
    cpu.x = 0x05;
    assert_eq!(cpu._resolve_index_indirect_opnd(&memory), 0x1234);
    assert_eq!(cpu.pc, 0x11);
}

#[test]
fn indexed_indirect_reads_the_high_byte_after_the_zero_page() {
    let memory = memory_with(&[(0x10, 0xFF), (0xFF, 0x34), (0x100, 0x12), (0x00, 0x99)]);
    let mut cpu = CPU::new();
    cpu.pc = 0x10;
    cpu.x = 0x00;
    assert_eq!(cpu._resolve_index_indirect_opnd(&memory), 0x1234);
}

#[test]
fn indirect_indexed_adds_y_to_the_pointer_value() {
    let memory = memory_with(&[(0x10, 0x40), (0x40, 0xF0), (0x41, 0x12)]);
    let mut cpu = CPU::new();
    cpu.pc = 0x10;
    cpu.y = 0x20;
    assert_eq!(cpu._resolve_indirect_index_opnd(&memory), 0x1310);
    assert_eq!(cpu.pc, 0x11);
}

#[test]
fn indirect_indexed_pointer_stays_in_the_zero_page() {
    let memory = memory_with(&[(0x10, 0xFF), (0xFF, 0x34), (0x00, 0x12), (0x100, 0x99)]);
    let mut cpu = CPU::new();
    cpu.pc = 0x10;
    cpu.y = 0x01;
    assert_eq!(cpu._resolve_indirect_index_opnd(&memory), 0x1235);
}

#[test]
fn resolve_operand_goes_by_the_mode() {
    let memory = memory_with(&[(0x10, 0x34), (0x11, 0x12), (0x1234, 0x78), (0x1235, 0x56)]);
    let mut cpu = CPU::new();
    cpu.x = 0x01;
    cpu.y = 0x02;
    let cases = [
        (AddressingMode::Immediate, 0x0034u16, 1u16),
        (AddressingMode::Relative, 0x0034, 1),
        (AddressingMode::ZeroPage, 0x0034, 1),
        (AddressingMode::ZeroPageX, 0x0035, 1),
        (AddressingMode::ZeroPageY, 0x0036, 1),
        (AddressingMode::Absolute, 0x1234, 2),
        (AddressingMode::AbsoluteX, 0x1235, 2),
        (AddressingMode::AbsoluteY, 0x1236, 2),
        (AddressingMode::Implied, 0, 0),
        (AddressingMode::Accumulator, 0, 0),
    ];
    for (mode, operand, size) in cases {
        cpu.pc = 0x10;
        assert_eq!(cpu.resolve_operand(mode, &memory), operand);
        assert_eq!(cpu.pc, 0x10 + size);
    }
    cpu.pc = 0x10;
    cpu.x = 0;
    assert_eq!(cpu.resolve_operand(AddressingMode::Indirect, &memory), 0x5678);
    assert_eq!(cpu.pc, 0x12);
}

#[test]
fn resolver_wraps_pc_at_the_end_of_memory() {
    let memory = memory_with(&[(0xFFFF, 0x34), (0x0000, 0x12)]);
    let mut cpu = CPU::new();
    cpu.pc = 0xFFFF;
    assert_eq!(cpu._resolve_absolute_opnd(&memory), 0x1234);
    assert_eq!(cpu.pc, 0x0001);
}
