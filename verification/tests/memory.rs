use nesemu::machine::memory::{MemoryBus, MEMORY_SIZE};

#[test]
fn new_memory_is_blank() {
    let memory = MemoryBus::new();
    for addr in 0..=0xFFFFu16 {
        assert_eq!(memory.read(addr), 0);
    }
}

#[test]
fn memory_spans_the_address_space() {
    assert_eq!(MEMORY_SIZE, 65536);
    let mut memory = MemoryBus::new();
    memory.write(0xFFFF, 0x5A);
    assert_eq!(memory.read(0xFFFF), 0x5A);
}

#[test]
fn write_changes_one_byte_only() {
    let mut memory = MemoryBus::new();
    memory.write(0x1234, 0xAB);
    assert_eq!(memory.read(0x1234), 0xAB);
    assert_eq!(memory.read(0x1233), 0);
    assert_eq!(memory.read(0x1235), 0);
    memory.write(0x1234, 0xCD);
    assert_eq!(memory.read(0x1234), 0xCD);
}

#[test]
fn memory_reset_zeroes_every_byte() {
    let mut memory = MemoryBus::new();
    memory.write(0x0000, 1);
    memory.write(0x8000, 2);
    memory.write(0xFFFF, 3);
    memory.reset();
    for addr in 0..=0xFFFFu16 {
        assert_eq!(memory.read(addr), 0);
    }
}
