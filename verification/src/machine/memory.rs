//! The addressable memory: 65536 bytes, indexed by a 16-bit address.

use vstd::prelude::*;

verus! {

/// The number of bytes of the address space.
pub const MEMORY_SIZE: usize = 0x10000;

/// A sequence of bytes is a blank memory when it spans the whole address
/// space and every byte of it is zero.
pub open spec fn is_blank(bytes: Seq<u8>) -> bool {
    &&& bytes.len() == MEMORY_SIZE
    &&& forall|i: int| 0 <= i < MEMORY_SIZE ==> bytes[i] == 0
}

/// The blank memory.
pub open spec fn blank_memory() -> Seq<u8> {
    Seq::new(MEMORY_SIZE as nat, |i: int| 0u8)
}

/// A flat memory of `MEMORY_SIZE` bytes.
///
/// Its view is the sequence of its bytes, in address order. Every address
/// of type `u16` is in range, so reading and writing never fail.
pub struct MemoryBus {
    memory: Vec<u8>,
}

impl View for MemoryBus {
    type V = Seq<u8>;

    closed spec fn view(&self) -> Seq<u8> {
        self.memory@
    }
}

impl MemoryBus {
    #[verifier::type_invariant]
    spec fn spans_address_space(&self) -> bool {
        self.memory@.len() == MEMORY_SIZE
    }

    /// A blank memory.
    pub fn new() -> (bus: MemoryBus)
        ensures
            is_blank(bus@),
            bus@ == blank_memory(),
    {
        MemoryBus { memory: vec![0u8; MEMORY_SIZE] }
    }

    /// Sets every byte back to zero, in place.
    pub fn reset(&mut self)
        ensures
            is_blank(final(self)@),
            final(self)@ == blank_memory(),
    {
        proof {
            use_type_invariant(&*self);
        }
        let mut i: usize = 0;
        while i < MEMORY_SIZE
            invariant
                i <= MEMORY_SIZE,
                self.memory@.len() == MEMORY_SIZE,
                forall|j: int| 0 <= j < i ==> self.memory@[j] == 0,
            decreases MEMORY_SIZE - i,
        {
            self.memory[i] = 0;
            i = i + 1;
        }
    }

    /// The byte at `addr`.
    pub fn read(&self, addr: u16) -> (data: u8)
        ensures
            data == self@[addr as int],
            self@.len() == MEMORY_SIZE,
    {
        proof {
            use_type_invariant(self);
        }
        self.memory[addr as usize]
    }

    /// Stores `data` at `addr` and leaves every other byte as it was.
    pub fn write(&mut self, addr: u16, data: u8)
        ensures
            final(self)@ == old(self)@.update(addr as int, data),
            final(self)@.len() == MEMORY_SIZE,
    {
        proof {
            use_type_invariant(&*self);
        }
        self.memory[addr as usize] = data;
    }
}

} // verus!
