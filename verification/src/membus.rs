//! The memory bus: a flat, byte-addressable space spanning the full 16-bit
//! address range, with total read and write access by address.

use vstd::prelude::*;

verus! {

/// Number of addressable bytes: one per 16-bit address.
pub const MEMORY_SIZE: usize = 0x10000;

/// A flat byte store over the whole address space. Peripheral side effects
/// on read or write are layered outside this core by wrapping or replacing
/// this interface; here the bus is pure storage.
pub struct MemoryBus {
    memory: Vec<u8>,
}

impl View for MemoryBus {
    type V = Seq<u8>;

    closed spec fn view(&self) -> Seq<u8> {
        self.memory@
    }
}

impl MemoryBus {
    /// Well-formed: one byte behind every address in 0x0000..=0xFFFF.
    pub open spec fn wf(self) -> bool {
        self@.len() == MEMORY_SIZE
    }

    /// A bus with every byte zero. The host loads initial contents through
    /// `write_byte`.
    pub fn new() -> (r: MemoryBus)
        ensures
            r.wf(),
            forall|i: int| 0 <= i < MEMORY_SIZE ==> r@[i] == 0,
    {
        let mut memory: Vec<u8> = Vec::new();
        while memory.len() < MEMORY_SIZE
            invariant
                memory@.len() <= MEMORY_SIZE,
                forall|i: int| 0 <= i < memory@.len() ==> memory@[i] == 0,
            decreases MEMORY_SIZE - memory@.len(),
        {
            memory.push(0);
        }
        MemoryBus { memory }
    }

    /// Read the byte at an address; total over the address range.
    pub fn read_byte(&self, address: u16) -> (r: u8)
        requires
            self.wf(),
        ensures
            r == self@[address as int],
    {
        self.memory[address as usize]
    }

    /// Write a byte at an address; total and unconditional.
    pub fn write_byte(&mut self, address: u16, byte: u8)
        requires
            old(self).wf(),
        ensures
            final(self).wf(),
            final(self)@ == old(self)@.update(address as int, byte),
    {
        self.memory[address as usize] = byte;
    }
}

} // verus!
