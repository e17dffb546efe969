use vstd::prelude::*;

use crate::bits::{hi_byte, lo_byte, word};

verus! {

/// Flat byte-addressable store. The CPU owns one of exactly 0x10000 bytes, so
/// every 16-bit address is in range by construction; the constructor also
/// accepts smaller sizes, in which case callers must stay within bounds.
pub struct Memory {
    pub memory: Vec<u8>,
}

impl View for Memory {
    type V = Seq<u8>;

    open spec fn view(&self) -> Seq<u8> {
        self.memory@
    }
}

impl Memory {
    /// A zero-filled store of `size` bytes.
    pub fn new(size: usize) -> (m: Memory)
        ensures
            m@.len() == size,
            forall|i: int| 0 <= i < size ==> m@[i] == 0u8,
    {
        let mut v: Vec<u8> = Vec::new();
        while v.len() < size
            invariant
                v@.len() <= size,
                forall|i: int| 0 <= i < v@.len() ==> v@[i] == 0u8,
            decreases size - v@.len(),
        {
            v.push(0);
        }
        Memory { memory: v }
    }

    /// The byte stored at `address`.
    pub fn memoryReadByte(&self, address: u16) -> (b: u8)
        requires
            address < self@.len(),
        ensures
            b == self@[address as int],
    {
        self.memory[address as usize]
    }

    /// The little-endian word whose low byte sits at `address` and whose high
    /// byte sits at `address + 1`.
    pub fn memoryReadShort(&mut self, address: u16) -> (w: u16)
        requires
            address + 1 < old(self)@.len(),
        ensures
            final(self)@ == old(self)@,
            w == word(old(self)@[address as int], old(self)@[address as int + 1]),
    {
        let low = self.memory[address as usize];
        let high = self.memory[address as usize + 1];
        low as u16 + 256 * (high as u16)
    }

    /// Stores `data` little-endian: low byte at `address`, high at `address + 1`.
    pub fn memoryWriteShort(&mut self, address: u16, data: u16)
        requires
            address + 1 < old(self)@.len(),
        ensures
            final(self)@ == old(self)@.update(address as int, lo_byte(data)).update(
                address as int + 1,
                hi_byte(data),
            ),
    {
        let high = (data / 256) as u8;
        let low = (data % 256) as u8;
        self.memory.set(address as usize, low);
        self.memory.set(address as usize + 1, high);
    }

    /// Stores the byte `val` at `address`.
    pub fn memoryWriteByte(&mut self, address: u16, val: u8)
        requires
            address < old(self)@.len(),
        ensures
            final(self)@ == old(self)@.update(address as int, val),
    {
        self.memory.set(address as usize, val);
    }
}

} // verus!
