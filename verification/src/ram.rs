//! System RAM: 2 MiB of zero-initialized byte-addressable memory with
//! little-endian byte, halfword and word accessors.

use vstd::prelude::*;
use crate::bytes::{
    load16_spec, load32_spec, store16_spec, store32_spec, lemma_store16_load16,
    lemma_store32_load32,
};

verus! {

/// Size of system RAM in bytes.
pub const RAM_SIZE: usize = 2097152;

/// The machine's main memory.
pub struct Ram {
    pub data: Vec<u8>,
}

impl View for Ram {
    type V = Seq<u8>;

    open spec fn view(&self) -> Seq<u8> {
        self.data@
    }
}

impl Ram {
    /// A well-formed RAM holds exactly 2 MiB.
    pub open spec fn wf(&self) -> bool {
        self@.len() == RAM_SIZE
    }

    /// Fresh RAM: every byte zero.
    pub fn new() -> (r: Ram)
        ensures
            r.wf(),
            forall|i: int| 0 <= i < RAM_SIZE ==> r@[i] == 0u8,
    {
        let mut data: Vec<u8> = Vec::new();
        let mut n: usize = 0;
        while n < RAM_SIZE
            invariant
                n == data@.len(),
                n <= RAM_SIZE,
                forall|i: int| 0 <= i < n ==> data@[i] == 0u8,
            decreases RAM_SIZE - n,
        {
            data.push(0u8);
            n = n + 1;
        }
        Ram { data }
    }

    /// Reads the byte at `offset`.
    pub fn load8(&self, offset: u32) -> (r: u8)
        requires
            self.wf(),
            offset < RAM_SIZE,
        ensures
            r == self@[offset as int],
    {
        self.data[offset as usize]
    }

    /// Reads the little-endian halfword at `offset`.
    pub fn load16(&self, offset: u32) -> (r: u16)
        requires
            self.wf(),
            offset + 2 <= RAM_SIZE,
        ensures
            r == load16_spec(self@, offset as int),
    {
        let offset = offset as usize;

        let b0 = self.data[offset] as u16;
        let b1 = self.data[offset + 1] as u16;

        b0 | (b1 << 8)
    }

    /// Reads the little-endian word at `offset`.
    pub fn load32(&self, offset: u32) -> (r: u32)
        requires
            self.wf(),
            offset + 4 <= RAM_SIZE,
        ensures
            r == load32_spec(self@, offset as int),
    {
        let offset = offset as usize;

        let b0 = self.data[offset] as u32;
        let b1 = self.data[offset + 1] as u32;
        let b2 = self.data[offset + 2] as u32;
        let b3 = self.data[offset + 3] as u32;

        b0 | (b1 << 8) | (b2 << 16) | (b3 << 24)
    }

    /// Writes `value` to the byte at `offset`.
    pub fn store8(&mut self, offset: u32, value: u8)
        requires
            old(self).wf(),
            offset < RAM_SIZE,
        ensures
            final(self)@ == old(self)@.update(offset as int, value),
            final(self).wf(),
    {
        self.data.set(offset as usize, value);
    }

    /// Writes `value` little-endian to the two bytes at `offset`.
    pub fn store16(&mut self, offset: u32, value: u16)
        requires
            old(self).wf(),
            offset + 2 <= RAM_SIZE,
        ensures
            final(self)@ == store16_spec(old(self)@, offset as int, value),
            final(self).wf(),
    {
        let offset = offset as usize;

        let b0 = value as u8;
        let b1 = (value >> 8) as u8;

        self.data.set(offset, b0);
        self.data.set(offset + 1, b1);
    }

    /// Writes `value` little-endian to the four bytes at `offset`.
    pub fn store32(&mut self, offset: u32, value: u32)
        requires
            old(self).wf(),
            offset + 4 <= RAM_SIZE,
        ensures
            final(self)@ == store32_spec(old(self)@, offset as int, value),
            final(self).wf(),
    {
        let offset = offset as usize;

        let b0 = value as u8;
        let b1 = (value >> 8) as u8;
        let b2 = (value >> 16) as u8;
        let b3 = (value >> 24) as u8;

        self.data.set(offset, b0);
        self.data.set(offset + 1, b1);
        self.data.set(offset + 2, b2);
        self.data.set(offset + 3, b3);
    }
}

/// A word stored to an aligned RAM offset is read back unchanged by a
/// word load from the same offset, and no other byte of RAM changes.
pub proof fn lemma_ram_store32_load32(m: Seq<u8>, o: int, v: u32)
    requires
        0 <= o,
        o + 4 <= m.len(),
    ensures
        load32_spec(store32_spec(m, o, v), o) == v,
        forall|i: int| 0 <= i < m.len() && !(o <= i < o + 4) ==> store32_spec(m, o, v)[i] == m[i],
{
    lemma_store32_load32(m, o, v);
}

/// A byte stored to RAM is read back unchanged from the same offset,
/// and no other byte of RAM changes.
pub proof fn lemma_ram_store8_load8(m: Seq<u8>, o: int, v: u8)
    requires
        0 <= o < m.len(),
    ensures
        m.update(o, v)[o] == v,
        forall|i: int| 0 <= i < m.len() && i != o ==> m.update(o, v)[i] == m[i],
{
}

/// A halfword stored to RAM is read back unchanged by a halfword load
/// from the same offset, and no other byte of RAM changes.
pub proof fn lemma_ram_store16_load16(m: Seq<u8>, o: int, v: u16)
    requires
        0 <= o,
        o + 2 <= m.len(),
    ensures
        load16_spec(store16_spec(m, o, v), o) == v,
        forall|i: int| 0 <= i < m.len() && !(o <= i < o + 2) ==> store16_spec(m, o, v)[i] == m[i],
{
    lemma_store16_load16(m, o, v);
}

} // verus!
