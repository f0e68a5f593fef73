//! The BIOS image: exactly 512 KiB of read-only boot code, with
//! little-endian byte, halfword and word accessors.

use vstd::prelude::*;
use crate::bytes::{load16_spec, load32_spec, word16_of, word32_of};
use crate::errors::EmuError;

verus! {

/// Size of a BIOS image in bytes.
pub const BIOS_SIZE: usize = 524288;

/// The machine's read-only boot ROM.
pub struct Bios {
    pub data: Vec<u8>,
}

impl View for Bios {
    type V = Seq<u8>;

    open spec fn view(&self) -> Seq<u8> {
        self.data@
    }
}

impl Bios {
    /// A well-formed BIOS holds exactly 512 KiB.
    pub open spec fn wf(&self) -> bool {
        self@.len() == BIOS_SIZE
    }

    /// Wraps a raw image, rejecting any image that is not exactly 512 KiB.
    pub fn new(data: Vec<u8>) -> (r: Result<Bios, EmuError>)
        ensures
            match r {
                Ok(b) => b.wf() && b@ == data@ && data@.len() == BIOS_SIZE,
                Err(e) => e == EmuError::InvalidBiosSize(data@.len() as usize) && data@.len()
                    != BIOS_SIZE,
            },
    {
        if data.len() == BIOS_SIZE {
            Ok(Bios { data })
        } else {
            Err(EmuError::InvalidBiosSize(data.len()))
        }
    }

    /// Reads the byte at `offset`.
    pub fn load8(&self, offset: u32) -> (r: u8)
        requires
            self.wf(),
            offset < BIOS_SIZE,
        ensures
            r == self@[offset as int],
    {
        self.data[offset as usize]
    }

    /// Reads the little-endian halfword at `offset`.
    pub fn load16(&self, offset: u32) -> (r: u16)
        requires
            self.wf(),
            offset + 2 <= BIOS_SIZE,
        ensures
            r == load16_spec(self@, offset as int),
            r == word16_of(self@[offset as int], self@[offset + 1]),
    {
        let offset = offset as usize;

        let b0 = self.data[offset] as u16;
        let b1 = self.data[offset + 1] as u16;

        b0 | (b1 << 8)
    }

    /// Reads the little-endian word at `offset`.
    pub fn load32(&self, offset: u32) -> (r: u32)
        requires
            self.wf(),
            offset + 4 <= BIOS_SIZE,
        ensures
            r == load32_spec(self@, offset as int),
            r == word32_of(
                self@[offset as int],
                self@[offset + 1],
                self@[offset + 2],
                self@[offset + 3],
            ),
    {
        let offset = offset as usize;

        let b0 = self.data[offset] as u32;
        let b1 = self.data[offset + 1] as u32;
        let b2 = self.data[offset + 2] as u32;
        let b3 = self.data[offset + 3] as u32;

        b0 | (b1 << 8) | (b2 << 16) | (b3 << 24)
    }
}

} // verus!
