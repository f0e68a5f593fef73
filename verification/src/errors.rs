//! Emulator errors: unrecoverable faults of the emulated machine's
//! bring-up, as opposed to the emulated MIPS exceptions, which are
//! ordinary control transfers handled by the CPU itself.

use vstd::prelude::*;

verus! {

/// An abnormal termination of the emulator.  Each variant carries the
/// offending value so the caller can report it before stopping.
#[derive(Clone, Copy, Debug, PartialEq, Eq, Structural)]
pub enum EmuError {
    /// The BIOS image handed to the constructor is not exactly 512 KiB.
    InvalidBiosSize(usize),
    /// A load touched an address that no device claims.
    UnhandledLoad(u32),
    /// A store touched an address that no device claims.
    UnhandledStore(u32),
    /// A halfword or word access whose address is not a multiple of its size.
    MisalignedAccess(u32),
    /// A write of an unexpected base address to the expansion-base registers.
    BadExpansionBase(u32),
    /// A read from a DMA register offset that is not mapped.
    UnhandledDmaRead(u32),
    /// A write to a DMA register offset that is not mapped.
    UnhandledDmaWrite(u32),
    /// A channel-control write selecting the reserved sync mode.
    UnknownSyncMode(u32),
    /// A block transfer on a channel whose sync mode has no fixed size.
    NoBlockTransferSize,
    /// A block transfer to or from a peripheral port that is not wired up.
    UnhandledDmaPort(u32),
    /// A linked-list transfer whose direction is to RAM.
    LinkedListToRam,
    /// A linked-list transfer on a port other than the GPU.
    LinkedListBadPort(u32),
    /// A linked list that did not terminate within the packet budget.
    LinkedListOverrun,
    /// An instruction word with no recognized encoding.
    UnhandledInstruction(u32),
    /// A read of an unsupported coprocessor-0 register.
    UnhandledCop0Read(u32),
    /// A write to an unsupported coprocessor-0 register.
    UnhandledCop0Write(u32),
    /// A nonzero write to a coprocessor-0 register that only accepts zero.
    NonzeroCop0Write(u32),
    /// A nonzero write to the read-only CAUSE register.
    CauseWrite(u32),
    /// A coprocessor-0 return-from-exception word with bad low bits.
    InvalidRfe(u32),
    /// A GP0 command word with no recognized opcode.
    UnhandledGp0Command(u32),
    /// A GP1 command word with no recognized opcode.
    UnhandledGp1Command(u32),
    /// A draw-mode word selecting the reserved texture depth.
    UnhandledTextureDepth(u32),
    /// A display-mode word with the unsupported resolution bit set.
    UnsupportedDisplayMode(u32),
}

} // verus!
