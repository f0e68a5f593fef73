//! The PSX physical memory map: the segment mask that turns a virtual
//! address into a physical one, and the address range of every device
//! the interconnect routes to.

use vstd::prelude::*;

verus! {

/// A physical address range, as a start address and a byte length.
#[derive(Clone, Copy, PartialEq, Eq, Structural, Debug)]
pub struct Range {
    pub start: u32,
    pub length: u32,
}

impl Range {
    /// Builds a range from its start address and byte length.
    pub fn new(start: u32, length: u32) -> (r: Range)
        ensures
            r == (Range { start, length }),
    {
        Range { start, length }
    }

    /// The offset of `addr` inside the range, or `None` when `addr` is
    /// outside it.
    pub open spec fn spec_contains(self, addr: u32) -> Option<u32> {
        if self.start <= addr && addr < self.start + self.length {
            Some((addr - self.start) as u32)
        } else {
            None
        }
    }

    #[verifier::when_used_as_spec(spec_contains)]
    pub fn contains(self, addr: u32) -> (r: Option<u32>)
        requires
            self.start + self.length <= u32::MAX,
        ensures
            r == self.spec_contains(addr),
    {
        if addr >= self.start && addr < self.start + self.length {
            Some(addr - self.start)
        } else {
            None
        }
    }
}

/// Main RAM, 2 MiB at the bottom of the physical address space.
pub open spec fn spec_ram() -> Range {
    Range { start: 0x00000000, length: 0x200000 }
}

#[verifier::when_used_as_spec(spec_ram)]
pub fn ram() -> (r: Range)
    ensures
        r == spec_ram(),
{
    Range { start: 0x00000000, length: 0x200000 }
}

/// Expansion region 1, 512 KiB of open bus.
pub open spec fn spec_expansion_1() -> Range {
    Range { start: 0x1f000000, length: 0x80000 }
}

#[verifier::when_used_as_spec(spec_expansion_1)]
pub fn expansion_1() -> (r: Range)
    ensures
        r == spec_expansion_1(),
{
    Range { start: 0x1f000000, length: 0x80000 }
}

/// Memory-control registers.
pub open spec fn spec_mem_control() -> Range {
    Range { start: 0x1f801000, length: 36 }
}

#[verifier::when_used_as_spec(spec_mem_control)]
pub fn mem_control() -> (r: Range)
    ensures
        r == spec_mem_control(),
{
    Range { start: 0x1f801000, length: 36 }
}

/// RAM-size configuration register.
pub open spec fn spec_ram_size() -> Range {
    Range { start: 0x1f801060, length: 4 }
}

#[verifier::when_used_as_spec(spec_ram_size)]
pub fn ram_size() -> (r: Range)
    ensures
        r == spec_ram_size(),
{
    Range { start: 0x1f801060, length: 4 }
}

/// Interrupt-control registers (status and mask).
pub open spec fn spec_interrupt_control() -> Range {
    Range { start: 0x1f801070, length: 8 }
}

#[verifier::when_used_as_spec(spec_interrupt_control)]
pub fn interrupt_control() -> (r: Range)
    ensures
        r == spec_interrupt_control(),
{
    Range { start: 0x1f801070, length: 8 }
}

/// The DMA controller's register window.
pub open spec fn spec_dma() -> Range {
    Range { start: 0x1f801080, length: 0x80 }
}

#[verifier::when_used_as_spec(spec_dma)]
pub fn dma() -> (r: Range)
    ensures
        r == spec_dma(),
{
    Range { start: 0x1f801080, length: 0x80 }
}

/// Timer registers.
pub open spec fn spec_timers() -> Range {
    Range { start: 0x1f801100, length: 48 }
}

#[verifier::when_used_as_spec(spec_timers)]
pub fn timers() -> (r: Range)
    ensures
        r == spec_timers(),
{
    Range { start: 0x1f801100, length: 48 }
}

/// The GPU's two ports, GP0/GPUREAD and GP1/GPUSTAT.
pub open spec fn spec_gpu() -> Range {
    Range { start: 0x1f801810, length: 8 }
}

#[verifier::when_used_as_spec(spec_gpu)]
pub fn gpu() -> (r: Range)
    ensures
        r == spec_gpu(),
{
    Range { start: 0x1f801810, length: 8 }
}

/// Sound processing unit registers.
pub open spec fn spec_spu() -> Range {
    Range { start: 0x1f801c00, length: 640 }
}

#[verifier::when_used_as_spec(spec_spu)]
pub fn spu() -> (r: Range)
    ensures
        r == spec_spu(),
{
    Range { start: 0x1f801c00, length: 640 }
}

/// Expansion region 2.
pub open spec fn spec_expansion_2() -> Range {
    Range { start: 0x1f802000, length: 66 }
}

#[verifier::when_used_as_spec(spec_expansion_2)]
pub fn expansion_2() -> (r: Range)
    ensures
        r == spec_expansion_2(),
{
    Range { start: 0x1f802000, length: 66 }
}

/// The BIOS ROM, 512 KiB.
pub open spec fn spec_bios() -> Range {
    Range { start: 0x1fc00000, length: 0x80000 }
}

#[verifier::when_used_as_spec(spec_bios)]
pub fn bios() -> (r: Range)
    ensures
        r == spec_bios(),
{
    Range { start: 0x1fc00000, length: 0x80000 }
}

/// Cache-control register, in KSEG2.
pub open spec fn spec_cache_control() -> Range {
    Range { start: 0xfffe0130, length: 4 }
}

#[verifier::when_used_as_spec(spec_cache_control)]
pub fn cache_control() -> (r: Range)
    ensures
        r == spec_cache_control(),
{
    Range { start: 0xfffe0130, length: 4 }
}

/// Masks a virtual address into a physical one by its segment: KUSEG and
/// KSEG2 addresses pass through, KSEG0 drops the top bit, KSEG1 drops the
/// top three bits.
pub open spec fn spec_mask_region(addr: u32) -> u32 {
    if addr >> 29 == 4 {
        addr & 0x7fffffff
    } else if addr >> 29 == 5 {
        addr & 0x1fffffff
    } else {
        addr
    }
}

#[verifier::when_used_as_spec(spec_mask_region)]
pub fn mask_region(addr: u32) -> (r: u32)
    ensures
        r == spec_mask_region(addr),
{
    match addr >> 29 {
        4 => addr & 0x7fffffff,
        5 => addr & 0x1fffffff,
        _ => addr,
    }
}

} // verus!
