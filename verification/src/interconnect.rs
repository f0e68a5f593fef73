//! The interconnect: decodes physical addresses, routes every CPU load
//! and store to the device that owns the address, and runs DMA transfers
//! to completion when a channel becomes active.

use vstd::prelude::*;
use crate::bios::Bios;
use crate::bytes;
use crate::channel::{
    set_control_spec, transfer_size_spec, control_spec, Channel, Direction, Step, Sync,
};
use crate::dma::{interrupt_spec, set_interrupt_spec, Dma, DmaState, Port};
use crate::errors::EmuError;
use crate::gpu::{gp0_spec, gp1_spec, Gpu, GpuState};
use crate::memmap;
use crate::ram::Ram;

verus! {

/// The mathematical state of the interconnect and every device on it.
pub ghost struct InterState {
    pub bios: Seq<u8>,
    pub ram: Seq<u8>,
    pub dma: DmaState,
    pub gpu: GpuState,
}

/// Masking a virtual address keeps its word or halfword alignment.
proof fn lemma_mask_region_align(addr: u32)
    ensures
        addr % 4 == 0 ==> memmap::mask_region(addr) % 4 == 0,
        addr % 2 == 0 ==> memmap::mask_region(addr) % 2 == 0,
{
    assert((addr % 4 == 0 ==> (addr & 0x7fffffff) % 4 == 0 && (addr & 0x1fffffff) % 4 == 0) && (
    addr % 2 == 0 ==> (addr & 0x7fffffff) % 2 == 0 && (addr & 0x1fffffff) % 2 == 0))
        by (bit_vector);
}

/// The offset of an aligned address inside an aligned region is aligned,
/// and an aligned offset leaves room for a full word or halfword before
/// the region sizes used by the memory map.
proof fn lemma_aligned_offset(pa: u32, start: u32)
    requires
        pa >= start,
    ensures
        pa % 4 == 0 && start % 4 == 0 ==> ((pa - start) as u32) % 4 == 0,
        pa % 2 == 0 && start % 2 == 0 ==> ((pa - start) as u32) % 2 == 0,
{
    assert((pa % 4 == 0 && start % 4 == 0 && pa >= start ==> ((pa - start) as u32) % 4 == 0) && (pa
        % 2 == 0 && start % 2 == 0 && pa >= start ==> ((pa - start) as u32) % 2 == 0))
        by (bit_vector);
}

/// An aligned offset strictly inside a region leaves room for the whole
/// access.
proof fn lemma_aligned_bound(o: u32)
    ensures
        o % 4 == 0 && o < 0x200000 ==> o + 4 <= 0x200000,
        o % 4 == 0 && o < 0x80000 ==> o + 4 <= 0x80000,
        o % 2 == 0 && o < 0x200000 ==> o + 2 <= 0x200000,
{
    assert((o % 4 == 0 && o < 0x200000 ==> o + 4 <= 0x200000) && (o % 4 == 0 && o < 0x80000 ==> o
        + 4 <= 0x80000) && (o % 2 == 0 && o < 0x200000 ==> o + 2 <= 0x200000)) by (bit_vector);
}

/// The major field of a DMA register offset is at most 7.
proof fn lemma_dma_major(offset: u32)
    ensures
        (offset & 0x70) >> 4 <= 7,
{
    assert((offset & 0x70) >> 4 <= 7) by (bit_vector);
}

/// A word address masked into RAM is aligned, stays below the RAM size,
/// and is a fixed point of the mask.
proof fn lemma_ram_word_mask(x: u32)
    ensures
        x & 0x1ffffc <= 0x1ffffc,
        (x & 0x1ffffc) % 4 == 0,
        (x & 0x1ffffc) & 0x1ffffc == x & 0x1ffffc,
{
    assert(x & 0x1ffffc <= 0x1ffffc && (x & 0x1ffffc) % 4 == 0 && (x & 0x1ffffc) & 0x1ffffc == x
        & 0x1ffffc) by (bit_vector);
}

/// The result of a byte load at `addr`: the BIOS and RAM are backed by
/// their byte arrays, expansion region 1 is open bus.
pub open spec fn load8_spec(s: InterState, addr: u32) -> Result<u8, EmuError> {
    let pa = memmap::mask_region(addr);
    match memmap::bios().contains(pa) {
        Some(offset) => Ok(s.bios[offset as int]),
        None => match memmap::ram().contains(pa) {
            Some(offset) => Ok(s.ram[offset as int]),
            None => match memmap::expansion_1().contains(pa) {
                Some(offset) => Ok(0xffu8),
                None => Err(EmuError::UnhandledLoad(addr)),
            },
        },
    }
}

/// The state after a byte store at `addr`: expansion-region-2 writes are
/// discarded, RAM writes land in RAM.
pub open spec fn store8_spec(s: InterState, addr: u32, value: u8) -> Result<InterState, EmuError> {
    let pa = memmap::mask_region(addr);
    match memmap::expansion_2().contains(pa) {
        Some(offset) => Ok(s),
        None => match memmap::ram().contains(pa) {
            Some(offset) => Ok(InterState { ram: s.ram.update(offset as int, value), ..s }),
            None => Err(EmuError::UnhandledStore(addr)),
        },
    }
}

/// The result of a halfword load at `addr`: RAM is backed by its bytes,
/// the SPU and the interrupt controller read as zero.
pub open spec fn load16_spec(s: InterState, addr: u32) -> Result<u16, EmuError> {
    if addr % 2 != 0 {
        Err(EmuError::MisalignedAccess(addr))
    } else {
        let pa = memmap::mask_region(addr);
        match memmap::ram().contains(pa) {
            Some(offset) => Ok(bytes::load16_spec(s.ram, offset as int)),
            None => match memmap::spu().contains(pa) {
                Some(offset) => Ok(0u16),
                None => match memmap::interrupt_control().contains(pa) {
                    Some(offset) => Ok(0u16),
                    None => Err(EmuError::UnhandledLoad(addr)),
                },
            },
        }
    }
}

/// The state after a halfword store at `addr`: SPU, timer and
/// interrupt-controller writes are discarded, RAM writes land in RAM.
pub open spec fn store16_spec(s: InterState, addr: u32, value: u16) -> Result<
    InterState,
    EmuError,
> {
    if addr % 2 != 0 {
        Err(EmuError::MisalignedAccess(addr))
    } else {
        let pa = memmap::mask_region(addr);
        match memmap::spu().contains(pa) {
            Some(offset) => Ok(s),
            None => match memmap::ram().contains(pa) {
                Some(offset) => Ok(
                    InterState { ram: bytes::store16_spec(s.ram, offset as int, value), ..s },
                ),
                None => match memmap::timers().contains(pa) {
                    Some(offset) => Ok(s),
                    None => match memmap::interrupt_control().contains(pa) {
                        Some(offset) => Ok(s),
                        None => Err(EmuError::UnhandledStore(addr)),
                    },
                },
            },
        }
    }
}

/// The value read from a DMA register: per-channel control words, the
/// global control register, and the interrupt register.
pub open spec fn dma_reg_spec(d: DmaState, offset: u32) -> Result<u32, EmuError> {
    let major = (offset & 0x70) >> 4;
    let minor = offset & 0xf;
    if major <= 6 {
        if minor == 8 {
            Ok(control_spec(d.channels[major as int]))
        } else {
            Err(EmuError::UnhandledDmaRead(offset))
        }
    } else {
        if minor == 0 {
            Ok(d.control)
        } else if minor == 4 {
            Ok(interrupt_spec(d))
        } else {
            Err(EmuError::UnhandledDmaRead(offset))
        }
    }
}

/// The channel state written by a per-channel DMA register write.
pub open spec fn dma_channel_write_spec(ch: Channel, offset: u32, value: u32) -> Result<
    Channel,
    EmuError,
> {
    let minor = offset & 0xf;
    if minor == 0 {
        Ok(Channel { base: value & 0xffffff, ..ch })
    } else if minor == 4 {
        Ok(Channel { block_size: value as u16, block_count: (value >> 16) as u16, ..ch })
    } else if minor == 8 {
        if (value >> 9) & 3 == 3 {
            Err(EmuError::UnknownSyncMode((value >> 9) & 3))
        } else {
            Ok(set_control_spec(ch, value))
        }
    } else {
        Err(EmuError::UnhandledDmaWrite(offset))
    }
}

/// `s` with the enable and trigger bits of `port`'s channel cleared.
pub open spec fn dma_done_spec(s: InterState, port: Port) -> InterState {
    let i = port.spec_index() as int;
    let ch = s.dma.channels[i];
    InterState {
        dma: DmaState {
            channels: s.dma.channels.update(
                i,
                Channel { enable: false, trigger: false, ..ch },
            ),
            ..s.dma
        },
        ..s
    }
}

/// One word of a block transfer and the rest of the block: a word is
/// moved between RAM (masked to a word address) and the port, the
/// address steps by 4, and the remaining count drops.  From RAM only the
/// GPU accepts words; to RAM only the ordering-table clear produces
/// them, writing a reverse-linked list of word addresses that ends in
/// the terminator.
pub open spec fn dma_block_step(
    s: InterState,
    port: Port,
    dir: Direction,
    st: Step,
    addr: u32,
    remsz: u32,
) -> Result<InterState, EmuError>
    decreases remsz,
{
    if remsz == 0 {
        Ok(s)
    } else {
        let cur = addr & 0x1ffffc;
        let next = if st == Step::Increment {
            addr.wrapping_add(4)
        } else {
            addr.wrapping_sub(4)
        };
        if dir == Direction::FromRam {
            if port == Port::GPU {
                let word = bytes::load32_spec(s.ram, cur as int);
                match gp0_spec(s.gpu, word) {
                    Ok(g) => dma_block_step(
                        InterState { gpu: g, ..s },
                        port,
                        dir,
                        st,
                        next,
                        (remsz - 1) as u32,
                    ),
                    Err(e) => Err(e),
                }
            } else {
                Err(EmuError::UnhandledDmaPort(port.spec_index() as u32))
            }
        } else {
            if port == Port::Otc {
                let word = if remsz == 1 {
                    0xffffffu32
                } else {
                    addr.wrapping_sub(4) & 0x1fffff
                };
                dma_block_step(
                    InterState { ram: bytes::store32_spec(s.ram, cur as int, word), ..s },
                    port,
                    dir,
                    st,
                    next,
                    (remsz - 1) as u32,
                )
            } else {
                Err(EmuError::UnhandledDmaPort(port.spec_index() as u32))
            }
        }
    }
}

/// A whole block transfer on `port`'s channel: the channel's transfer
/// size decides the word count, and the channel is marked done at the
/// end.  Linked-list sync has no fixed size and cannot run as a block.
pub open spec fn do_dma_block_spec(s: InterState, port: Port) -> Result<InterState, EmuError> {
    let ch = s.dma.channels[port.spec_index() as int];
    match transfer_size_spec(ch) {
        None => Err(EmuError::NoBlockTransferSize),
        Some(remsz) => match dma_block_step(s, port, ch.direction, ch.step, ch.base, remsz) {
            Ok(s1) => Ok(dma_done_spec(s1, port)),
            Err(e) => Err(e),
        },
    }
}

/// The words of one linked-list packet fed to GP0 in RAM order, together
/// with the address of the packet's last word.
pub open spec fn dma_ll_packet(gpu: GpuState, ram: Seq<u8>, addr: u32, n: u32) -> Result<
    (GpuState, u32),
    EmuError,
>
    decreases n,
{
    if n == 0 {
        Ok((gpu, addr))
    } else {
        let a2 = ((addr + 4) as u32) & 0x1ffffc;
        let cmd = bytes::load32_spec(ram, a2 as int);
        match gp0_spec(gpu, cmd) {
            Ok(g) => dma_ll_packet(g, ram, a2, (n - 1) as u32),
            Err(e) => Err(e),
        }
    }
}

/// The packet budget of a linked-list walk: one packet per word of RAM.
/// A list longer than that revisits a header and would never terminate.
pub open spec fn ll_fuel() -> nat {
    0x80000
}

/// A linked-list walk from `addr`: each packet's header gives its word
/// count in the high byte; the words go to GP0; bit 23 of the header
/// ends the list, otherwise its low bits point at the next packet.
pub open spec fn dma_ll_step(s: InterState, addr: u32, fuel: nat) -> Result<InterState, EmuError>
    decreases fuel, 0nat,
{
    if fuel == 0 {
        Err(EmuError::LinkedListOverrun)
    } else {
        let a = addr & 0x1ffffc;
        let header = bytes::load32_spec(s.ram, a as int);
        dma_ll_continue(s, a, header >> 24, header, (fuel - 1) as nat)
    }
}

/// The rest of a linked-list walk once a packet's header has been read:
/// the packet's remaining `n` words go to GP0, then the walk ends or
/// follows the header's pointer.
pub open spec fn dma_ll_continue(s: InterState, addr: u32, n: u32, header: u32, fuel: nat) -> Result<
    InterState,
    EmuError,
>
    decreases fuel, n + 1,
{
    match dma_ll_packet(s.gpu, s.ram, addr, n) {
        Err(e) => Err(e),
        Ok((g, end)) => {
            let s1 = InterState { gpu: g, ..s };
            if header & 0x800000 != 0 {
                Ok(s1)
            } else {
                dma_ll_step(s1, header & 0x1ffffc, fuel)
            }
        },
    }
}

/// A whole linked-list transfer on `port`'s channel, which must be the
/// GPU channel reading from RAM; the channel is marked done at the end.
pub open spec fn do_dma_linked_list_spec(s: InterState, port: Port) -> Result<
    InterState,
    EmuError,
> {
    let ch = s.dma.channels[port.spec_index() as int];
    if ch.direction == Direction::ToRam {
        Err(EmuError::LinkedListToRam)
    } else if port != Port::GPU {
        Err(EmuError::LinkedListBadPort(port.spec_index() as u32))
    } else {
        match dma_ll_step(s, ch.base & 0x1ffffc, ll_fuel()) {
            Ok(s1) => Ok(dma_done_spec(s1, port)),
            Err(e) => Err(e),
        }
    }
}

/// A transfer on `port`'s channel, block or linked-list by sync mode.
pub open spec fn do_dma_spec(s: InterState, port: Port) -> Result<InterState, EmuError> {
    match s.dma.channels[port.spec_index() as int].sync {
        Sync::LinkedList => do_dma_linked_list_spec(s, port),
        _ => do_dma_block_spec(s, port),
    }
}

/// The state after a DMA register write: the selected channel register
/// or global register is updated, and if the write leaves the channel
/// active the transfer runs to completion at once.
pub open spec fn set_dma_reg_spec(s: InterState, offset: u32, value: u32) -> Result<
    InterState,
    EmuError,
> {
    let major = (offset & 0x70) >> 4;
    let minor = offset & 0xf;
    if major <= 6 {
        let port = Port::spec_from_index(major);
        match dma_channel_write_spec(s.dma.channels[major as int], offset, value) {
            Err(e) => Err(e),
            Ok(ch) => {
                let s1 = InterState {
                    dma: DmaState { channels: s.dma.channels.update(major as int, ch), ..s.dma },
                    ..s
                };
                if ch.spec_active() {
                    do_dma_spec(s1, port)
                } else {
                    Ok(s1)
                }
            },
        }
    } else {
        if minor == 0 {
            Ok(InterState { dma: DmaState { control: value, ..s.dma }, ..s })
        } else if minor == 4 {
            Ok(InterState { dma: set_interrupt_spec(s.dma, value), ..s })
        } else {
            Err(EmuError::UnhandledDmaWrite(offset))
        }
    }
}

/// The result of a word load at `addr`: BIOS and RAM by their bytes, the
/// interrupt controller and timers as zero, the DMA register window, and
/// the GPU's two ports, where the status read reports the GPU ready.
pub open spec fn load32_spec(s: InterState, addr: u32) -> Result<u32, EmuError> {
    if addr % 4 != 0 {
        Err(EmuError::MisalignedAccess(addr))
    } else {
        let pa = memmap::mask_region(addr);
        match memmap::bios().contains(pa) {
            Some(offset) => Ok(bytes::load32_spec(s.bios, offset as int)),
            None => match memmap::ram().contains(pa) {
                Some(offset) => Ok(bytes::load32_spec(s.ram, offset as int)),
                None => match memmap::interrupt_control().contains(pa) {
                    Some(offset) => Ok(0u32),
                    None => match memmap::dma().contains(pa) {
                        Some(offset) => dma_reg_spec(s.dma, offset),
                        None => match memmap::timers().contains(pa) {
                            Some(offset) => Ok(0u32),
                            None => match memmap::gpu().contains(pa) {
                                Some(offset) => Ok(
                                    if offset == 4 {
                                        0x1c000000u32
                                    } else {
                                        0u32
                                    },
                                ),
                                None => Err(EmuError::UnhandledLoad(addr)),
                            },
                        },
                    },
                },
            },
        }
    }
}

/// The state after a word store at `addr`.  Memory control accepts only
/// the canonical expansion base addresses; RAM-size, cache-control,
/// interrupt-controller and timer writes are discarded; DMA register
/// writes may start a transfer; GPU offsets 0 and 4 are the GP0 and GP1
/// ports.
pub open spec fn store32_spec(s: InterState, addr: u32, value: u32) -> Result<
    InterState,
    EmuError,
> {
    if addr % 4 != 0 {
        Err(EmuError::MisalignedAccess(addr))
    } else {
        let pa = memmap::mask_region(addr);
        match memmap::mem_control().contains(pa) {
            Some(offset) => if offset == 0 && value != 0x1f000000 {
                Err(EmuError::BadExpansionBase(value))
            } else if offset == 4 && value != 0x1f802000 {
                Err(EmuError::BadExpansionBase(value))
            } else {
                Ok(s)
            },
            None => match memmap::ram().contains(pa) {
                Some(offset) => Ok(
                    InterState { ram: bytes::store32_spec(s.ram, offset as int, value), ..s },
                ),
                None => match memmap::ram_size().contains(pa) {
                    Some(offset) => Ok(s),
                    None => match memmap::cache_control().contains(pa) {
                        Some(offset) => Ok(s),
                        None => match memmap::interrupt_control().contains(pa) {
                            Some(offset) => Ok(s),
                            None => match memmap::timers().contains(pa) {
                                Some(offset) => Ok(s),
                                None => match memmap::dma().contains(pa) {
                                    Some(offset) => set_dma_reg_spec(s, offset, value),
                                    None => match memmap::gpu().contains(pa) {
                                        Some(offset) => if offset == 0 {
                                            match gp0_spec(s.gpu, value) {
                                                Ok(g) => Ok(InterState { gpu: g, ..s }),
                                                Err(e) => Err(e),
                                            }
                                        } else if offset == 4 {
                                            match gp1_spec(s.gpu, value) {
                                                Ok(g) => Ok(InterState { gpu: g, ..s }),
                                                Err(e) => Err(e),
                                            }
                                        } else {
                                            Err(EmuError::UnhandledStore(addr))
                                        },
                                        None => Err(EmuError::UnhandledStore(addr)),
                                    },
                                },
                            },
                        },
                    },
                },
            },
        }
    }
}

/// The interconnect: owner of the BIOS, RAM, DMA controller and GPU.
pub struct Interconnect {
    pub bios: Bios,
    pub ram: Ram,
    pub dma: Dma,
    pub gpu: Gpu,
}

impl View for Interconnect {
    type V = InterState;

    open spec fn view(&self) -> InterState {
        InterState { bios: self.bios@, ram: self.ram@, dma: self.dma@, gpu: self.gpu@ }
    }
}

impl Interconnect {
    /// Every device is well formed.
    pub open spec fn wf(&self) -> bool {
        self.bios.wf() && self.ram.wf() && self.dma.wf() && self.gpu.wf()
    }

    /// Wires a BIOS to fresh RAM, DMA controller and GPU.
    pub fn new(bios: Bios) -> (r: Interconnect)
        requires
            bios.wf(),
        ensures
            r.wf(),
            r@.bios == bios@,
            r@.ram.len() == crate::ram::RAM_SIZE && forall|i: int|
                0 <= i < crate::ram::RAM_SIZE ==> r@.ram[i] == 0u8,
            r@.dma == crate::dma::dma_reset(),
            r@.gpu == crate::gpu::gpu_power_on(),
    {
        Interconnect { bios, ram: Ram::new(), dma: Dma::new(), gpu: Gpu::new() }
    }

    /// Loads the byte at `addr`.
    pub fn load8(&self, addr: u32) -> (r: Result<u8, EmuError>)
        requires
            self.wf(),
        ensures
            r == load8_spec(self@, addr),
    {
        let pa = memmap::mask_region(addr);

        if let Some(offset) = memmap::bios().contains(pa) {
            return Ok(self.bios.load8(offset));
        }

        if let Some(offset) = memmap::ram().contains(pa) {
            return Ok(self.ram.load8(offset));
        }

        if let Some(_offset) = memmap::expansion_1().contains(pa) {
            return Ok(0xff);
        }

        Err(EmuError::UnhandledLoad(addr))
    }

    /// Stores a byte to `addr`.
    pub fn store8(&mut self, addr: u32, value: u8) -> (r: Result<(), EmuError>)
        requires
            old(self).wf(),
        ensures
            final(self).wf(),
            match r {
                Ok(()) => store8_spec(old(self)@, addr, value) == Ok::<InterState, EmuError>(
                    final(self)@,
                ),
                Err(e) => store8_spec(old(self)@, addr, value) == Err::<InterState, EmuError>(e)
                    && final(self)@ == old(self)@,
            },
    {
        let pa = memmap::mask_region(addr);

        if let Some(_offset) = memmap::expansion_2().contains(pa) {
            return Ok(());
        }

        if let Some(offset) = memmap::ram().contains(pa) {
            self.ram.store8(offset, value);
            return Ok(());
        }

        Err(EmuError::UnhandledStore(addr))
    }

    /// Loads the halfword at `addr`, which must be 2-aligned.
    pub fn load16(&self, addr: u32) -> (r: Result<u16, EmuError>)
        requires
            self.wf(),
        ensures
            r == load16_spec(self@, addr),
    {
        if addr % 2 != 0 {
            return Err(EmuError::MisalignedAccess(addr));
        }

        let pa = memmap::mask_region(addr);
        proof {
            lemma_mask_region_align(addr);
        }

        if let Some(offset) = memmap::ram().contains(pa) {
            proof {
                lemma_aligned_offset(pa, 0x00000000);
                lemma_aligned_bound(offset);
            }
            return Ok(self.ram.load16(offset));
        }

        if let Some(_offset) = memmap::spu().contains(pa) {
            return Ok(0);
        }

        if let Some(_offset) = memmap::interrupt_control().contains(pa) {
            return Ok(0);
        }

        Err(EmuError::UnhandledLoad(addr))
    }

    /// Stores a halfword to `addr`, which must be 2-aligned.
    pub fn store16(&mut self, addr: u32, value: u16) -> (r: Result<(), EmuError>)
        requires
            old(self).wf(),
        ensures
            final(self).wf(),
            match r {
                Ok(()) => store16_spec(old(self)@, addr, value) == Ok::<InterState, EmuError>(
                    final(self)@,
                ),
                Err(e) => store16_spec(old(self)@, addr, value) == Err::<InterState, EmuError>(e)
                    && final(self)@ == old(self)@,
            },
    {
        if addr % 2 != 0 {
            return Err(EmuError::MisalignedAccess(addr));
        }

        let pa = memmap::mask_region(addr);
        proof {
            lemma_mask_region_align(addr);
        }

        if let Some(_offset) = memmap::spu().contains(pa) {
            return Ok(());
        }

        if let Some(offset) = memmap::ram().contains(pa) {
            proof {
                lemma_aligned_offset(pa, 0x00000000);
                lemma_aligned_bound(offset);
            }
            self.ram.store16(offset, value);
            return Ok(());
        }

        if let Some(_offset) = memmap::timers().contains(pa) {
            return Ok(());
        }

        if let Some(_offset) = memmap::interrupt_control().contains(pa) {
            return Ok(());
        }

        Err(EmuError::UnhandledStore(addr))
    }

    /// Loads the word at `addr`, which must be 4-aligned.
    pub fn load32(&self, addr: u32) -> (r: Result<u32, EmuError>)
        requires
            self.wf(),
        ensures
            r == load32_spec(self@, addr),
    {
        if addr % 4 != 0 {
            return Err(EmuError::MisalignedAccess(addr));
        }

        let pa = memmap::mask_region(addr);
        proof {
            lemma_mask_region_align(addr);
        }

        if let Some(offset) = memmap::bios().contains(pa) {
            proof {
                lemma_aligned_offset(pa, 0x1fc00000);
                lemma_aligned_bound(offset);
            }
            return Ok(self.bios.load32(offset));
        }

        if let Some(offset) = memmap::ram().contains(pa) {
            proof {
                lemma_aligned_offset(pa, 0x00000000);
                lemma_aligned_bound(offset);
            }
            return Ok(self.ram.load32(offset));
        }

        if let Some(_offset) = memmap::interrupt_control().contains(pa) {
            return Ok(0);
        }

        if let Some(offset) = memmap::dma().contains(pa) {
            return self.dma_reg(offset);
        }

        if let Some(_offset) = memmap::timers().contains(pa) {
            return Ok(0);
        }

        if let Some(offset) = memmap::gpu().contains(pa) {
            return Ok(
                if offset == 4 {
                    0x1c000000
                } else {
                    0
                },
            );
        }

        Err(EmuError::UnhandledLoad(addr))
    }

    /// Stores a word to `addr`, which must be 4-aligned.  A store that
    /// leaves a DMA channel active runs the whole transfer before
    /// returning.
    #[verifier::rlimit(100)]
    #[verifier::spinoff_prover]
    pub fn store32(&mut self, addr: u32, value: u32) -> (r: Result<(), EmuError>)
        requires
            old(self).wf(),
        ensures
            final(self).wf(),
            match r {
                Ok(()) => store32_spec(old(self)@, addr, value) == Ok::<InterState, EmuError>(
                    final(self)@,
                ),
                Err(e) => store32_spec(old(self)@, addr, value) == Err::<InterState, EmuError>(e)
                    && final(self)@.ram == old(self)@.ram
                    && final(self)@.bios == old(self)@.bios,
            },
            addr % 4 != 0 ==> r == Err::<(), EmuError>(EmuError::MisalignedAccess(addr)) && final(self)@ == old(self)@,
            ({
                let pa = memmap::mask_region(addr);
                &&& (addr % 4 == 0 && memmap::mem_control().contains(pa) is Some ==> final(self)@
                    == old(self)@)
                &&& (addr % 4 == 0 ==> (memmap::gpu().contains(pa) matches Some(o) && o != 0 && o
                    != 4 ==> r == Err::<(), EmuError>(EmuError::UnhandledStore(addr)) && final(self)@ == old(self)@))
                &&& (addr % 4 == 0 && memmap::mem_control().contains(pa) is None
                    && memmap::ram().contains(pa) is None && memmap::ram_size().contains(pa)
                    is None && memmap::cache_control().contains(pa) is None
                    && memmap::interrupt_control().contains(pa) is None && memmap::timers(
                ).contains(pa) is None && memmap::dma().contains(pa) is None && memmap::gpu(
                ).contains(pa) is None ==> r == Err::<(), EmuError>(EmuError::UnhandledStore(addr))
                    && final(self)@ == old(self)@)
            }),
    {
        if addr % 4 != 0 {
            return Err(EmuError::MisalignedAccess(addr));
        }

        let pa = memmap::mask_region(addr);
        proof {
            lemma_mask_region_align(addr);
        }

        if let Some(offset) = memmap::mem_control().contains(pa) {
            if offset == 0 && value != 0x1f000000 {
                return Err(EmuError::BadExpansionBase(value));
            }
            if offset == 4 && value != 0x1f802000 {
                return Err(EmuError::BadExpansionBase(value));
            }
            return Ok(());
        }

        if let Some(offset) = memmap::ram().contains(pa) {
            proof {
                lemma_aligned_offset(pa, 0x00000000);
                lemma_aligned_bound(offset);
            }
            self.ram.store32(offset, value);
            return Ok(());
        }

        if let Some(_offset) = memmap::ram_size().contains(pa) {
            return Ok(());
        }

        if let Some(_offset) = memmap::cache_control().contains(pa) {
            return Ok(());
        }

        if let Some(_offset) = memmap::interrupt_control().contains(pa) {
            return Ok(());
        }

        if let Some(_offset) = memmap::timers().contains(pa) {
            return Ok(());
        }

        if let Some(offset) = memmap::dma().contains(pa) {
            return self.set_dma_reg(offset, value);
        }

        if let Some(offset) = memmap::gpu().contains(pa) {
            if offset == 0 {
                return self.gpu.gp0(value);
            }
            if offset == 4 {
                return self.gpu.gp1(value);
            }
            return Err(EmuError::UnhandledStore(addr));
        }

        Err(EmuError::UnhandledStore(addr))
    }

    /// Reads a DMA register at `offset` inside the register window.
    pub fn dma_reg(&self, offset: u32) -> (r: Result<u32, EmuError>)
        requires
            self.wf(),
        ensures
            r == dma_reg_spec(self@.dma, offset),
    {
        proof {
            lemma_dma_major(offset);
        }
        let major = (offset & 0x70) >> 4;
        let minor = offset & 0xf;

        if major <= 6 {
            let channel = self.dma.channel(Port::from_index(major));

            if minor == 8 {
                Ok(channel.control())
            } else {
                Err(EmuError::UnhandledDmaRead(offset))
            }
        } else {
            if minor == 0 {
                Ok(self.dma.control())
            } else if minor == 4 {
                Ok(self.dma.interrupt())
            } else {
                Err(EmuError::UnhandledDmaRead(offset))
            }
        }
    }

    /// Writes a DMA register at `offset` inside the register window and
    /// runs the channel's transfer if the write leaves it active.
    #[verifier::rlimit(100)]
    #[verifier::spinoff_prover]
    pub fn set_dma_reg(&mut self, offset: u32, value: u32) -> (r: Result<(), EmuError>)
        requires
            old(self).wf(),
        ensures
            final(self).wf(),
            match r {
                Ok(()) => set_dma_reg_spec(old(self)@, offset, value) == Ok::<
                    InterState,
                    EmuError,
                >(final(self)@),
                Err(e) => set_dma_reg_spec(old(self)@, offset, value) == Err::<
                    InterState,
                    EmuError,
                >(e) && final(self)@.ram == old(self)@.ram && final(self)@.bios == old(self)@.bios,
            },
            ({
                let major = (offset & 0x70) >> 4;
                let minor = offset & 0xf;
                &&& (major <= 6 && minor == 8 && (value >> 9) & 3 == 3 ==> r == Err::<
                    (),
                    EmuError,
                >(EmuError::UnknownSyncMode((value >> 9) & 3)) && final(self)@ == old(self)@)
                &&& (major <= 6 && minor != 0 && minor != 4 && minor != 8 ==> r == Err::<
                    (),
                    EmuError,
                >(EmuError::UnhandledDmaWrite(offset)) && final(self)@ == old(self)@)
                &&& (major > 6 && minor != 0 && minor != 4 ==> r == Err::<(), EmuError>(
                    EmuError::UnhandledDmaWrite(offset),
                ) && final(self)@ == old(self)@)
            }),
    {
        proof {
            lemma_dma_major(offset);
        }
        let major = (offset & 0x70) >> 4;
        let minor = offset & 0xf;

        if major <= 6 {
            let port = Port::from_index(major);
            let mut channel = self.dma.channel(port);

            if minor == 0 {
                channel.set_base(value);
            } else if minor == 4 {
                channel.set_block_control(value);
            } else if minor == 8 {
                let res = channel.set_control(value);
                if let Err(e) = res {
                    return Err(e);
                }
            } else {
                return Err(EmuError::UnhandledDmaWrite(offset));
            }

            self.dma.set_channel(port, channel);

            if channel.active() {
                self.do_dma(port)
            } else {
                Ok(())
            }
        } else {
            if minor == 0 {
                self.dma.set_control(value);
                Ok(())
            } else if minor == 4 {
                self.dma.set_interrupt(value);
                Ok(())
            } else {
                Err(EmuError::UnhandledDmaWrite(offset))
            }
        }
    }

    /// Runs the transfer of `port`'s channel to completion.
    #[verifier::rlimit(100)]
    #[verifier::spinoff_prover]
    pub fn do_dma(&mut self, port: Port) -> (r: Result<(), EmuError>)
        requires
            old(self).wf(),
        ensures
            final(self).wf(),
            match r {
                Ok(()) => do_dma_spec(old(self)@, port) == Ok::<InterState, EmuError>(
                    final(self)@,
                ),
                Err(e) => do_dma_spec(old(self)@, port) == Err::<InterState, EmuError>(e)
                    && final(self)@ == (InterState { gpu: final(self)@.gpu, ..old(self)@ }),
            },
            ({
                let ch = old(self)@.dma.channels[port.spec_index() as int];
                &&& (ch.sync == Sync::LinkedList && ch.direction == Direction::ToRam ==> r
                    == Err::<(), EmuError>(EmuError::LinkedListToRam) && final(self)@ == old(self)@)
                &&& (ch.sync == Sync::LinkedList && ch.direction != Direction::ToRam && port
                    != Port::GPU ==> r == Err::<(), EmuError>(
                    EmuError::LinkedListBadPort(port.spec_index() as u32),
                ) && final(self)@ == old(self)@)
                &&& (ch.sync != Sync::LinkedList ==> (transfer_size_spec(ch) matches Some(n) && n
                    > 0 && ch.direction == Direction::FromRam && port != Port::GPU ==> r == Err::<
                    (),
                    EmuError,
                >(EmuError::UnhandledDmaPort(port.spec_index() as u32)) && final(self)@ == old(
                    self,
                )@))
                &&& (ch.sync != Sync::LinkedList ==> (transfer_size_spec(ch) matches Some(n) && n
                    > 0 && ch.direction == Direction::ToRam && port != Port::Otc ==> r == Err::<
                    (),
                    EmuError,
                >(EmuError::UnhandledDmaPort(port.spec_index() as u32)) && final(self)@ == old(
                    self,
                )@))
            }),
    {
        match self.dma.channel(port).sync() {
            Sync::LinkedList => self.do_dma_linked_list(port),
            _ => self.do_dma_block(port),
        }
    }

    /// Runs a linked-list transfer: walks the list in RAM, feeding each
    /// packet's words to GP0, until a header with bit 23 ends it.
    #[verifier::loop_isolation(false)]
    pub fn do_dma_linked_list(&mut self, port: Port) -> (r: Result<(), EmuError>)
        requires
            old(self).wf(),
        ensures
            final(self).wf(),
            match r {
                Ok(()) => do_dma_linked_list_spec(old(self)@, port) == Ok::<
                    InterState,
                    EmuError,
                >(final(self)@),
                Err(e) => do_dma_linked_list_spec(old(self)@, port) == Err::<
                    InterState,
                    EmuError,
                >(e) && final(self)@ == (InterState { gpu: final(self)@.gpu, ..old(self)@ }),
            },
            old(self)@.dma.channels[port.spec_index() as int].direction == Direction::ToRam ==> r
                == Err::<(), EmuError>(EmuError::LinkedListToRam) && final(self)@ == old(self)@,
            (old(self)@.dma.channels[port.spec_index() as int].direction != Direction::ToRam
                && port != Port::GPU) ==> r == Err::<(), EmuError>(
                EmuError::LinkedListBadPort(port.spec_index() as u32),
            ) && final(self)@ == old(self)@,
    {
        let channel = self.dma.channel(port);

        if channel.direction() == Direction::ToRam {
            return Err(EmuError::LinkedListToRam);
        }

        if !matches!(port, Port::GPU) {
            return Err(EmuError::LinkedListBadPort(port.index() as u32));
        }

        let base = channel.base();
        let mut addr = base & 0x1ffffc;
        let mut fuel: u32 = 0x80000;
        let mut running = true;
        let ghost s0 = self@;
        let ghost addr0 = addr;

        proof {
            lemma_ram_word_mask(base);
        }

        while running
            invariant
                self.wf(),
                self@.dma == s0.dma,
                self@.bios == s0.bios,
                self@.ram == s0.ram,
                addr <= 0x1ffffc,
                addr % 4 == 0,
                addr & 0x1ffffc == addr,
                fuel <= 0x80000,
                running ==> dma_ll_step(self@, addr, fuel as nat) == dma_ll_step(
                    s0,
                    addr0,
                    ll_fuel(),
                ),
                !running ==> dma_ll_step(s0, addr0, ll_fuel()) == Ok::<InterState, EmuError>(
                    self@,
                ),
            decreases fuel,
        {
            if fuel == 0 {
                return Err(EmuError::LinkedListOverrun);
            }
            fuel = fuel - 1;

            let header = self.ram.load32(addr);

            let mut remsz = header >> 24;

            while remsz > 0
                invariant
                    self.wf(),
                    self@.dma == s0.dma,
                    self@.bios == s0.bios,
                    self@.ram == s0.ram,
                    addr <= 0x1ffffc,
                    addr % 4 == 0,
                    addr & 0x1ffffc == addr,
                    dma_ll_continue(self@, addr, remsz, header, fuel as nat) == dma_ll_step(
                        s0,
                        addr0,
                        ll_fuel(),
                    ),
                decreases remsz,
            {
                proof {
                    lemma_ram_word_mask((addr + 4) as u32);
                }
                addr = (addr + 4) & 0x1ffffc;

                let command = self.ram.load32(addr);

                let res = self.gpu.gp0(command);
                if let Err(e) = res {
                    return Err(e);
                }

                remsz = remsz - 1;
            }

            if header & 0x800000 != 0 {
                running = false;
            } else {
                proof {
                    lemma_ram_word_mask(header);
                }
                addr = header & 0x1ffffc;
            }
        }

        let mut channel = self.dma.channel(port);
        channel.done();
        self.dma.set_channel(port, channel);

        Ok(())
    }

    /// Runs a block transfer: moves the channel's transfer size in words
    /// between RAM and the port, stepping the address by 4 each word.
    #[verifier::loop_isolation(false)]
    pub fn do_dma_block(&mut self, port: Port) -> (r: Result<(), EmuError>)
        requires
            old(self).wf(),
        ensures
            final(self).wf(),
            match r {
                Ok(()) => do_dma_block_spec(old(self)@, port) == Ok::<InterState, EmuError>(
                    final(self)@,
                ),
                Err(e) => do_dma_block_spec(old(self)@, port) == Err::<InterState, EmuError>(e)
                    && final(self)@ == (InterState { gpu: final(self)@.gpu, ..old(self)@ }),
            },
            transfer_size_spec(old(self)@.dma.channels[port.spec_index() as int]) is None ==> r
                == Err::<(), EmuError>(EmuError::NoBlockTransferSize) && final(self)@ == old(self)@,
            ({
                let ch = old(self)@.dma.channels[port.spec_index() as int];
                transfer_size_spec(ch) matches Some(n) && n > 0 && ch.direction
                    == Direction::FromRam && port != Port::GPU ==> r == Err::<(), EmuError>(
                    EmuError::UnhandledDmaPort(port.spec_index() as u32),
                ) && final(self)@ == old(self)@
            }),
            ({
                let ch = old(self)@.dma.channels[port.spec_index() as int];
                transfer_size_spec(ch) matches Some(n) && n > 0 && ch.direction
                    == Direction::ToRam && port != Port::Otc ==> r == Err::<(), EmuError>(
                    EmuError::UnhandledDmaPort(port.spec_index() as u32),
                ) && final(self)@ == old(self)@
            }),
    {
        let channel = self.dma.channel(port);

        let step = channel.step();
        let direction = channel.direction();

        let mut addr = channel.base();

        let mut remsz = match channel.transfer_size() {
            Some(n) => n,
            None => {
                return Err(EmuError::NoBlockTransferSize);
            },
        };

        let ghost s0 = self@;
        let ghost addr0 = addr;
        let ghost remsz0 = remsz;

        while remsz > 0
            invariant
                self.wf(),
                self@.dma == s0.dma,
                self@.bios == s0.bios,
                direction == Direction::FromRam ==> self@.ram == s0.ram,
                direction == Direction::FromRam && port != Port::GPU ==> self@ == s0 && remsz
                    == remsz0,
                direction == Direction::ToRam && port != Port::Otc ==> self@ == s0 && remsz
                    == remsz0,
                dma_block_step(self@, port, direction, step, addr, remsz) == dma_block_step(
                    s0,
                    port,
                    direction,
                    step,
                    addr0,
                    remsz0,
                ),
            decreases remsz,
        {
            let current_address = addr & 0x1ffffc;
            proof {
                lemma_ram_word_mask(addr);
            }

            match direction {
                Direction::FromRam => {
                    if !matches!(port, Port::GPU) {
                        return Err(EmuError::UnhandledDmaPort(port.index() as u32));
                    }

                    let source_word = self.ram.load32(current_address);

                    let res = self.gpu.gp0(source_word);
                    if let Err(e) = res {
                        return Err(e);
                    }
                },
                Direction::ToRam => {
                    if !matches!(port, Port::Otc) {
                        return Err(EmuError::UnhandledDmaPort(port.index() as u32));
                    }

                    let source_word = if remsz == 1 {
                        0xffffff
                    } else {
                        addr.wrapping_sub(4) & 0x1fffff
                    };

                    self.ram.store32(current_address, source_word);
                },
            }

            addr = match step {
                Step::Increment => addr.wrapping_add(4),
                Step::Decrement => addr.wrapping_sub(4),
            };

            remsz = remsz - 1;
        }

        let mut channel = self.dma.channel(port);
        channel.done();
        self.dma.set_channel(port, channel);

        Ok(())
    }
}

} // verus!
