//! Device behaviour behind the interconnect: address decoding, DMA
//! register access, OTC and GPU linked-list transfers, and the GPU
//! command ports.

use psx_emu::bios::{Bios, BIOS_SIZE};
use psx_emu::channel::{Channel, Direction, Step, Sync};
use psx_emu::dma::{Dma, Port};
use psx_emu::errors::EmuError;
use psx_emu::gpu::{Gp0Mode, Gpu};
use psx_emu::interconnect::Interconnect;
use psx_emu::memmap;

fn inter() -> Interconnect {
    Interconnect::new(Bios::new(vec![0u8; BIOS_SIZE]).unwrap())
}

#[test]
fn mask_region_strips_segment_bits() {
    assert_eq!(memmap::mask_region(0x00001234), 0x00001234);
    assert_eq!(memmap::mask_region(0x80001234), 0x00001234);
    assert_eq!(memmap::mask_region(0xa0001234), 0x00001234);
    assert_eq!(memmap::mask_region(0xbfc00000), 0x1fc00000);
    assert_eq!(memmap::mask_region(0xfffe0130), 0xfffe0130);
}

#[test]
fn range_contains_returns_offsets() {
    let r = memmap::Range::new(0x100, 0x10);
    assert_eq!(r.contains(0x0ff), None);
    assert_eq!(r.contains(0x100), Some(0));
    assert_eq!(r.contains(0x10f), Some(0xf));
    assert_eq!(r.contains(0x110), None);
}

#[test]
fn ram_is_mirrored_through_every_segment() {
    let mut i = inter();
    i.store32(0x00000100, 0xcafebabe).unwrap();
    assert_eq!(i.load32(0x80000100), Ok(0xcafebabe));
    assert_eq!(i.load32(0xa0000100), Ok(0xcafebabe));
}

#[test]
fn expansion_1_reads_open_bus() {
    let i = inter();
    assert_eq!(i.load8(0x1f000000), Ok(0xff));
}

#[test]
fn unmapped_access_is_an_error() {
    let mut i = inter();
    assert_eq!(i.load8(0x1f801080), Err(EmuError::UnhandledLoad(0x1f801080)));
    assert_eq!(
        i.store32(0x12345678, 1),
        Err(EmuError::UnhandledStore(0x12345678))
    );
}

#[test]
fn misaligned_word_access_is_an_error() {
    let mut i = inter();
    assert_eq!(i.load32(0x2), Err(EmuError::MisalignedAccess(0x2)));
    assert_eq!(i.load16(0x1), Err(EmuError::MisalignedAccess(0x1)));
    assert_eq!(i.store32(0x2, 0), Err(EmuError::MisalignedAccess(0x2)));
    assert_eq!(i.store16(0x1, 0), Err(EmuError::MisalignedAccess(0x1)));
}

#[test]
fn mem_control_accepts_only_canonical_bases() {
    let mut i = inter();
    assert_eq!(i.store32(0x1f801000, 0x1f000000), Ok(()));
    assert_eq!(i.store32(0x1f801004, 0x1f802000), Ok(()));
    assert_eq!(
        i.store32(0x1f801000, 0x12345678),
        Err(EmuError::BadExpansionBase(0x12345678))
    );
    assert_eq!(
        i.store32(0x1f801004, 0x1f000000),
        Err(EmuError::BadExpansionBase(0x1f000000))
    );
    // Other memory-control offsets are ignored.
    assert_eq!(i.store32(0x1f801008, 0x12345678), Ok(()));
}

#[test]
fn stubbed_regions_read_zero_and_drop_writes() {
    let mut i = inter();
    assert_eq!(i.load32(0x1f801070), Ok(0));
    assert_eq!(i.load16(0x1f801c00), Ok(0));
    assert_eq!(i.load32(0x1f801100), Ok(0));
    assert_eq!(i.store16(0x1f801c00, 0xffff), Ok(()));
    assert_eq!(i.store32(0x1f801060, 0xffff), Ok(()));
    assert_eq!(i.store32(0xfffe0130, 0xffff), Ok(()));
}

#[test]
fn gpu_status_read_reports_ready() {
    let i = inter();
    assert_eq!(i.load32(0x1f801814), Ok(0x1c000000));
    assert_eq!(i.load32(0x1f801810), Ok(0));
}

#[test]
fn dma_control_register_resets_and_round_trips() {
    let mut i = inter();
    assert_eq!(i.load32(0x1f8010f0), Ok(0x07654321));
    i.store32(0x1f8010f0, 0x12345678).unwrap();
    assert_eq!(i.load32(0x1f8010f0), Ok(0x12345678));
}

#[test]
fn dma_interrupt_register_acknowledges_flags() {
    let mut d = Dma::new();
    d.set_interrupt(0x00ff803f);
    let r = d.interrupt();
    // Dummy bits, force bit and enables read back; flags stay clear.
    assert_eq!(r & 0x3f, 0x3f);
    assert_eq!((r >> 15) & 1, 1);
    assert_eq!((r >> 16) & 0x7f, 0x7f);
    assert_eq!((r >> 23) & 1, 1);
    assert_eq!((r >> 24) & 0x3f, 0);
    // The force bit alone asserts the aggregated IRQ bit 31.
    assert_eq!(r >> 31, 1);
}

#[test]
fn dma_interrupt_write_acknowledges_all_seven_channels() {
    // A pending flag on channel 6 (bit 30) is cleared by writing it.
    let mut d = Dma::new();
    d.channel_irq_flags = 0x40;
    d.set_interrupt(0x40000000);
    assert_eq!(d.channel_irq_flags, 0);
    assert_eq!((d.interrupt() >> 24) & 0x7f, 0);
}

#[test]
fn dma_channel_control_round_trips() {
    let mut c = Channel::new();
    c.set_control(0x01000001).unwrap();
    assert_eq!(c.direction(), Direction::FromRam);
    assert!(matches!(c.step(), Step::Increment));
    assert!(matches!(c.sync(), Sync::Manual));
    assert_eq!(c.control(), 0x01000001);
    assert!(!c.active());
    c.set_control(0x11000201).unwrap();
    assert!(matches!(c.sync(), Sync::Request));
    assert!(c.active());
}

#[test]
fn dma_channel_rejects_reserved_sync_mode() {
    let mut c = Channel::new();
    assert_eq!(c.set_control(0x600), Err(EmuError::UnknownSyncMode(3)));
}

#[test]
fn dma_channel_transfer_sizes() {
    let mut c = Channel::new();
    c.set_base(0x12345678);
    assert_eq!(c.base(), 0x345678);
    c.set_block_control(0x00030010);
    assert_eq!(c.block_control(), 0x00030010);
    c.set_control(0x0).unwrap();
    assert_eq!(c.transfer_size(), Some(0x10));
    c.set_control(0x200).unwrap();
    assert_eq!(c.transfer_size(), Some(0x30));
    c.set_control(0x400).unwrap();
    assert_eq!(c.transfer_size(), None);
}

#[test]
fn port_indices_follow_register_order() {
    assert_eq!(Port::from_index(0).index(), 0);
    assert_eq!(Port::from_index(2).index(), 2);
    assert_eq!(Port::from_index(6).index(), 6);
}

#[test]
fn otc_dma_writes_a_reverse_linked_list() {
    let mut i = inter();
    // OTC channel: base 0x100, block size 4, manual sync, to RAM,
    // trigger and enable set by the control write.
    i.store32(0x1f8010e0, 0x00000100).unwrap();
    i.store32(0x1f8010e4, 0x00000004).unwrap();
    i.store32(0x1f8010e8, 0x11000000).unwrap();
    assert_eq!(i.load32(0x00000100), Ok(0x000000fc));
    assert_eq!(i.load32(0x00000104), Ok(0x00000100));
    assert_eq!(i.load32(0x00000108), Ok(0x00000104));
    assert_eq!(i.load32(0x0000010c), Ok(0x00ffffff));
    // The channel's enable and trigger bits are cleared on completion.
    let control = i.load32(0x1f8010e8).unwrap();
    assert_eq!((control >> 24) & 1, 0);
    assert_eq!((control >> 28) & 1, 0);
}

#[test]
fn gpu_linked_list_dma_feeds_gp0_in_order() {
    let mut i = inter();
    // One packet of two drawing-area words, then a terminator packet.
    i.store32(0x1000, 0x0200100c).unwrap();
    i.store32(0x1004, 0xe3000001).unwrap();
    i.store32(0x1008, 0xe3000002).unwrap();
    i.store32(0x100c, 0x00ffffff).unwrap();
    // GPU channel: base 0x1000, from RAM, linked-list sync, started by
    // the control write.
    i.store32(0x1f8010a0, 0x00001000).unwrap();
    i.store32(0x1f8010a8, 0x11000401).unwrap();
    // Both words arrived, in order: the later one is in force.
    assert_eq!(i.gpu.drawing_area_left, 2);
    // The channel is done.
    let control = i.load32(0x1f8010a8).unwrap();
    assert_eq!((control >> 24) & 1, 0);
    assert_eq!((control >> 28) & 1, 0);
}

#[test]
fn linked_list_dma_to_ram_is_an_error() {
    let mut i = inter();
    i.store32(0x1f8010a0, 0x00001000).unwrap();
    let r = i.store32(0x1f8010a8, 0x11000400);
    assert_eq!(r, Err(EmuError::LinkedListToRam));
}

#[test]
fn linked_list_dma_on_non_gpu_port_is_an_error() {
    let mut i = inter();
    let r = i.store32(0x1f8010e8, 0x11000401);
    assert_eq!(r, Err(EmuError::LinkedListBadPort(6)));
}

#[test]
fn block_dma_from_ram_to_non_gpu_port_is_an_error() {
    let mut i = inter();
    // Channel 0 (MDEC in), from RAM, manual, block size 1.
    i.store32(0x1f801084, 0x00000001).unwrap();
    let r = i.store32(0x1f801088, 0x11000001);
    assert_eq!(r, Err(EmuError::UnhandledDmaPort(0)));
}

#[test]
fn unhandled_dma_register_offsets_are_errors() {
    let mut i = inter();
    assert_eq!(i.load32(0x1f801080), Err(EmuError::UnhandledDmaRead(0)));
    assert_eq!(
        i.store32(0x1f8010fc, 1),
        Err(EmuError::UnhandledDmaWrite(0x7c))
    );
}

#[test]
fn gp0_draw_mode_sets_texture_state() {
    let mut g = Gpu::new();
    g.gp0(0xe100_02ff).unwrap();
    assert_eq!(g.page_base_x, 0xf);
    assert_eq!(g.page_base_y, 1);
    assert_eq!(g.semi_transparency, 3);
    assert!(g.dithering);
    assert!(!g.draw_to_display);
}

#[test]
fn gp0_reserved_texture_depth_is_an_error() {
    let mut g = Gpu::new();
    assert_eq!(g.gp0(0xe100_0180), Err(EmuError::UnhandledTextureDepth(3)));
}

#[test]
fn gp0_unknown_opcode_is_an_error() {
    let mut g = Gpu::new();
    assert_eq!(g.gp0(0xaaaa_aaaa), Err(EmuError::UnhandledGp0Command(0xaaaaaaaa)));
}

#[test]
fn gp0_multiword_command_waits_for_all_words() {
    let mut g = Gpu::new();
    // A monochrome quad takes five words; drawing itself is a no-op.
    g.gp0(0x2800_0000).unwrap();
    for _ in 0..4 {
        g.gp0(0x0001_0001).unwrap();
    }
    // The next word starts a fresh command.
    g.gp0(0xe300_0005).unwrap();
    assert_eq!(g.drawing_area_left, 5);
}

#[test]
fn gp0_image_load_counts_pixels_down() {
    let mut g = Gpu::new();
    // 4x2 pixels: four data words after the three header words.
    g.gp0(0xa000_0000).unwrap();
    g.gp0(0x0000_0000).unwrap();
    g.gp0(0x0002_0004).unwrap();
    assert!(matches!(g.gp0_mode, Gp0Mode::ImageLoad));
    for _ in 0..4 {
        g.gp0(0x1234_5678).unwrap();
    }
    assert!(matches!(g.gp0_mode, Gp0Mode::Command));
    // Image data does not reach the command decoder.
    g.gp0(0xe300_0007).unwrap();
    assert_eq!(g.drawing_area_left, 7);
}

#[test]
fn gp0_drawing_offset_sign_extends() {
    let mut g = Gpu::new();
    // x = -1 (0x7ff), y = 5.
    g.gp0(0xe500_0000 | 0x7ff | (5 << 11)).unwrap();
    assert_eq!(g.drawing_x_offset, -1);
    assert_eq!(g.drawing_y_offset, 5);
}

#[test]
fn gp1_reset_restores_display_defaults() {
    let mut g = Gpu::new();
    g.gp1(0x0300_0000).unwrap();
    assert!(!g.display_disable);
    g.gp1(0x0000_0000).unwrap();
    assert!(g.display_disable);
}

#[test]
fn gp1_display_mode_and_ranges() {
    let mut g = Gpu::new();
    g.gp1(0x0800_0024).unwrap();
    assert!(g.interlaced);
    g.gp1(0x0600_2345).unwrap();
    assert_eq!(g.display_horizontal_start, 0x345);
    g.gp1(0x0700_8123).unwrap();
    assert_eq!(g.display_line_start, 0x123);
    g.gp1(0x0500_0666).unwrap();
    assert_eq!(g.display_vram_x_start, 0x266);
    assert_eq!(g.display_vram_y_start, 1);
}

#[test]
fn gp1_unsupported_display_mode_is_an_error() {
    let mut g = Gpu::new();
    assert_eq!(
        g.gp1(0x0800_0080),
        Err(EmuError::UnsupportedDisplayMode(0x08000080))
    );
}

#[test]
fn gp1_unknown_opcode_is_an_error() {
    let mut g = Gpu::new();
    assert_eq!(g.gp1(0x4000_0000), Err(EmuError::UnhandledGp1Command(0x40000000)));
}

#[test]
fn gpu_status_has_ready_bits_set() {
    let g = Gpu::new();
    let s = g.status();
    assert_eq!((s >> 26) & 1, 1);
    assert_eq!((s >> 27) & 1, 1);
    assert_eq!((s >> 28) & 1, 1);
    // Display starts disabled; DMA direction off clears the request bit.
    assert_eq!((s >> 23) & 1, 1);
    assert_eq!((s >> 25) & 1, 0);
}

#[test]
fn gpu_status_dma_request_follows_direction() {
    let mut g = Gpu::new();
    g.gp1(0x0400_0001).unwrap();
    assert_eq!((g.status() >> 25) & 1, 1);
    assert_eq!((g.status() >> 29) & 3, 1);
}

#[test]
fn gp1_reset_command_buffer_discards_partial_command() {
    let mut g = Gpu::new();
    g.gp0(0x2800_0000).unwrap();
    g.gp1(0x0100_0000).unwrap();
    // A fresh single-word command runs at once.
    g.gp0(0xe300_0009).unwrap();
    assert_eq!(g.drawing_area_left, 9);
}
