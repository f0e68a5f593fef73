//! Byte-level memory behaviour: BIOS image validation, little-endian
//! word assembly, and store/load round trips in RAM.

use psx_emu::bios::{Bios, BIOS_SIZE};
use psx_emu::errors::EmuError;
use psx_emu::instruction::Instruction;
use psx_emu::ram::Ram;

fn zero_bios_image() -> Vec<u8> {
    vec![0u8; BIOS_SIZE]
}

#[test]
fn bios_rejects_short_image() {
    let r = Bios::new(vec![0u8; 100]);
    assert_eq!(r.err(), Some(EmuError::InvalidBiosSize(100)));
}

#[test]
fn bios_rejects_long_image() {
    let r = Bios::new(vec![0u8; BIOS_SIZE + 1]);
    assert_eq!(r.err(), Some(EmuError::InvalidBiosSize(BIOS_SIZE + 1)));
}

#[test]
fn bios_accepts_exact_image() {
    let b = Bios::new(zero_bios_image());
    assert!(b.is_ok());
}

#[test]
fn bios_load8_reads_single_byte() {
    let mut img = zero_bios_image();
    img[5] = 0xab;
    let b = Bios::new(img).unwrap();
    assert_eq!(b.load8(5), 0xab);
    assert_eq!(b.load8(6), 0x00);
}

#[test]
fn bios_load16_is_little_endian() {
    let mut img = zero_bios_image();
    img[8] = 0x34;
    img[9] = 0x12;
    let b = Bios::new(img).unwrap();
    assert_eq!(b.load16(8), 0x1234);
}

#[test]
fn bios_load32_combines_four_bytes() {
    let mut img = zero_bios_image();
    img[16] = 0x01;
    img[17] = 0x02;
    img[18] = 0x03;
    img[19] = 0x04;
    let b = Bios::new(img).unwrap();
    assert_eq!(b.load32(16), 0x04030201);
}

#[test]
fn ram_starts_zeroed() {
    let r = Ram::new();
    assert_eq!(r.load32(0), 0);
    assert_eq!(r.load32(0x1ffffc), 0);
    assert_eq!(r.load8(12345), 0);
}

#[test]
fn ram_store8_load8_round_trip() {
    let mut r = Ram::new();
    r.store8(77, 0xcd);
    assert_eq!(r.load8(77), 0xcd);
    assert_eq!(r.load8(76), 0);
    assert_eq!(r.load8(78), 0);
}

#[test]
fn ram_store16_load16_round_trip() {
    let mut r = Ram::new();
    r.store16(0x100, 0xbeef);
    assert_eq!(r.load16(0x100), 0xbeef);
    assert_eq!(r.load8(0x100), 0xef);
    assert_eq!(r.load8(0x101), 0xbe);
    assert_eq!(r.load16(0x102), 0);
}

#[test]
fn ram_store32_load32_round_trip() {
    let mut r = Ram::new();
    r.store32(0x1000, 0xdeadbeef);
    assert_eq!(r.load32(0x1000), 0xdeadbeef);
    assert_eq!(r.load8(0x1000), 0xef);
    assert_eq!(r.load8(0x1001), 0xbe);
    assert_eq!(r.load8(0x1002), 0xad);
    assert_eq!(r.load8(0x1003), 0xde);
    assert_eq!(r.load32(0x1004), 0);
    assert_eq!(r.load32(0xffc), 0);
}

#[test]
fn ram_store32_at_last_word() {
    let mut r = Ram::new();
    r.store32(0x1ffffc, 0x01020304);
    assert_eq!(r.load32(0x1ffffc), 0x01020304);
}

#[test]
fn instruction_fields_decode() {
    // ORI r3, r1, 0x1234
    let w = (0x0d << 26) | (1 << 21) | (3 << 16) | 0x1234;
    let i = Instruction::new(w);
    assert_eq!(i.opcode(), 0x0d);
    assert_eq!(i.rs(), 1);
    assert_eq!(i.rt(), 3);
    assert_eq!(i.imm(), 0x1234);
    assert_eq!(i.imm_se(), 0x1234);
}

#[test]
fn instruction_imm_se_sign_extends() {
    let i = Instruction::new(0x0000_8000);
    assert_eq!(i.imm(), 0x8000);
    assert_eq!(i.imm_se(), 0xffff_8000);
}

#[test]
fn instruction_special_fields_decode() {
    // SLL r5, r7, 3
    let w = (7 << 16) | (5 << 11) | (3 << 6);
    let i = Instruction::new(w);
    assert_eq!(i.opcode(), 0);
    assert_eq!(i.special_opcode(), 0);
    assert_eq!(i.rt(), 7);
    assert_eq!(i.rd(), 5);
    assert_eq!(i.sa(), 3);
    assert_eq!(i.target(), w & 0x3ffffff);
}
