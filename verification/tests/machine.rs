//! Whole-machine scenarios: boot, the load and branch delay slots,
//! overflow and alignment exceptions, and cache isolation, each driven
//! through real instruction words in a synthetic BIOS image.

use psx_emu::bios::{Bios, BIOS_SIZE};
use psx_emu::cpu::Cpu;
use psx_emu::errors::EmuError;
use psx_emu::interconnect::Interconnect;

fn nop() -> u32 {
    0
}

fn lui(rt: u32, imm: u32) -> u32 {
    (0x0f << 26) | (rt << 16) | (imm & 0xffff)
}

fn ori(rt: u32, rs: u32, imm: u32) -> u32 {
    (0x0d << 26) | (rs << 21) | (rt << 16) | (imm & 0xffff)
}

fn addi(rt: u32, rs: u32, imm: u32) -> u32 {
    (0x08 << 26) | (rs << 21) | (rt << 16) | (imm & 0xffff)
}

fn addiu(rt: u32, rs: u32, imm: u32) -> u32 {
    (0x09 << 26) | (rs << 21) | (rt << 16) | (imm & 0xffff)
}

fn lw(rt: u32, base: u32, offset: u32) -> u32 {
    (0x23 << 26) | (base << 21) | (rt << 16) | (offset & 0xffff)
}

fn sw(rt: u32, base: u32, offset: u32) -> u32 {
    (0x2b << 26) | (base << 21) | (rt << 16) | (offset & 0xffff)
}

fn sh(rt: u32, base: u32, offset: u32) -> u32 {
    (0x29 << 26) | (base << 21) | (rt << 16) | (offset & 0xffff)
}

fn beq(rs: u32, rt: u32, offset: u32) -> u32 {
    (0x04 << 26) | (rs << 21) | (rt << 16) | (offset & 0xffff)
}

fn mtc0(rt: u32, rd: u32) -> u32 {
    (0x10 << 26) | (0x04 << 21) | (rt << 16) | (rd << 11)
}

/// A BIOS image that starts with the given program.
fn bios_with(words: &[u32]) -> Bios {
    let mut img = vec![0u8; BIOS_SIZE];
    for (i, w) in words.iter().enumerate() {
        let o = i * 4;
        img[o] = *w as u8;
        img[o + 1] = (*w >> 8) as u8;
        img[o + 2] = (*w >> 16) as u8;
        img[o + 3] = (*w >> 24) as u8;
    }
    Bios::new(img).unwrap()
}

fn machine(words: &[u32]) -> Cpu {
    Cpu::new(Interconnect::new(bios_with(words)))
}

fn run(cpu: &mut Cpu, steps: usize) {
    for _ in 0..steps {
        cpu.run_next_instruction().unwrap();
    }
}

#[test]
fn boot_fetches_from_bios_entry() {
    // An all-zero BIOS: the first instruction is SLL r0, r0, 0, a NOP.
    let mut cpu = machine(&[]);
    assert_eq!(cpu.pc, 0xbfc00000);
    assert_eq!(cpu.next_pc, 0xbfc00004);
    run(&mut cpu, 1);
    assert_eq!(cpu.pc, 0xbfc00004);
    assert_eq!(cpu.next_pc, 0xbfc00008);
    assert_eq!(cpu.reg(0), 0);
    // Uninitialized general-purpose registers keep their power-on filler.
    for i in 1..32 {
        assert_eq!(cpu.reg(i), 0xdeadbeef);
    }
}

#[test]
fn lui_ori_builds_constants() {
    let mut cpu = machine(&[lui(1, 0x1234), ori(1, 1, 0x5678)]);
    run(&mut cpu, 2);
    assert_eq!(cpu.reg(1), 0x12345678);
}

#[test]
fn load_delay_slot_hides_loaded_value_for_one_instruction() {
    // r1 points at a BIOS word holding 0x11111111; r2 starts as
    // 0x22222222.  The ORI right after the LW still sees the old r2.
    let data_off = 0x40;
    let mut words = vec![
        lui(1, 0xbfc0),
        ori(1, 1, data_off),
        lui(2, 0x2222),
        ori(2, 2, 0x2222),
        lw(2, 1, 0),
        ori(3, 2, 0),
        nop(),
    ];
    while words.len() < (data_off as usize) / 4 {
        words.push(nop());
    }
    words.push(0x11111111);
    let mut cpu = machine(&words);
    run(&mut cpu, 5);
    // The LW has executed; its value is still in flight.
    assert_eq!(cpu.reg(2), 0x22222222);
    run(&mut cpu, 1);
    // The ORI read the stale r2; the load has now landed.
    assert_eq!(cpu.reg(3), 0x22222222);
    assert_eq!(cpu.reg(2), 0x11111111);
}

#[test]
fn branch_delay_slot_executes_before_the_target() {
    // BEQ r0, r0, +2 skips the second ADDIU; the delay-slot ADDIU runs.
    let mut cpu = machine(&[
        beq(0, 0, 2),
        addiu(1, 0, 7),
        addiu(1, 0, 9),
        nop(),
    ]);
    run(&mut cpu, 2);
    assert_eq!(cpu.reg(1), 7);
    assert_eq!(cpu.pc, 0xbfc0000c);
    run(&mut cpu, 1);
    assert_eq!(cpu.reg(1), 7);
}

#[test]
fn addi_overflow_raises_exception_without_writing() {
    // r1 = 0x7fffffff; ADDI r2, r1, 1 overflows.
    let mut cpu = machine(&[
        lui(1, 0x7fff),
        ori(1, 1, 0xffff),
        addi(2, 1, 1),
        nop(),
    ]);
    run(&mut cpu, 3);
    // The destination register is untouched.
    assert_eq!(cpu.reg(2), 0xdeadbeef);
    // EPC holds the ADDI's address, CAUSE the overflow code.
    assert_eq!(cpu.epc, 0xbfc00008);
    assert_eq!(cpu.cause & 0xff, 0x30);
    // BEV is clear, so the handler is the KSEG0 vector.
    assert_eq!(cpu.pc, 0x80000080);
    assert_eq!(cpu.next_pc, 0x80000084);
}

#[test]
fn unaligned_sw_raises_store_address_error() {
    // r1 = 0x2 (RAM, misaligned); SW raises StoreAddressError = 5.
    let mut cpu = machine(&[
        ori(1, 0, 0x2),
        sw(1, 1, 0),
        nop(),
    ]);
    run(&mut cpu, 2);
    assert_eq!(cpu.epc, 0xbfc00004);
    assert_eq!(cpu.cause & 0xff, 5 << 2);
    assert_eq!(cpu.pc, 0x80000080);
}

#[test]
fn unaligned_sh_raises_store_address_error() {
    let mut cpu = machine(&[
        ori(1, 0, 0x3),
        sh(1, 1, 0),
        nop(),
    ]);
    run(&mut cpu, 2);
    assert_eq!(cpu.cause & 0xff, 5 << 2);
    assert_eq!(cpu.pc, 0x80000080);
}

#[test]
fn unaligned_lw_raises_load_address_error() {
    let mut cpu = machine(&[
        ori(1, 0, 0x2),
        lw(2, 1, 0),
        nop(),
    ]);
    run(&mut cpu, 2);
    assert_eq!(cpu.epc, 0xbfc00004);
    assert_eq!(cpu.cause & 0xff, 4 << 2);
    assert_eq!(cpu.pc, 0x80000080);
    // The load never landed.
    assert_eq!(cpu.reg(2), 0xdeadbeef);
}

#[test]
fn cache_isolation_swallows_stores_and_loads() {
    // With SR bit 16 set, the SW is dropped; after clearing it the LW
    // reads the prior RAM contents (zero), not the stored value.
    let mut cpu = machine(&[
        lui(1, 0x0001),
        mtc0(1, 12),
        lui(2, 0xa000),
        ori(3, 0, 0x1234),
        sw(3, 2, 0x100),
        mtc0(0, 12),
        lw(4, 2, 0x100),
        nop(),
        nop(),
    ]);
    run(&mut cpu, 9);
    assert_eq!(cpu.reg(4), 0);
}

#[test]
fn isolated_lw_leaves_target_register_alone() {
    let mut cpu = machine(&[
        lui(1, 0x0001),
        mtc0(1, 12),
        lui(2, 0xa000),
        lw(4, 2, 0x100),
        nop(),
        nop(),
    ]);
    run(&mut cpu, 6);
    assert_eq!(cpu.reg(4), 0xdeadbeef);
}

#[test]
fn sw_then_lw_round_trips_through_ram() {
    let mut cpu = machine(&[
        lui(2, 0xa000),
        lui(3, 0x1234),
        ori(3, 3, 0x5678),
        sw(3, 2, 0x100),
        lw(4, 2, 0x100),
        nop(),
        nop(),
    ]);
    run(&mut cpu, 7);
    assert_eq!(cpu.reg(4), 0x12345678);
}

#[test]
fn syscall_enters_exception_with_code_8() {
    // SPECIAL sub-opcode 0b001100.
    let mut cpu = machine(&[0x0000000c, nop()]);
    run(&mut cpu, 1);
    assert_eq!(cpu.cause & 0xff, 8 << 2);
    assert_eq!(cpu.epc, 0xbfc00000);
    assert_eq!(cpu.pc, 0x80000080);
}

#[test]
fn exception_in_delay_slot_backs_up_epc() {
    // The SYSCALL sits in the BEQ's delay slot: EPC points at the
    // branch, and CAUSE bit 31 is set.
    let mut cpu = machine(&[
        beq(0, 0, 2),
        0x0000000c,
        nop(),
        nop(),
    ]);
    run(&mut cpu, 2);
    assert_eq!(cpu.epc, 0xbfc00000);
    assert_eq!(cpu.cause & 0x80000000, 0x80000000);
    assert_eq!(cpu.cause & 0xff, 8 << 2);
}

#[test]
fn unhandled_instruction_stops_the_emulator() {
    // Opcode 0x3f is not part of the R3000A subset.
    let mut cpu = machine(&[0xfc000000u32, nop()]);
    let r = cpu.run_next_instruction();
    assert_eq!(r, Err(EmuError::UnhandledInstruction(0xfc000000)));
}

#[test]
fn mtc0_nonzero_cause_write_stops_the_emulator() {
    let mut cpu = machine(&[
        ori(1, 0, 1),
        mtc0(1, 13),
        nop(),
    ]);
    cpu.run_next_instruction().unwrap();
    let r = cpu.run_next_instruction();
    assert_eq!(r, Err(EmuError::CauseWrite(1)));
}

#[test]
fn mtc0_zero_cause_write_is_accepted() {
    let mut cpu = machine(&[mtc0(0, 13), nop()]);
    assert_eq!(cpu.run_next_instruction(), Ok(()));
}

#[test]
fn invalid_rfe_word_stops_the_emulator() {
    // COP0 with rs = 0b10000 but wrong low bits.
    let w = (0x10 << 26) | (0x10 << 21) | 0x01;
    let mut cpu = machine(&[w, nop()]);
    let r = cpu.run_next_instruction();
    assert_eq!(r, Err(EmuError::InvalidRfe(w)));
}

#[test]
fn rfe_pops_the_interrupt_stack() {
    // SR = 0x3f: bits 3:0 take bits 5:2 (0xf) and bits 5:4 stay set.
    let rfe = (0x10 << 26) | (0x10 << 21) | 0x10;
    let mut cpu = machine(&[ori(1, 0, 0x3f), mtc0(1, 12), rfe, nop()]);
    run(&mut cpu, 3);
    assert_eq!(cpu.sr & 0x3f, 0x3f);
}

#[test]
fn rfe_preserves_the_old_stack_bits() {
    // SR = 0x30: bits 3:0 become 0xc while bits 5:4 are preserved.
    let rfe = (0x10 << 26) | (0x10 << 21) | 0x10;
    let mut cpu = machine(&[ori(1, 0, 0x30), mtc0(1, 12), rfe, nop()]);
    run(&mut cpu, 3);
    assert_eq!(cpu.sr, 0x3c);
}

#[test]
fn jump_and_link_records_return_address() {
    // JAL to word 4: target = (0xbfc00010 >> 2).
    let target = 0x0fc00010 >> 2;
    let jal = (0x03 << 26) | (target & 0x3ffffff);
    let mut cpu = machine(&[jal, nop(), nop(), nop(), addiu(1, 0, 5), nop()]);
    run(&mut cpu, 2);
    assert_eq!(cpu.pc, 0xbfc00010);
    assert_eq!(cpu.reg(31), 0xbfc00008);
    run(&mut cpu, 1);
    assert_eq!(cpu.reg(1), 5);
}

#[test]
fn arithmetic_op_results() {
    // ADDIU wraps, SLTI and SLTIU compare, ORI masks.
    let mut cpu = machine(&[
        lui(1, 0xffff),
        ori(1, 1, 0xffff),
        addiu(2, 1, 1),
        (0x0a << 26) | (1 << 21) | (3 << 16) | 1,
        (0x0b << 26) | (1 << 21) | (4 << 16) | 1,
        nop(),
    ]);
    run(&mut cpu, 5);
    // r1 = 0xffffffff (-1 signed); ADDIU wraps to 0.
    assert_eq!(cpu.reg(2), 0);
    // SLTI: -1 < 1 -> 1.
    assert_eq!(cpu.reg(3), 1);
    // SLTIU: 0xffffffff < 1 unsigned -> 0.
    assert_eq!(cpu.reg(4), 0);
}

#[test]
fn division_by_zero_has_fixed_results() {
    // DIV r1, r0 with r1 positive: HI = n, LO = 0xffffffff.
    let div = (1 << 21) | (0 << 16) | 0x1a;
    let mfhi = (2 << 11) | 0x10;
    let mflo = (3 << 11) | 0x12;
    let mut cpu = machine(&[ori(1, 0, 7), div, mfhi, mflo, nop(), nop()]);
    run(&mut cpu, 6);
    assert_eq!(cpu.reg(2), 7);
    assert_eq!(cpu.reg(3), 0xffffffff);
}

#[test]
fn signed_division_truncates_toward_zero() {
    // r1 = -7, r2 = 2: quotient -3, remainder -1.
    let div = (1 << 21) | (2 << 16) | 0x1a;
    let mfhi = (3 << 11) | 0x10;
    let mflo = (4 << 11) | 0x12;
    let mut cpu = machine(&[
        addiu(1, 0, 0xfff9),
        ori(2, 0, 2),
        div,
        mfhi,
        mflo,
        nop(),
        nop(),
    ]);
    run(&mut cpu, 7);
    assert_eq!(cpu.reg(3), 0xffffffffu32.wrapping_sub(0)); // remainder -1
    assert_eq!(cpu.reg(3) as i32, -1);
    assert_eq!(cpu.reg(4) as i32, -3);
}

#[test]
fn multu_fills_hi_and_lo() {
    let multu = (1 << 21) | (2 << 16) | 0x19;
    let mfhi = (3 << 11) | 0x10;
    let mflo = (4 << 11) | 0x12;
    let mut cpu = machine(&[
        lui(1, 0x8000),
        ori(2, 0, 4),
        multu,
        mfhi,
        mflo,
        nop(),
        nop(),
    ]);
    run(&mut cpu, 7);
    // 0x80000000 * 4 = 0x2_0000_0000.
    assert_eq!(cpu.reg(3), 2);
    assert_eq!(cpu.reg(4), 0);
}

#[test]
fn sra_preserves_the_sign_bit() {
    // r1 = 0x80000000; SRA r2, r1, 4 -> 0xf8000000.
    let sra = (1 << 16) | (2 << 11) | (4 << 6) | 0x03;
    let mut cpu = machine(&[lui(1, 0x8000), sra, nop()]);
    run(&mut cpu, 2);
    assert_eq!(cpu.reg(2), 0xf8000000);
}

#[test]
fn lb_sign_extends_and_lbu_does_not() {
    // BIOS byte 0x80 at a known offset.
    let data_off = 0x40;
    let mut words = vec![
        lui(1, 0xbfc0),
        ori(1, 1, data_off),
        (0x20 << 26) | (1 << 21) | (2 << 16), // LB r2, 0(r1)
        (0x24 << 26) | (1 << 21) | (3 << 16), // LBU r3, 0(r1)
        nop(),
        nop(),
    ];
    while words.len() < (data_off as usize) / 4 {
        words.push(nop());
    }
    words.push(0x00000080);
    let mut cpu = machine(&words);
    run(&mut cpu, 6);
    assert_eq!(cpu.reg(2), 0xffffff80);
    assert_eq!(cpu.reg(3), 0x80);
}

#[test]
fn bev_selects_the_bios_exception_vector() {
    // SR bit 22 set: exceptions vector into the BIOS.
    let mut cpu = machine(&[
        lui(1, 0x0040),
        mtc0(1, 12),
        0x0000000c,
        nop(),
    ]);
    run(&mut cpu, 3);
    assert_eq!(cpu.pc, 0xbfc00180);
    assert_eq!(cpu.next_pc, 0xbfc00184);
}

#[test]
fn jr_and_jalr_jump_through_registers() {
    // JALR r2, r1 jumps to r1 and leaves the return address in r2.
    let jalr = (1 << 21) | (2 << 11) | 0x09;
    let mut cpu = machine(&[
        lui(1, 0xbfc0),
        ori(1, 1, 0x0014),
        jalr,
        nop(),
        nop(),
        addiu(3, 0, 6),
        nop(),
    ]);
    run(&mut cpu, 4);
    assert_eq!(cpu.pc, 0xbfc00014);
    assert_eq!(cpu.reg(2), 0xbfc00010);
    run(&mut cpu, 1);
    assert_eq!(cpu.reg(3), 6);
}

#[test]
fn variable_shifts_use_low_five_bits() {
    // SLLV r3, r2, r1 with r1 = 33: shifts by 1.
    let sllv = (1 << 21) | (2 << 16) | (3 << 11) | 0x04;
    let srlv = (1 << 21) | (2 << 16) | (4 << 11) | 0x06;
    let mut cpu = machine(&[
        ori(1, 0, 33),
        ori(2, 0, 0x8000),
        sllv,
        srlv,
        nop(),
    ]);
    run(&mut cpu, 4);
    assert_eq!(cpu.reg(3), 0x10000);
    assert_eq!(cpu.reg(4), 0x4000);
}

#[test]
fn logic_ops_compute_expected_words() {
    let and = (1 << 21) | (2 << 16) | (3 << 11) | 0x24;
    let or = (1 << 21) | (2 << 16) | (4 << 11) | 0x25;
    let nor = (1 << 21) | (2 << 16) | (5 << 11) | 0x27;
    let mut cpu = machine(&[
        ori(1, 0, 0xff0f),
        ori(2, 0, 0x0ff0),
        and,
        or,
        nor,
        nop(),
    ]);
    run(&mut cpu, 5);
    assert_eq!(cpu.reg(3), 0x0f00);
    assert_eq!(cpu.reg(4), 0xffff);
    assert_eq!(cpu.reg(5), 0xffff0000);
}

#[test]
fn slt_compares_signed_and_sltu_unsigned() {
    let slt = (1 << 21) | (2 << 16) | (3 << 11) | 0x2a;
    let sltu = (1 << 21) | (2 << 16) | (4 << 11) | 0x2b;
    let mut cpu = machine(&[
        addiu(1, 0, 0xffff), // r1 = -1 signed, 0xffffffff unsigned
        ori(2, 0, 1),
        slt,
        sltu,
        nop(),
    ]);
    run(&mut cpu, 4);
    assert_eq!(cpu.reg(3), 1);
    assert_eq!(cpu.reg(4), 0);
}

#[test]
fn bltz_and_bgez_test_the_sign_bit() {
    // r1 = -1: BLTZ taken, skipping one word beyond the delay slot.
    let bltz = (0x01 << 26) | (1 << 21) | (0x00 << 16) | 2;
    let mut cpu = machine(&[
        addiu(1, 0, 0xffff),
        bltz,
        addiu(2, 0, 1),
        addiu(2, 0, 9),
        nop(),
    ]);
    run(&mut cpu, 3);
    assert_eq!(cpu.reg(2), 1);
    assert_eq!(cpu.pc, 0xbfc00010);

    // r1 = 1: BGEZ taken as well.
    let bgez = (0x01 << 26) | (1 << 21) | (0x01 << 16) | 2;
    let mut cpu = machine(&[
        ori(1, 0, 1),
        bgez,
        addiu(2, 0, 1),
        addiu(2, 0, 9),
        nop(),
    ]);
    run(&mut cpu, 3);
    assert_eq!(cpu.reg(2), 1);
    assert_eq!(cpu.pc, 0xbfc00010);
}

#[test]
fn mfc0_reads_sr_with_a_load_delay() {
    let mfc0 = (0x10 << 26) | (2 << 16) | (12 << 11);
    let mut cpu = machine(&[
        ori(1, 0, 0x3f),
        mtc0(1, 12),
        mfc0,
        nop(),
        nop(),
    ]);
    run(&mut cpu, 4);
    assert_eq!(cpu.reg(2), 0x3f);
}
