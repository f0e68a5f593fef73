//! The MIPS R3000A interpreter: instruction decode and dispatch, the
//! load-delay and branch-delay pipeline, the coprocessor-0 exception
//! machine, and integer overflow and alignment semantics.

use vstd::prelude::*;
use crate::errors::EmuError;
use crate::instruction::Instruction;
use crate::interconnect::{Interconnect, InterState};

verus! {

/// The emulated MIPS exceptions.  These are control transfers of the
/// emulated machine, not emulator errors.
#[derive(Clone, Copy, PartialEq, Eq, Structural, Debug)]
pub enum Exception {
    /// A load or instruction fetch from a misaligned address.
    LoadAddressError,
    /// A store to a misaligned address.
    StoreAddressError,
    /// The SYSCALL instruction.
    SysCall,
    /// Signed overflow in ADD or ADDI.
    Overflow,
}

/// The cause code of an exception, as stored in bits 6:2 of CAUSE.
pub open spec fn exception_code(e: Exception) -> u32 {
    match e {
        Exception::LoadAddressError => 0x4,
        Exception::StoreAddressError => 0x5,
        Exception::SysCall => 0x8,
        Exception::Overflow => 0xc,
    }
}

/// The mathematical state of the CPU and, through `inter`, the whole
/// machine.
pub ghost struct CpuState {
    pub pc: u32,
    pub next_pc: u32,
    pub regs: Seq<u32>,
    pub out_regs: Seq<u32>,
    pub inter: InterState,
    pub sr: u32,
    pub load: (u32, u32),
    pub hi: u32,
    pub lo: u32,
    pub current_pc: u32,
    pub cause: u32,
    pub epc: u32,
    pub branch: bool,
    pub delay_slot: bool,
}

/// The CPU invariant: 32 registers in each file, register 0 pinned to
/// zero in both, and a pending load that targets a valid register.
pub open spec fn cpu_inv(c: CpuState) -> bool {
    &&& c.regs.len() == 32
    &&& c.out_regs.len() == 32
    &&& c.regs[0] == 0
    &&& c.out_regs[0] == 0
    &&& c.load.0 < 32
}

/// A register write: the value lands in the shadow file and register 0
/// stays zero.
pub open spec fn set_reg_spec(regs: Seq<u32>, index: u32, value: u32) -> Seq<u32> {
    regs.update(index as int, value).update(0, 0)
}

/// Exception entry: the low six status bits shift left two places (the
/// interrupt/kernel stack is pushed), CAUSE holds the code, EPC the
/// faulting address (backed up one instruction in a delay slot, with
/// CAUSE bit 31 set), and control moves to the handler chosen by the
/// BEV bit.
pub open spec fn exception_spec(c: CpuState, cause: Exception) -> CpuState {
    let handler: u32 = if c.sr & 0x400000 != 0 {
        0xbfc00180
    } else {
        0x80000080
    };
    let mode = c.sr & 0x3f;
    let sr = (c.sr & 0xffffffc0) | ((mode << 2) & 0x3f);
    let code = exception_code(cause) << 2;
    CpuState {
        sr: sr,
        cause: if c.delay_slot {
            code | 0x80000000u32
        } else {
            code
        },
        epc: if c.delay_slot {
            c.current_pc.wrapping_sub(4)
        } else {
            c.current_pc
        },
        pc: handler,
        next_pc: handler.wrapping_add(4),
        ..c
    }
}

/// A taken branch: the displacement, in words, is added to the address
/// of the delay slot.
pub open spec fn branch_spec(c: CpuState, offset: u32) -> CpuState {
    CpuState { next_pc: c.pc.wrapping_add(offset << 2), branch: true, ..c }
}

/// SLL: shift left logical by a constant.
pub open spec fn op_sll_spec(c: CpuState, sa: u32, rt: u32, rd: u32) -> CpuState {
    CpuState { out_regs: set_reg_spec(c.out_regs, rd, c.regs[rt as int] << sa), ..c }
}

/// SRL: shift right logical by a constant.
pub open spec fn op_srl_spec(c: CpuState, sa: u32, rt: u32, rd: u32) -> CpuState {
    CpuState { out_regs: set_reg_spec(c.out_regs, rd, c.regs[rt as int] >> sa), ..c }
}

/// SRA: shift right arithmetic by a constant.
pub open spec fn op_sra_spec(c: CpuState, sa: u32, rt: u32, rd: u32) -> CpuState {
    CpuState {
        out_regs: set_reg_spec(c.out_regs, rd, ((c.regs[rt as int] as i32) >> sa) as u32),
        ..c
    }
}

/// SLLV: shift left logical by the low five bits of a register.
pub open spec fn op_sllv_spec(c: CpuState, rs: u32, rt: u32, rd: u32) -> CpuState {
    CpuState {
        out_regs: set_reg_spec(c.out_regs, rd, c.regs[rt as int] << (c.regs[rs as int] & 0x1f)),
        ..c
    }
}

/// SRAV: shift right arithmetic by the low five bits of a register.
pub open spec fn op_srav_spec(c: CpuState, rs: u32, rt: u32, rd: u32) -> CpuState {
    CpuState {
        out_regs: set_reg_spec(
            c.out_regs,
            rd,
            ((c.regs[rt as int] as i32) >> (c.regs[rs as int] & 0x1f)) as u32,
        ),
        ..c
    }
}

/// SRLV: shift right logical by the low five bits of a register.
pub open spec fn op_srlv_spec(c: CpuState, rs: u32, rt: u32, rd: u32) -> CpuState {
    CpuState {
        out_regs: set_reg_spec(c.out_regs, rd, c.regs[rt as int] >> (c.regs[rs as int] & 0x1f)),
        ..c
    }
}

/// JR: jump to the address in a register.
pub open spec fn op_jr_spec(c: CpuState, rs: u32) -> CpuState {
    CpuState { next_pc: c.regs[rs as int], branch: true, ..c }
}

/// JALR: jump to the address in a register, leaving the return address
/// in `rd`.
pub open spec fn op_jalr_spec(c: CpuState, rs: u32, rd: u32) -> CpuState {
    CpuState {
        out_regs: set_reg_spec(c.out_regs, rd, c.next_pc),
        next_pc: c.regs[rs as int],
        branch: true,
        ..c
    }
}

/// MFHI: read the HI register.
pub open spec fn op_mfhi_spec(c: CpuState, rd: u32) -> CpuState {
    CpuState { out_regs: set_reg_spec(c.out_regs, rd, c.hi), ..c }
}

/// MTHI: write the HI register.
pub open spec fn op_mthi_spec(c: CpuState, rs: u32) -> CpuState {
    CpuState { hi: c.regs[rs as int], ..c }
}

/// MFLO: read the LO register.
pub open spec fn op_mflo_spec(c: CpuState, rd: u32) -> CpuState {
    CpuState { out_regs: set_reg_spec(c.out_regs, rd, c.lo), ..c }
}

/// MTLO: write the LO register.
pub open spec fn op_mtlo_spec(c: CpuState, rs: u32) -> CpuState {
    CpuState { lo: c.regs[rs as int], ..c }
}

/// MULTU: unsigned 32x32 to 64-bit multiply into HI:LO.
pub open spec fn op_multu_spec(c: CpuState, rs: u32, rt: u32) -> CpuState {
    let res = ((c.regs[rs as int] as u64) * (c.regs[rt as int] as u64)) as u64;
    CpuState { hi: (res >> 32) as u32, lo: res as u32, ..c }
}

/// DIV: signed division into HI (remainder) and LO (quotient).  Division
/// by zero and the one overflowing quotient have fixed results.
pub open spec fn op_div_spec(c: CpuState, rs: u32, rt: u32) -> CpuState {
    let n = c.regs[rs as int] as i32;
    let d = c.regs[rt as int] as i32;
    if d == 0 {
        CpuState {
            hi: n as u32,
            lo: if n >= 0 {
                0xffffffffu32
            } else {
                1u32
            },
            ..c
        }
    } else if c.regs[rs as int] == 0x80000000u32 && d == -1 {
        CpuState { hi: 0, lo: 0x80000000u32, ..c }
    } else {
        let q = match i32::checked_div(n, d) {
            Some(q) => q,
            None => 0,
        };
        let r = match i32::checked_rem(n, d) {
            Some(r) => r,
            None => 0,
        };
        CpuState { hi: r as u32, lo: q as u32, ..c }
    }
}

/// DIVU: unsigned division into HI (remainder) and LO (quotient).
pub open spec fn op_divu_spec(c: CpuState, rs: u32, rt: u32) -> CpuState {
    let n = c.regs[rs as int];
    let d = c.regs[rt as int];
    if d == 0 {
        CpuState { hi: n, lo: 0xffffffffu32, ..c }
    } else {
        CpuState { hi: (n % d) as u32, lo: (n / d) as u32, ..c }
    }
}

/// ADD: signed addition; overflow raises an exception and writes
/// nothing.
pub open spec fn op_add_spec(c: CpuState, rs: u32, rt: u32, rd: u32) -> CpuState {
    let a = c.regs[rs as int] as i32;
    let b = c.regs[rt as int] as i32;
    match i32::checked_add(a, b) {
        Some(v) => CpuState { out_regs: set_reg_spec(c.out_regs, rd, v as u32), ..c },
        None => exception_spec(c, Exception::Overflow),
    }
}

/// AND: bitwise and.
pub open spec fn op_and_spec(c: CpuState, rs: u32, rt: u32, rd: u32) -> CpuState {
    CpuState {
        out_regs: set_reg_spec(c.out_regs, rd, c.regs[rs as int] & c.regs[rt as int]),
        ..c
    }
}

/// SLTU: unsigned set-on-less-than.
pub open spec fn op_sltu_spec(c: CpuState, rs: u32, rt: u32, rd: u32) -> CpuState {
    CpuState {
        out_regs: set_reg_spec(
            c.out_regs,
            rd,
            if c.regs[rs as int] < c.regs[rt as int] {
                1u32
            } else {
                0u32
            },
        ),
        ..c
    }
}

/// ADDU: wrapping addition.
pub open spec fn op_addu_spec(c: CpuState, rs: u32, rt: u32, rd: u32) -> CpuState {
    CpuState {
        out_regs: set_reg_spec(
            c.out_regs,
            rd,
            c.regs[rs as int].wrapping_add(c.regs[rt as int]),
        ),
        ..c
    }
}

/// SUBU: wrapping subtraction.
pub open spec fn op_subu_spec(c: CpuState, rs: u32, rt: u32, rd: u32) -> CpuState {
    CpuState {
        out_regs: set_reg_spec(
            c.out_regs,
            rd,
            c.regs[rs as int].wrapping_sub(c.regs[rt as int]),
        ),
        ..c
    }
}

/// OR: bitwise or.
pub open spec fn op_or_spec(c: CpuState, rs: u32, rt: u32, rd: u32) -> CpuState {
    CpuState {
        out_regs: set_reg_spec(c.out_regs, rd, c.regs[rs as int] | c.regs[rt as int]),
        ..c
    }
}

/// NOR: bitwise nor.
pub open spec fn op_nor_spec(c: CpuState, rs: u32, rt: u32, rd: u32) -> CpuState {
    CpuState {
        out_regs: set_reg_spec(c.out_regs, rd, !(c.regs[rs as int] | c.regs[rt as int])),
        ..c
    }
}

/// SLT: signed set-on-less-than.
pub open spec fn op_slt_spec(c: CpuState, rs: u32, rt: u32, rd: u32) -> CpuState {
    CpuState {
        out_regs: set_reg_spec(
            c.out_regs,
            rd,
            if (c.regs[rs as int] as i32) < (c.regs[rt as int] as i32) {
                1u32
            } else {
                0u32
            },
        ),
        ..c
    }
}

/// MFC0: read a coprocessor-0 register into the load-delay slot.
pub open spec fn op_mfc0_spec(c: CpuState, rt: u32, rd: u32) -> Result<CpuState, EmuError> {
    if rd == 12 {
        Ok(CpuState { load: (rt, c.sr), ..c })
    } else if rd == 13 {
        Ok(CpuState { load: (rt, c.cause), ..c })
    } else if rd == 14 {
        Ok(CpuState { load: (rt, c.epc), ..c })
    } else {
        Err(EmuError::UnhandledCop0Read(rd))
    }
}

/// MTC0: write a coprocessor-0 register.  Only the status register is
/// writable; CAUSE and the breakpoint registers accept zero alone.
pub open spec fn op_mtc0_spec(c: CpuState, rt: u32, rd: u32) -> Result<CpuState, EmuError> {
    let v = c.regs[rt as int];
    if rd == 3 || rd == 5 || rd == 6 || rd == 7 || rd == 9 || rd == 11 {
        if v != 0 {
            Err(EmuError::NonzeroCop0Write(v))
        } else {
            Ok(c)
        }
    } else if rd == 12 {
        Ok(CpuState { sr: v, ..c })
    } else if rd == 13 {
        if v != 0 {
            Err(EmuError::CauseWrite(v))
        } else {
            Ok(c)
        }
    } else {
        Err(EmuError::UnhandledCop0Write(rd))
    }
}

/// RFE: pop the interrupt/kernel stack: status bits 3:0 take the old
/// bits 5:2, and every other bit of the status register is preserved.
/// The word's low bits must spell RFE.
pub open spec fn op_rfe_spec(c: CpuState, data: u32) -> Result<CpuState, EmuError> {
    if data & 0x3f != 0b010000 {
        Err(EmuError::InvalidRfe(data))
    } else {
        Ok(CpuState { sr: (c.sr & 0xfffffff0) | ((c.sr >> 2) & 0xf), ..c })
    }
}

/// J: jump within the current 256 MiB segment.
pub open spec fn op_j_spec(c: CpuState, target: u32) -> CpuState {
    CpuState { next_pc: (target << 2) | (c.pc & 0xf0000000), branch: true, ..c }
}

/// JAL: jump and link through register 31.
pub open spec fn op_jal_spec(c: CpuState, target: u32) -> CpuState {
    CpuState {
        out_regs: set_reg_spec(c.out_regs, 31, c.next_pc),
        next_pc: (target << 2) | (c.pc & 0xf0000000),
        branch: true,
        ..c
    }
}

/// BEQ: branch when equal.
pub open spec fn op_beq_spec(c: CpuState, rs: u32, rt: u32, imm_se: u32) -> CpuState {
    if c.regs[rs as int] == c.regs[rt as int] {
        branch_spec(c, imm_se)
    } else {
        c
    }
}

/// BNE: branch when not equal.
pub open spec fn op_bne_spec(c: CpuState, rs: u32, rt: u32, imm_se: u32) -> CpuState {
    if c.regs[rs as int] != c.regs[rt as int] {
        branch_spec(c, imm_se)
    } else {
        c
    }
}

/// BGTZ: branch when strictly positive (signed).
pub open spec fn op_bgtz_spec(c: CpuState, rs: u32, imm_se: u32) -> CpuState {
    if (c.regs[rs as int] as i32) > 0 {
        branch_spec(c, imm_se)
    } else {
        c
    }
}

/// BLEZ: branch when zero or negative (signed).
pub open spec fn op_blez_spec(c: CpuState, rs: u32, imm_se: u32) -> CpuState {
    if (c.regs[rs as int] as i32) <= 0 {
        branch_spec(c, imm_se)
    } else {
        c
    }
}

/// BLTZ: branch when negative (signed).
pub open spec fn op_bltz_spec(c: CpuState, rs: u32, imm_se: u32) -> CpuState {
    if (c.regs[rs as int] as i32) < 0 {
        branch_spec(c, imm_se)
    } else {
        c
    }
}

/// BGEZ: branch when zero or positive (signed).
pub open spec fn op_bgez_spec(c: CpuState, rs: u32, imm_se: u32) -> CpuState {
    if (c.regs[rs as int] as i32) >= 0 {
        branch_spec(c, imm_se)
    } else {
        c
    }
}

/// BLTZAL: branch when negative, always linking through register 31.
pub open spec fn op_bltzal_spec(c: CpuState, rs: u32, imm_se: u32) -> CpuState {
    let v = c.regs[rs as int];
    let c1 = CpuState { out_regs: set_reg_spec(c.out_regs, 31, c.next_pc), ..c };
    if (v as i32) < 0 {
        branch_spec(c1, imm_se)
    } else {
        c1
    }
}

/// BGEZAL: branch when zero or positive, always linking through
/// register 31.
pub open spec fn op_bgezal_spec(c: CpuState, rs: u32, imm_se: u32) -> CpuState {
    let v = c.regs[rs as int];
    let c1 = CpuState { out_regs: set_reg_spec(c.out_regs, 31, c.next_pc), ..c };
    if (v as i32) >= 0 {
        branch_spec(c1, imm_se)
    } else {
        c1
    }
}

/// ADDI: signed addition of a sign-extended immediate; overflow raises
/// an exception and writes nothing.
pub open spec fn op_addi_spec(c: CpuState, rs: u32, rt: u32, imm_se: u32) -> CpuState {
    let a = c.regs[rs as int] as i32;
    let b = imm_se as i32;
    match i32::checked_add(a, b) {
        Some(v) => CpuState { out_regs: set_reg_spec(c.out_regs, rt, v as u32), ..c },
        None => exception_spec(c, Exception::Overflow),
    }
}

/// ADDIU: wrapping addition of a sign-extended immediate.
pub open spec fn op_addiu_spec(c: CpuState, rs: u32, rt: u32, imm_se: u32) -> CpuState {
    CpuState { out_regs: set_reg_spec(c.out_regs, rt, c.regs[rs as int].wrapping_add(imm_se)), ..c }
}

/// SLTI: signed set-on-less-than against a sign-extended immediate.
pub open spec fn op_slti_spec(c: CpuState, rs: u32, rt: u32, imm_se: u32) -> CpuState {
    CpuState {
        out_regs: set_reg_spec(
            c.out_regs,
            rt,
            if (c.regs[rs as int] as i32) < (imm_se as i32) {
                1u32
            } else {
                0u32
            },
        ),
        ..c
    }
}

/// SLTIU: unsigned set-on-less-than against a sign-extended immediate.
pub open spec fn op_sltiu_spec(c: CpuState, rs: u32, rt: u32, imm_se: u32) -> CpuState {
    CpuState {
        out_regs: set_reg_spec(
            c.out_regs,
            rt,
            if c.regs[rs as int] < imm_se {
                1u32
            } else {
                0u32
            },
        ),
        ..c
    }
}

/// ANDI: bitwise and with a zero-extended immediate.
pub open spec fn op_andi_spec(c: CpuState, rs: u32, rt: u32, imm: u32) -> CpuState {
    CpuState { out_regs: set_reg_spec(c.out_regs, rt, c.regs[rs as int] & imm), ..c }
}

/// ORI: bitwise or with a zero-extended immediate.
pub open spec fn op_ori_spec(c: CpuState, rs: u32, rt: u32, imm: u32) -> CpuState {
    CpuState { out_regs: set_reg_spec(c.out_regs, rt, c.regs[rs as int] | imm), ..c }
}

/// LUI: load the immediate into the upper halfword.
pub open spec fn op_lui_spec(c: CpuState, rt: u32, imm: u32) -> CpuState {
    CpuState { out_regs: set_reg_spec(c.out_regs, rt, imm << 16), ..c }
}

/// LB: load a sign-extended byte into the load-delay slot.  Ignored
/// while the cache is isolated.
pub open spec fn op_lb_spec(c: CpuState, base: u32, rt: u32, offset: u32) -> Result<
    CpuState,
    EmuError,
> {
    if c.sr & 0x10000 != 0 {
        Ok(c)
    } else {
        let addr = c.regs[base as int].wrapping_add(offset);
        match crate::interconnect::load8_spec(c.inter, addr) {
            Ok(v) => Ok(CpuState { load: (rt, ((v as i8) as u32)), ..c }),
            Err(e) => Err(e),
        }
    }
}

/// LBU: load a zero-extended byte into the load-delay slot.  Ignored
/// while the cache is isolated.
pub open spec fn op_lbu_spec(c: CpuState, base: u32, rt: u32, offset: u32) -> Result<
    CpuState,
    EmuError,
> {
    if c.sr & 0x10000 != 0 {
        Ok(c)
    } else {
        let addr = c.regs[base as int].wrapping_add(offset);
        match crate::interconnect::load8_spec(c.inter, addr) {
            Ok(v) => Ok(CpuState { load: (rt, v as u32), ..c }),
            Err(e) => Err(e),
        }
    }
}

/// LH: load a sign-extended halfword into the load-delay slot.  Ignored
/// while the cache is isolated.
pub open spec fn op_lh_spec(c: CpuState, base: u32, rt: u32, offset: u32) -> Result<
    CpuState,
    EmuError,
> {
    if c.sr & 0x10000 != 0 {
        Ok(c)
    } else {
        let addr = c.regs[base as int].wrapping_add(offset);
        match crate::interconnect::load16_spec(c.inter, addr) {
            Ok(v) => Ok(CpuState { load: (rt, ((v as i16) as u32)), ..c }),
            Err(e) => Err(e),
        }
    }
}

/// LHU: load a zero-extended halfword into the load-delay slot.  Ignored
/// while the cache is isolated.
pub open spec fn op_lhu_spec(c: CpuState, base: u32, rt: u32, offset: u32) -> Result<
    CpuState,
    EmuError,
> {
    if c.sr & 0x10000 != 0 {
        Ok(c)
    } else {
        let addr = c.regs[base as int].wrapping_add(offset);
        match crate::interconnect::load16_spec(c.inter, addr) {
            Ok(v) => Ok(CpuState { load: (rt, v as u32), ..c }),
            Err(e) => Err(e),
        }
    }
}

/// LW: load a word into the load-delay slot; a misaligned address
/// raises a load-address exception.  Ignored while the cache is
/// isolated.
pub open spec fn op_lw_spec(c: CpuState, base: u32, rt: u32, offset: u32) -> Result<
    CpuState,
    EmuError,
> {
    if c.sr & 0x10000 != 0 {
        Ok(c)
    } else {
        let addr = c.regs[base as int].wrapping_add(offset);
        if addr % 4 == 0 {
            match crate::interconnect::load32_spec(c.inter, addr) {
                Ok(v) => Ok(CpuState { load: (rt, v), ..c }),
                Err(e) => Err(e),
            }
        } else {
            Ok(exception_spec(c, Exception::LoadAddressError))
        }
    }
}

/// SB: store the low byte of `rt`.  Ignored while the cache is isolated.
pub open spec fn op_sb_spec(c: CpuState, base: u32, rt: u32, offset: u32) -> Result<
    CpuState,
    EmuError,
> {
    if c.sr & 0x10000 != 0 {
        Ok(c)
    } else {
        let addr = c.regs[base as int].wrapping_add(offset);
        match crate::interconnect::store8_spec(c.inter, addr, c.regs[rt as int] as u8) {
            Ok(i) => Ok(CpuState { inter: i, ..c }),
            Err(e) => Err(e),
        }
    }
}

/// SH: store the low halfword of `rt`; a misaligned address raises a
/// store-address exception.  Ignored while the cache is isolated.
pub open spec fn op_sh_spec(c: CpuState, base: u32, rt: u32, offset: u32) -> Result<
    CpuState,
    EmuError,
> {
    if c.sr & 0x10000 != 0 {
        Ok(c)
    } else {
        let addr = c.regs[base as int].wrapping_add(offset);
        if addr % 2 == 0 {
            match crate::interconnect::store16_spec(c.inter, addr, c.regs[rt as int] as u16) {
                Ok(i) => Ok(CpuState { inter: i, ..c }),
                Err(e) => Err(e),
            }
        } else {
            Ok(exception_spec(c, Exception::StoreAddressError))
        }
    }
}

/// SW: store the word in `rt`; a misaligned address raises a
/// store-address exception.  Ignored while the cache is isolated.
pub open spec fn op_sw_spec(c: CpuState, base: u32, rt: u32, offset: u32) -> Result<
    CpuState,
    EmuError,
> {
    if c.sr & 0x10000 != 0 {
        Ok(c)
    } else {
        let addr = c.regs[base as int].wrapping_add(offset);
        if addr % 4 == 0 {
            match crate::interconnect::store32_spec(c.inter, addr, c.regs[rt as int]) {
                Ok(i) => Ok(CpuState { inter: i, ..c }),
                Err(e) => Err(e),
            }
        } else {
            Ok(exception_spec(c, Exception::StoreAddressError))
        }
    }
}

/// Dispatch of SPECIAL (opcode 0) instructions on their sub-opcode.
pub open spec fn special_spec(c: CpuState, ins: Instruction) -> Result<CpuState, EmuError> {
    let rs = ins.rs();
    let rt = ins.rt();
    let rd = ins.rd();
    let sa = ins.sa();
    let sub = ins.special_opcode();
    if sub == 0b000000 {
        Ok(op_sll_spec(c, sa, rt, rd))
    } else if sub == 0b000010 {
        Ok(op_srl_spec(c, sa, rt, rd))
    } else if sub == 0b000011 {
        Ok(op_sra_spec(c, sa, rt, rd))
    } else if sub == 0b000100 {
        Ok(op_sllv_spec(c, rs, rt, rd))
    } else if sub == 0b000110 {
        Ok(op_srlv_spec(c, rs, rt, rd))
    } else if sub == 0b000111 {
        Ok(op_srav_spec(c, rs, rt, rd))
    } else if sub == 0b001000 {
        Ok(op_jr_spec(c, rs))
    } else if sub == 0b001001 {
        Ok(op_jalr_spec(c, rs, rd))
    } else if sub == 0b001100 {
        Ok(exception_spec(c, Exception::SysCall))
    } else if sub == 0b010000 {
        Ok(op_mfhi_spec(c, rd))
    } else if sub == 0b010001 {
        Ok(op_mthi_spec(c, rs))
    } else if sub == 0b010010 {
        Ok(op_mflo_spec(c, rd))
    } else if sub == 0b010011 {
        Ok(op_mtlo_spec(c, rs))
    } else if sub == 0b011001 {
        Ok(op_multu_spec(c, rs, rt))
    } else if sub == 0b011010 {
        Ok(op_div_spec(c, rs, rt))
    } else if sub == 0b011011 {
        Ok(op_divu_spec(c, rs, rt))
    } else if sub == 0b100000 {
        Ok(op_add_spec(c, rs, rt, rd))
    } else if sub == 0b100100 {
        Ok(op_and_spec(c, rs, rt, rd))
    } else if sub == 0b101011 {
        Ok(op_sltu_spec(c, rs, rt, rd))
    } else if sub == 0b100001 {
        Ok(op_addu_spec(c, rs, rt, rd))
    } else if sub == 0b100011 {
        Ok(op_subu_spec(c, rs, rt, rd))
    } else if sub == 0b100101 {
        Ok(op_or_spec(c, rs, rt, rd))
    } else if sub == 0b100111 {
        Ok(op_nor_spec(c, rs, rt, rd))
    } else if sub == 0b101010 {
        Ok(op_slt_spec(c, rs, rt, rd))
    } else {
        Err(EmuError::UnhandledInstruction(ins.data))
    }
}

/// Dispatch of REGIMM (opcode 1) branches on their condition field.
pub open spec fn regimm_spec(c: CpuState, ins: Instruction) -> Result<CpuState, EmuError> {
    let rs = ins.rs();
    let imm_se = ins.imm_se();
    let cond = ins.regimm_condition();
    if cond == 0b00000 {
        Ok(op_bltz_spec(c, rs, imm_se))
    } else if cond == 0b00001 {
        Ok(op_bgez_spec(c, rs, imm_se))
    } else if cond == 0b10000 {
        Ok(op_bltzal_spec(c, rs, imm_se))
    } else if cond == 0b10001 {
        Ok(op_bgezal_spec(c, rs, imm_se))
    } else {
        Err(EmuError::UnhandledInstruction(ins.data))
    }
}

/// Dispatch of COP0 (opcode 0x10) instructions on the coprocessor
/// sub-opcode.
pub open spec fn cop0_spec(c: CpuState, ins: Instruction) -> Result<CpuState, EmuError> {
    let cop = ins.cop_opcode();
    if cop == 0b000000 {
        op_mfc0_spec(c, ins.rt(), ins.rd())
    } else if cop == 0b000100 {
        op_mtc0_spec(c, ins.rt(), ins.rd())
    } else if cop == 0b010000 {
        op_rfe_spec(c, ins.data)
    } else {
        Err(EmuError::UnhandledInstruction(ins.data))
    }
}

/// Decode and execute one instruction word against the machine state.
pub open spec fn decode_execute_spec(c: CpuState, ins: Instruction) -> Result<CpuState, EmuError> {
    let op = ins.opcode();
    if op == 0b000000 {
        special_spec(c, ins)
    } else if op == 0b000001 {
        regimm_spec(c, ins)
    } else if op == 0b010000 {
        cop0_spec(c, ins)
    } else if op == 0b000010 {
        Ok(op_j_spec(c, ins.target()))
    } else if op == 0b000011 {
        Ok(op_jal_spec(c, ins.target()))
    } else if op == 0b000100 {
        Ok(op_beq_spec(c, ins.rs(), ins.rt(), ins.imm_se()))
    } else if op == 0b000101 {
        Ok(op_bne_spec(c, ins.rs(), ins.rt(), ins.imm_se()))
    } else if op == 0b000110 {
        Ok(op_blez_spec(c, ins.rs(), ins.imm_se()))
    } else if op == 0b000111 {
        Ok(op_bgtz_spec(c, ins.rs(), ins.imm_se()))
    } else if op == 0b001000 {
        Ok(op_addi_spec(c, ins.rs(), ins.rt(), ins.imm_se()))
    } else if op == 0b001001 {
        Ok(op_addiu_spec(c, ins.rs(), ins.rt(), ins.imm_se()))
    } else if op == 0b001010 {
        Ok(op_slti_spec(c, ins.rs(), ins.rt(), ins.imm_se()))
    } else if op == 0b001011 {
        Ok(op_sltiu_spec(c, ins.rs(), ins.rt(), ins.imm_se()))
    } else if op == 0b001100 {
        Ok(op_andi_spec(c, ins.rs(), ins.rt(), ins.imm()))
    } else if op == 0b001101 {
        Ok(op_ori_spec(c, ins.rs(), ins.rt(), ins.imm()))
    } else if op == 0b001111 {
        Ok(op_lui_spec(c, ins.rt(), ins.imm()))
    } else if op == 0b100000 {
        op_lb_spec(c, ins.rs(), ins.rt(), ins.imm_se())
    } else if op == 0b100001 {
        op_lh_spec(c, ins.rs(), ins.rt(), ins.imm_se())
    } else if op == 0b100011 {
        op_lw_spec(c, ins.rs(), ins.rt(), ins.imm_se())
    } else if op == 0b100100 {
        op_lbu_spec(c, ins.rs(), ins.rt(), ins.imm_se())
    } else if op == 0b100101 {
        op_lhu_spec(c, ins.rs(), ins.rt(), ins.imm_se())
    } else if op == 0b101000 {
        op_sb_spec(c, ins.rs(), ins.rt(), ins.imm_se())
    } else if op == 0b101001 {
        op_sh_spec(c, ins.rs(), ins.rt(), ins.imm_se())
    } else if op == 0b101011 {
        op_sw_spec(c, ins.rs(), ins.rt(), ins.imm_se())
    } else {
        Err(EmuError::UnhandledInstruction(ins.data))
    }
}

/// The pipeline bookkeeping of a step whose fetch succeeded: the
/// faulting-address register records the fetch address, the
/// program-counter pair advances, the pending load lands in the shadow
/// file, and the branch flag becomes the delay-slot flag.
pub open spec fn pipeline_spec(c: CpuState) -> CpuState {
    CpuState {
        current_pc: c.pc,
        pc: c.next_pc,
        next_pc: c.next_pc.wrapping_add(4),
        out_regs: set_reg_spec(c.out_regs, c.load.0, c.load.1),
        load: (0u32, 0u32),
        delay_slot: c.branch,
        branch: false,
        ..c
    }
}

/// One whole CPU step: check the fetch address, fetch, advance the
/// program-counter pair, resolve the pending load, promote the branch
/// flag to the delay-slot flag, execute, and commit the shadow register
/// file.
pub open spec fn step_spec(c: CpuState) -> Result<CpuState, EmuError> {
    if c.pc % 4 != 0 {
        Ok(exception_spec((CpuState { current_pc: c.pc, ..c }), Exception::LoadAddressError))
    } else {
        match crate::interconnect::load32_spec(c.inter, c.pc) {
            Err(e) => Err(e),
            Ok(word) => match decode_execute_spec(pipeline_spec(c), Instruction { data: word }) {
                Err(e) => Err(e),
                Ok(c5) => Ok(CpuState { regs: c5.out_regs, ..c5 }),
            },
        }
    }
}

/// The power-on state of the CPU: execution starts at the BIOS entry
/// point, uninitialized registers hold a recognizable garbage value.
pub open spec fn cpu_power_on(i: InterState) -> CpuState {
    CpuState {
        pc: 0xbfc00000u32,
        next_pc: 0xbfc00004u32,
        regs: Seq::new(
            32,
            |k: int|
                if k == 0 {
                    0u32
                } else {
                    0xdeadbeefu32
                },
        ),
        out_regs: Seq::new(
            32,
            |k: int|
                if k == 0 {
                    0u32
                } else {
                    0xdeadbeefu32
                },
        ),
        inter: i,
        sr: 0,
        load: (0u32, 0u32),
        hi: 0xdeadbeefu32,
        lo: 0xdeadbeefu32,
        current_pc: 0xdeadbeefu32,
        cause: 0xdeadbeefu32,
        epc: 0xdeadbeefu32,
        branch: false,
        delay_slot: false,
    }
}

/// The CPU: the register files, the pipeline state, and the interconnect
/// it drives.
pub struct Cpu {
    pub pc: u32,
    pub next_pc: u32,
    pub regs: Vec<u32>,
    pub inter: Interconnect,
    pub out_regs: Vec<u32>,
    pub sr: u32,
    pub load: (u32, u32),
    pub hi: u32,
    pub lo: u32,
    pub current_pc: u32,
    pub cause: u32,
    pub epc: u32,
    pub branch: bool,
    pub delay_slot: bool,
}

impl View for Cpu {
    type V = CpuState;

    open spec fn view(&self) -> CpuState {
        CpuState {
            pc: self.pc,
            next_pc: self.next_pc,
            regs: self.regs@,
            out_regs: self.out_regs@,
            inter: self.inter@,
            sr: self.sr,
            load: self.load,
            hi: self.hi,
            lo: self.lo,
            current_pc: self.current_pc,
            cause: self.cause,
            epc: self.epc,
            branch: self.branch,
            delay_slot: self.delay_slot,
        }
    }
}

impl Cpu {
    /// The CPU invariant together with the well-formedness of every
    /// device behind the interconnect.
    pub open spec fn wf(&self) -> bool {
        cpu_inv(self@) && self.inter.wf()
    }

    /// Power-on state over the given interconnect.
    pub fn new(inter: Interconnect) -> (r: Cpu)
        requires
            inter.wf(),
        ensures
            r.wf(),
            r@ == cpu_power_on(inter@),
    {
        let mut regs: Vec<u32> = Vec::new();
        let mut n: usize = 0;
        while n < 32
            invariant
                n == regs@.len(),
                n <= 32,
                forall|i: int|
                    0 <= i < n ==> regs@[i] == (if i == 0 {
                        0u32
                    } else {
                        0xdeadbeefu32
                    }),
            decreases 32 - n,
        {
            if n == 0 {
                regs.push(0);
            } else {
                regs.push(0xdeadbeef);
            }
            n = n + 1;
        }

        let mut out_regs: Vec<u32> = Vec::new();
        let mut n2: usize = 0;
        while n2 < 32
            invariant
                n2 == out_regs@.len(),
                n2 <= 32,
                forall|i: int|
                    0 <= i < n2 ==> out_regs@[i] == (if i == 0 {
                        0u32
                    } else {
                        0xdeadbeefu32
                    }),
            decreases 32 - n2,
        {
            if n2 == 0 {
                out_regs.push(0);
            } else {
                out_regs.push(0xdeadbeef);
            }
            n2 = n2 + 1;
        }

        let r = Cpu {
            pc: 0xbfc00000,
            next_pc: 0xbfc00004,
            regs,
            inter,
            out_regs,
            sr: 0,
            load: (0, 0),
            hi: 0xdeadbeef,
            lo: 0xdeadbeef,
            current_pc: 0xdeadbeef,
            cause: 0xdeadbeef,
            epc: 0xdeadbeef,
            branch: false,
            delay_slot: false,
        };
        proof {
            assert(r@.regs =~= cpu_power_on(inter@).regs);
            assert(r@.out_regs =~= cpu_power_on(inter@).out_regs);
        }
        r
    }

    /// Reads a general-purpose register; register 0 always reads zero.
    pub fn reg(&self, index: u32) -> (r: u32)
        requires
            self.wf(),
            index < 32,
        ensures
            r == self@.regs[index as int],
            index == 0 ==> r == 0,
    {
        self.regs[index as usize]
    }

    /// Writes a general-purpose register in the shadow file; a write to
    /// register 0 is discarded.
    pub fn set_reg(&mut self, index: u32, value: u32)
        requires
            old(self).wf(),
            index < 32,
        ensures
            final(self).wf(),
            final(self)@ == (CpuState {
                out_regs: set_reg_spec(old(self)@.out_regs, index, value),
                ..old(self)@
            }),
    {
        self.out_regs.set(index as usize, value);
        self.out_regs.set(0, 0);
    }

    /// Copies the shadow register file over the main file, making the
    /// instruction's writes architecturally visible.
    fn commit_regs(&mut self)
        requires
            old(self).wf(),
        ensures
            final(self).wf(),
            final(self)@ == (CpuState { regs: old(self)@.out_regs, ..old(self)@ }),
    {
        let mut i: usize = 0;
        while i < 32
            invariant
                old(self).wf(),
                i <= 32,
                self.regs@.len() == 32,
                self.out_regs@ == old(self)@.out_regs,
                forall|k: int| 0 <= k < i ==> self.regs@[k] == self.out_regs@[k],
                self.pc == old(self).pc,
                self.next_pc == old(self).next_pc,
                self.inter@ == old(self)@.inter,
                self.sr == old(self).sr,
                self.load == old(self).load,
                self.hi == old(self).hi,
                self.lo == old(self).lo,
                self.current_pc == old(self).current_pc,
                self.cause == old(self).cause,
                self.epc == old(self).epc,
                self.branch == old(self).branch,
                self.delay_slot == old(self).delay_slot,
            decreases 32 - i,
        {
            let v = self.out_regs[i];
            self.regs.set(i, v);
            i = i + 1;
        }
        proof {
            assert(self.regs@ =~= old(self)@.out_regs);
        }
    }

    /// Loads a byte through the interconnect.
    fn load8(&self, addr: u32) -> (r: Result<u8, EmuError>)
        requires
            self.wf(),
        ensures
            r == crate::interconnect::load8_spec(self@.inter, addr),
    {
        self.inter.load8(addr)
    }

    /// Stores a byte through the interconnect.
    fn store8(&mut self, addr: u32, value: u8) -> (r: Result<(), EmuError>)
        requires
            old(self).wf(),
        ensures
            final(self).wf(),
            match r {
                Ok(()) => crate::interconnect::store8_spec(old(self)@.inter, addr, value) == Ok::<
                    InterState,
                    EmuError,
                >(final(self)@.inter) && final(self)@ == (CpuState {
                    inter: final(self)@.inter,
                    ..old(self)@
                }),
                Err(e) => crate::interconnect::store8_spec(old(self)@.inter, addr, value) == Err::<
                    InterState,
                    EmuError,
                >(e) && final(self)@ == old(self)@,
            },
    {
        self.inter.store8(addr, value)
    }

    /// Loads a halfword through the interconnect.
    fn load16(&self, addr: u32) -> (r: Result<u16, EmuError>)
        requires
            self.wf(),
        ensures
            r == crate::interconnect::load16_spec(self@.inter, addr),
    {
        self.inter.load16(addr)
    }

    /// Stores a halfword through the interconnect.
    fn store16(&mut self, addr: u32, value: u16) -> (r: Result<(), EmuError>)
        requires
            old(self).wf(),
        ensures
            final(self).wf(),
            match r {
                Ok(()) => crate::interconnect::store16_spec(old(self)@.inter, addr, value) == Ok::<
                    InterState,
                    EmuError,
                >(final(self)@.inter) && final(self)@ == (CpuState {
                    inter: final(self)@.inter,
                    ..old(self)@
                }),
                Err(e) => crate::interconnect::store16_spec(old(self)@.inter, addr, value)
                    == Err::<InterState, EmuError>(e) && final(self)@ == old(self)@,
            },
    {
        self.inter.store16(addr, value)
    }

    /// Loads a word through the interconnect.
    fn load32(&self, addr: u32) -> (r: Result<u32, EmuError>)
        requires
            self.wf(),
        ensures
            r == crate::interconnect::load32_spec(self@.inter, addr),
    {
        self.inter.load32(addr)
    }

    /// Stores a word through the interconnect.
    fn store32(&mut self, addr: u32, value: u32) -> (r: Result<(), EmuError>)
        requires
            old(self).wf(),
        ensures
            final(self).wf(),
            match r {
                Ok(()) => crate::interconnect::store32_spec(old(self)@.inter, addr, value) == Ok::<
                    InterState,
                    EmuError,
                >(final(self)@.inter) && final(self)@ == (CpuState {
                    inter: final(self)@.inter,
                    ..old(self)@
                }),
                Err(e) => crate::interconnect::store32_spec(old(self)@.inter, addr, value)
                    == Err::<InterState, EmuError>(e) && final(self)@ == (CpuState {
                    inter: final(self)@.inter,
                    ..old(self)@
                }) && final(self)@.inter.ram == old(self)@.inter.ram && final(self)@.inter.bios
                    == old(self)@.inter.bios,
            },
    {
        self.inter.store32(addr, value)
    }

    /// Enters an exception: saves state into the coprocessor-0 registers
    /// and jumps to the handler.  The in-flight instruction is abandoned.
    pub fn exception(&mut self, cause: Exception)
        requires
            old(self).wf(),
        ensures
            final(self).wf(),
            final(self)@ == exception_spec(old(self)@, cause),
    {
        let handler: u32 = if self.sr & 0x400000 != 0 {
            0xbfc00180
        } else {
            0x80000080
        };

        let mode = self.sr & 0x3f;
        self.sr = (self.sr & 0xffffffc0) | ((mode << 2) & 0x3f);

        let code: u32 = match cause {
            Exception::LoadAddressError => 0x4,
            Exception::StoreAddressError => 0x5,
            Exception::SysCall => 0x8,
            Exception::Overflow => 0xc,
        };
        self.cause = code << 2;
        self.epc = self.current_pc;

        if self.delay_slot {
            self.epc = self.epc.wrapping_sub(4);
            self.cause = self.cause | 0x80000000u32;
        }

        self.pc = handler;
        self.next_pc = self.pc.wrapping_add(4);
    }

    /// A taken branch: adds the displacement to the delay slot's address.
    pub fn branch(&mut self, offset: u32)
        requires
            old(self).wf(),
        ensures
            final(self).wf(),
            final(self)@ == branch_spec(old(self)@, offset),
    {
        let offset = offset << 2;

        self.next_pc = self.pc.wrapping_add(offset);

        self.branch = true;
    }

    /// SLL: shift left logical by a constant.
    pub fn op_sll(&mut self, sa: u32, rt: u32, rd: u32)
        requires
            old(self).wf(),
            sa < 32,
            rt < 32,
            rd < 32,
        ensures
            final(self).wf(),
            final(self)@ == op_sll_spec(old(self)@, sa, rt, rd),
    {
        let res = self.reg(rt) << sa;

        self.set_reg(rd, res);
    }

    /// SRL: shift right logical by a constant.
    pub fn op_srl(&mut self, sa: u32, rt: u32, rd: u32)
        requires
            old(self).wf(),
            sa < 32,
            rt < 32,
            rd < 32,
        ensures
            final(self).wf(),
            final(self)@ == op_srl_spec(old(self)@, sa, rt, rd),
    {
        let res = self.reg(rt) >> sa;

        self.set_reg(rd, res);
    }

    /// SRA: shift right arithmetic by a constant.
    pub fn op_sra(&mut self, sa: u32, rt: u32, rd: u32)
        requires
            old(self).wf(),
            sa < 32,
            rt < 32,
            rd < 32,
        ensures
            final(self).wf(),
            final(self)@ == op_sra_spec(old(self)@, sa, rt, rd),
    {
        let res = (self.reg(rt) as i32) >> sa;

        self.set_reg(rd, res as u32);
    }

    /// SLLV: shift left logical by the low five bits of `rs`.
    pub fn op_sllv(&mut self, rs: u32, rt: u32, rd: u32)
        requires
            old(self).wf(),
            rs < 32,
            rt < 32,
            rd < 32,
        ensures
            final(self).wf(),
            final(self)@ == op_sllv_spec(old(self)@, rs, rt, rd),
    {
        let value = self.reg(rs);
        let amount = value & 0x1f;
        proof {
            lemma_shift_amount(value);
        }
        let res = self.reg(rt) << amount;

        self.set_reg(rd, res);
    }

    /// SRAV: shift right arithmetic by the low five bits of `rs`.
    pub fn op_srav(&mut self, rs: u32, rt: u32, rd: u32)
        requires
            old(self).wf(),
            rs < 32,
            rt < 32,
            rd < 32,
        ensures
            final(self).wf(),
            final(self)@ == op_srav_spec(old(self)@, rs, rt, rd),
    {
        let value = self.reg(rs);
        let amount = value & 0x1f;
        proof {
            lemma_shift_amount(value);
        }
        let res = (self.reg(rt) as i32) >> amount;

        self.set_reg(rd, res as u32);
    }

    /// SRLV: shift right logical by the low five bits of `rs`.
    pub fn op_srlv(&mut self, rs: u32, rt: u32, rd: u32)
        requires
            old(self).wf(),
            rs < 32,
            rt < 32,
            rd < 32,
        ensures
            final(self).wf(),
            final(self)@ == op_srlv_spec(old(self)@, rs, rt, rd),
    {
        let value = self.reg(rs);
        let amount = value & 0x1f;
        proof {
            lemma_shift_amount(value);
        }
        let res = self.reg(rt) >> amount;

        self.set_reg(rd, res);
    }

    /// JR: jump to the address in `rs`.
    pub fn op_jr(&mut self, rs: u32)
        requires
            old(self).wf(),
            rs < 32,
        ensures
            final(self).wf(),
            final(self)@ == op_jr_spec(old(self)@, rs),
    {
        self.next_pc = self.reg(rs);

        self.branch = true;
    }

    /// JALR: jump to the address in `rs`, leaving the return address in
    /// `rd`.
    pub fn op_jalr(&mut self, rs: u32, rd: u32)
        requires
            old(self).wf(),
            rs < 32,
            rd < 32,
        ensures
            final(self).wf(),
            final(self)@ == op_jalr_spec(old(self)@, rs, rd),
    {
        let pc = self.next_pc;
        self.set_reg(rd, pc);
        self.next_pc = self.reg(rs);

        self.branch = true;
    }

    /// SYSCALL: raise the system-call exception.
    pub fn op_syscall(&mut self)
        requires
            old(self).wf(),
        ensures
            final(self).wf(),
            final(self)@ == exception_spec(old(self)@, Exception::SysCall),
    {
        self.exception(Exception::SysCall);
    }

    /// MFHI: read HI into `rd`.
    pub fn op_mfhi(&mut self, rd: u32)
        requires
            old(self).wf(),
            rd < 32,
        ensures
            final(self).wf(),
            final(self)@ == op_mfhi_spec(old(self)@, rd),
    {
        let hi = self.hi;
        self.set_reg(rd, hi);
    }

    /// MTHI: write HI from `rs`.
    pub fn op_mthi(&mut self, rs: u32)
        requires
            old(self).wf(),
            rs < 32,
        ensures
            final(self).wf(),
            final(self)@ == op_mthi_spec(old(self)@, rs),
    {
        self.hi = self.reg(rs);
    }

    /// MFLO: read LO into `rd`.
    pub fn op_mflo(&mut self, rd: u32)
        requires
            old(self).wf(),
            rd < 32,
        ensures
            final(self).wf(),
            final(self)@ == op_mflo_spec(old(self)@, rd),
    {
        let lo = self.lo;
        self.set_reg(rd, lo);
    }

    /// MTLO: write LO from `rs`.
    pub fn op_mtlo(&mut self, rs: u32)
        requires
            old(self).wf(),
            rs < 32,
        ensures
            final(self).wf(),
            final(self)@ == op_mtlo_spec(old(self)@, rs),
    {
        self.lo = self.reg(rs);
    }

    /// MULTU: unsigned multiply into HI:LO.
    pub fn op_multu(&mut self, rs: u32, rt: u32)
        requires
            old(self).wf(),
            rs < 32,
            rt < 32,
        ensures
            final(self).wf(),
            final(self)@ == op_multu_spec(old(self)@, rs, rt),
    {
        let a = self.reg(rs) as u64;
        let b = self.reg(rt) as u64;

        proof {
            assert(a * b <= 0xffffffffu64 * 0xffffffffu64) by (nonlinear_arith)
                requires
                    a <= 0xffffffffu64,
                    b <= 0xffffffffu64,
            ;
        }
        let res = a * b;

        self.hi = (res >> 32) as u32;
        self.lo = res as u32;
    }

    /// DIV: signed division into HI and LO.
    pub fn op_div(&mut self, rs: u32, rt: u32)
        requires
            old(self).wf(),
            rs < 32,
            rt < 32,
        ensures
            final(self).wf(),
            final(self)@ == op_div_spec(old(self)@, rs, rt),
    {
        let nu = self.reg(rs);
        let n = nu as i32;
        let d = self.reg(rt) as i32;

        proof {
            assert((nu as i32) as u32 == nu && (((nu as i32) == i32::MIN) <==> (nu
                == 0x80000000u32))) by (bit_vector);
        }

        if d == 0 {
            self.hi = n as u32;

            if n >= 0 {
                self.lo = 0xffffffff;
            } else {
                self.lo = 1;
            }
        } else if nu == 0x80000000 && d == -1 {
            self.hi = 0;
            self.lo = 0x80000000;
        } else {
            proof {
                lemma_div_in_range(n, d);
            }
            if let Some(r) = n.checked_rem(d) {
                self.hi = r as u32;
            }
            if let Some(q) = n.checked_div(d) {
                self.lo = q as u32;
            }
        }
    }

    /// DIVU: unsigned division into HI and LO.
    pub fn op_divu(&mut self, rs: u32, rt: u32)
        requires
            old(self).wf(),
            rs < 32,
            rt < 32,
        ensures
            final(self).wf(),
            final(self)@ == op_divu_spec(old(self)@, rs, rt),
    {
        let n = self.reg(rs);
        let d = self.reg(rt);

        if d == 0 {
            self.hi = n;
            self.lo = 0xffffffff;
        } else {
            self.hi = n % d;
            self.lo = n / d;
        }
    }

    /// ADD: signed addition; overflow raises an exception.
    pub fn op_add(&mut self, rs: u32, rt: u32, rd: u32)
        requires
            old(self).wf(),
            rs < 32,
            rt < 32,
            rd < 32,
        ensures
            final(self).wf(),
            final(self)@ == op_add_spec(old(self)@, rs, rt, rd),
    {
        let lhs = self.reg(rs) as i32;
        let rhs = self.reg(rt) as i32;

        match lhs.checked_add(rhs) {
            Some(res) => self.set_reg(rd, res as u32),
            None => self.exception(Exception::Overflow),
        };
    }

    /// AND: bitwise and.
    pub fn op_and(&mut self, rs: u32, rt: u32, rd: u32)
        requires
            old(self).wf(),
            rs < 32,
            rt < 32,
            rd < 32,
        ensures
            final(self).wf(),
            final(self)@ == op_and_spec(old(self)@, rs, rt, rd),
    {
        let res = self.reg(rs) & self.reg(rt);

        self.set_reg(rd, res);
    }

    /// SLTU: unsigned set-on-less-than.
    pub fn op_sltu(&mut self, rs: u32, rt: u32, rd: u32)
        requires
            old(self).wf(),
            rs < 32,
            rt < 32,
            rd < 32,
        ensures
            final(self).wf(),
            final(self)@ == op_sltu_spec(old(self)@, rs, rt, rd),
    {
        let res: u32 = if self.reg(rs) < self.reg(rt) {
            1
        } else {
            0
        };

        self.set_reg(rd, res);
    }

    /// ADDU: wrapping addition.
    pub fn op_addu(&mut self, rs: u32, rt: u32, rd: u32)
        requires
            old(self).wf(),
            rs < 32,
            rt < 32,
            rd < 32,
        ensures
            final(self).wf(),
            final(self)@ == op_addu_spec(old(self)@, rs, rt, rd),
    {
        let res = self.reg(rs).wrapping_add(self.reg(rt));

        self.set_reg(rd, res);
    }

    /// SUBU: wrapping subtraction.
    pub fn op_subu(&mut self, rs: u32, rt: u32, rd: u32)
        requires
            old(self).wf(),
            rs < 32,
            rt < 32,
            rd < 32,
        ensures
            final(self).wf(),
            final(self)@ == op_subu_spec(old(self)@, rs, rt, rd),
    {
        let res = self.reg(rs).wrapping_sub(self.reg(rt));

        self.set_reg(rd, res);
    }

    /// MFC0: read a coprocessor-0 register into the load-delay slot.
    pub fn op_mfc0(&mut self, rt: u32, rd: u32) -> (r: Result<(), EmuError>)
        requires
            old(self).wf(),
            rt < 32,
        ensures
            final(self).wf(),
            match r {
                Ok(()) => op_mfc0_spec(old(self)@, rt, rd) == Ok::<CpuState, EmuError>(
                    final(self)@,
                ),
                Err(e) => op_mfc0_spec(old(self)@, rt, rd) == Err::<CpuState, EmuError>(e) && final(self)@ == old(self)@,
            },
    {
        let value = if rd == 12 {
            self.sr
        } else if rd == 13 {
            self.cause
        } else if rd == 14 {
            self.epc
        } else {
            return Err(EmuError::UnhandledCop0Read(rd));
        };

        self.load = (rt, value);
        Ok(())
    }

    /// MTC0: write a coprocessor-0 register.
    pub fn op_mtc0(&mut self, rt: u32, rd: u32) -> (r: Result<(), EmuError>)
        requires
            old(self).wf(),
            rt < 32,
        ensures
            final(self).wf(),
            match r {
                Ok(()) => op_mtc0_spec(old(self)@, rt, rd) == Ok::<CpuState, EmuError>(
                    final(self)@,
                ),
                Err(e) => op_mtc0_spec(old(self)@, rt, rd) == Err::<CpuState, EmuError>(e) && final(self)@ == old(self)@,
            },
    {
        let res = self.reg(rt);

        if rd == 3 || rd == 5 || rd == 6 || rd == 7 || rd == 9 || rd == 11 {
            if res != 0 {
                return Err(EmuError::NonzeroCop0Write(res));
            }
        } else if rd == 12 {
            self.sr = res;
        } else if rd == 13 {
            if res != 0 {
                return Err(EmuError::CauseWrite(res));
            }
        } else {
            return Err(EmuError::UnhandledCop0Write(rd));
        }
        Ok(())
    }

    /// RFE: return from exception, popping the interrupt/kernel stack.
    pub fn op_rfe(&mut self, data: u32) -> (r: Result<(), EmuError>)
        requires
            old(self).wf(),
        ensures
            final(self).wf(),
            match r {
                Ok(()) => op_rfe_spec(old(self)@, data) == Ok::<CpuState, EmuError>(final(self)@),
                Err(e) => op_rfe_spec(old(self)@, data) == Err::<CpuState, EmuError>(e) && final(self)@ == old(self)@,
            },
    {
        if data & 0x3f != 0b010000 {
            return Err(EmuError::InvalidRfe(data));
        }

        self.sr = (self.sr & 0xfffffff0) | ((self.sr >> 2) & 0xf);
        Ok(())
    }

    /// OR: bitwise or.
    pub fn op_or(&mut self, rs: u32, rt: u32, rd: u32)
        requires
            old(self).wf(),
            rs < 32,
            rt < 32,
            rd < 32,
        ensures
            final(self).wf(),
            final(self)@ == op_or_spec(old(self)@, rs, rt, rd),
    {
        let res = self.reg(rs) | self.reg(rt);

        self.set_reg(rd, res);
    }

    /// NOR: bitwise nor.
    pub fn op_nor(&mut self, rs: u32, rt: u32, rd: u32)
        requires
            old(self).wf(),
            rs < 32,
            rt < 32,
            rd < 32,
        ensures
            final(self).wf(),
            final(self)@ == op_nor_spec(old(self)@, rs, rt, rd),
    {
        let res = !(self.reg(rs) | self.reg(rt));

        self.set_reg(rd, res);
    }

    /// SLT: signed set-on-less-than.
    pub fn op_slt(&mut self, rs: u32, rt: u32, rd: u32)
        requires
            old(self).wf(),
            rs < 32,
            rt < 32,
            rd < 32,
        ensures
            final(self).wf(),
            final(self)@ == op_slt_spec(old(self)@, rs, rt, rd),
    {
        let res: u32 = if (self.reg(rs) as i32) < (self.reg(rt) as i32) {
            1
        } else {
            0
        };

        self.set_reg(rd, res);
    }

    /// J: jump within the current 256 MiB segment.
    pub fn op_j(&mut self, target: u32)
        requires
            old(self).wf(),
        ensures
            final(self).wf(),
            final(self)@ == op_j_spec(old(self)@, target),
    {
        self.next_pc = (target << 2) | (self.pc & 0xf0000000);

        self.branch = true;
    }

    /// JAL: jump and link through register 31.
    pub fn op_jal(&mut self, target: u32)
        requires
            old(self).wf(),
        ensures
            final(self).wf(),
            final(self)@ == op_jal_spec(old(self)@, target),
    {
        let pc = self.next_pc;

        self.next_pc = (target << 2) | (self.pc & 0xf0000000);

        self.set_reg(31, pc);

        self.branch = true;
    }

    /// BEQ: branch when equal.
    pub fn op_beq(&mut self, rs: u32, rt: u32, imm_se: u32)
        requires
            old(self).wf(),
            rs < 32,
            rt < 32,
        ensures
            final(self).wf(),
            final(self)@ == op_beq_spec(old(self)@, rs, rt, imm_se),
    {
        if self.reg(rs) == self.reg(rt) {
            self.branch(imm_se);
        }
    }

    /// BNE: branch when not equal.
    pub fn op_bne(&mut self, rs: u32, rt: u32, imm_se: u32)
        requires
            old(self).wf(),
            rs < 32,
            rt < 32,
        ensures
            final(self).wf(),
            final(self)@ == op_bne_spec(old(self)@, rs, rt, imm_se),
    {
        if self.reg(rs) != self.reg(rt) {
            self.branch(imm_se);
        }
    }

    /// BGTZ: branch when strictly positive (signed).
    pub fn op_bgtz(&mut self, rs: u32, imm_se: u32)
        requires
            old(self).wf(),
            rs < 32,
        ensures
            final(self).wf(),
            final(self)@ == op_bgtz_spec(old(self)@, rs, imm_se),
    {
        let value = self.reg(rs) as i32;

        if value > 0 {
            self.branch(imm_se);
        }
    }

    /// BLTZ: branch when negative (signed).
    pub fn op_bltz(&mut self, rs: u32, imm_se: u32)
        requires
            old(self).wf(),
            rs < 32,
        ensures
            final(self).wf(),
            final(self)@ == op_bltz_spec(old(self)@, rs, imm_se),
    {
        let value = self.reg(rs) as i32;

        if value < 0 {
            self.branch(imm_se);
        }
    }

    /// BGEZ: branch when zero or positive (signed).
    pub fn op_bgez(&mut self, rs: u32, imm_se: u32)
        requires
            old(self).wf(),
            rs < 32,
        ensures
            final(self).wf(),
            final(self)@ == op_bgez_spec(old(self)@, rs, imm_se),
    {
        let value = self.reg(rs) as i32;

        if value >= 0 {
            self.branch(imm_se);
        }
    }

    /// BLTZAL: branch when negative, linking through register 31.
    pub fn op_bltzal(&mut self, rs: u32, imm_se: u32)
        requires
            old(self).wf(),
            rs < 32,
        ensures
            final(self).wf(),
            final(self)@ == op_bltzal_spec(old(self)@, rs, imm_se),
    {
        let value = self.reg(rs) as i32;
        let pc = self.next_pc;

        self.set_reg(31, pc);

        if value < 0 {
            self.branch(imm_se);
        }
    }

    /// BGEZAL: branch when zero or positive, linking through register 31.
    pub fn op_bgezal(&mut self, rs: u32, imm_se: u32)
        requires
            old(self).wf(),
            rs < 32,
        ensures
            final(self).wf(),
            final(self)@ == op_bgezal_spec(old(self)@, rs, imm_se),
    {
        let value = self.reg(rs) as i32;
        let pc = self.next_pc;

        self.set_reg(31, pc);

        if value >= 0 {
            self.branch(imm_se);
        }
    }

    /// BLEZ: branch when zero or negative (signed).
    pub fn op_blez(&mut self, rs: u32, imm_se: u32)
        requires
            old(self).wf(),
            rs < 32,
        ensures
            final(self).wf(),
            final(self)@ == op_blez_spec(old(self)@, rs, imm_se),
    {
        let value = self.reg(rs) as i32;

        if value <= 0 {
            self.branch(imm_se);
        }
    }

    /// ADDI: signed addition of a sign-extended immediate; overflow
    /// raises an exception.
    pub fn op_addi(&mut self, rs: u32, rt: u32, imm_se: u32)
        requires
            old(self).wf(),
            rs < 32,
            rt < 32,
        ensures
            final(self).wf(),
            final(self)@ == op_addi_spec(old(self)@, rs, rt, imm_se),
    {
        let imm = imm_se as i32;
        let reg = self.reg(rs) as i32;

        match reg.checked_add(imm) {
            Some(res) => self.set_reg(rt, res as u32),
            None => self.exception(Exception::Overflow),
        };
    }

    /// ADDIU: wrapping addition of a sign-extended immediate.
    pub fn op_addiu(&mut self, rs: u32, rt: u32, imm_se: u32)
        requires
            old(self).wf(),
            rs < 32,
            rt < 32,
        ensures
            final(self).wf(),
            final(self)@ == op_addiu_spec(old(self)@, rs, rt, imm_se),
    {
        let res = self.reg(rs).wrapping_add(imm_se);

        self.set_reg(rt, res);
    }

    /// SLTI: signed set-on-less-than against the immediate.
    pub fn op_slti(&mut self, rs: u32, rt: u32, imm_se: u32)
        requires
            old(self).wf(),
            rs < 32,
            rt < 32,
        ensures
            final(self).wf(),
            final(self)@ == op_slti_spec(old(self)@, rs, rt, imm_se),
    {
        let res: u32 = if (self.reg(rs) as i32) < (imm_se as i32) {
            1
        } else {
            0
        };

        self.set_reg(rt, res);
    }

    /// SLTIU: unsigned set-on-less-than against the immediate.
    pub fn op_sltiu(&mut self, rs: u32, rt: u32, imm_se: u32)
        requires
            old(self).wf(),
            rs < 32,
            rt < 32,
        ensures
            final(self).wf(),
            final(self)@ == op_sltiu_spec(old(self)@, rs, rt, imm_se),
    {
        let res: u32 = if self.reg(rs) < imm_se {
            1
        } else {
            0
        };

        self.set_reg(rt, res);
    }

    /// ANDI: bitwise and with the zero-extended immediate.
    pub fn op_andi(&mut self, rs: u32, rt: u32, imm: u32)
        requires
            old(self).wf(),
            rs < 32,
            rt < 32,
        ensures
            final(self).wf(),
            final(self)@ == op_andi_spec(old(self)@, rs, rt, imm),
    {
        let res = self.reg(rs) & imm;

        self.set_reg(rt, res);
    }

    /// ORI: bitwise or with the zero-extended immediate.
    pub fn op_ori(&mut self, rs: u32, rt: u32, imm: u32)
        requires
            old(self).wf(),
            rs < 32,
            rt < 32,
        ensures
            final(self).wf(),
            final(self)@ == op_ori_spec(old(self)@, rs, rt, imm),
    {
        let res = self.reg(rs) | imm;

        self.set_reg(rt, res);
    }

    /// LUI: load the immediate into the upper halfword.
    pub fn op_lui(&mut self, rt: u32, imm: u32)
        requires
            old(self).wf(),
            rt < 32,
        ensures
            final(self).wf(),
            final(self)@ == op_lui_spec(old(self)@, rt, imm),
    {
        let res = imm << 16;

        self.set_reg(rt, res);
    }

    /// LB: load a sign-extended byte.
    pub fn op_lb(&mut self, base: u32, rt: u32, offset: u32) -> (r: Result<(), EmuError>)
        requires
            old(self).wf(),
            base < 32,
            rt < 32,
        ensures
            final(self).wf(),
            match r {
                Ok(()) => op_lb_spec(old(self)@, base, rt, offset) == Ok::<CpuState, EmuError>(
                    final(self)@,
                ),
                Err(e) => op_lb_spec(old(self)@, base, rt, offset) == Err::<CpuState, EmuError>(
                    e,
                ) && final(self)@ == old(self)@,
            },
    {
        if self.sr & 0x10000 != 0 {
            return Ok(());
        }
        let addr = self.reg(base).wrapping_add(offset);
        let value = match self.load8(addr) {
            Ok(v) => v as i8,
            Err(e) => {
                return Err(e);
            },
        };

        self.load = (rt, value as u32);
        Ok(())
    }

    /// LH: load a sign-extended halfword.
    pub fn op_lh(&mut self, base: u32, rt: u32, offset: u32) -> (r: Result<(), EmuError>)
        requires
            old(self).wf(),
            base < 32,
            rt < 32,
        ensures
            final(self).wf(),
            match r {
                Ok(()) => op_lh_spec(old(self)@, base, rt, offset) == Ok::<CpuState, EmuError>(
                    final(self)@,
                ),
                Err(e) => op_lh_spec(old(self)@, base, rt, offset) == Err::<CpuState, EmuError>(
                    e,
                ) && final(self)@ == old(self)@,
            },
    {
        if self.sr & 0x10000 != 0 {
            return Ok(());
        }
        let addr = self.reg(base).wrapping_add(offset);
        let value = match self.load16(addr) {
            Ok(v) => v as i16,
            Err(e) => {
                return Err(e);
            },
        };

        self.load = (rt, value as u32);
        Ok(())
    }

    /// LBU: load a zero-extended byte.
    pub fn op_lbu(&mut self, base: u32, rt: u32, offset: u32) -> (r: Result<(), EmuError>)
        requires
            old(self).wf(),
            base < 32,
            rt < 32,
        ensures
            final(self).wf(),
            match r {
                Ok(()) => op_lbu_spec(old(self)@, base, rt, offset) == Ok::<CpuState, EmuError>(
                    final(self)@,
                ),
                Err(e) => op_lbu_spec(old(self)@, base, rt, offset) == Err::<CpuState, EmuError>(
                    e,
                ) && final(self)@ == old(self)@,
            },
    {
        if self.sr & 0x10000 != 0 {
            return Ok(());
        }
        let addr = self.reg(base).wrapping_add(offset);
        let value = match self.load8(addr) {
            Ok(v) => v,
            Err(e) => {
                return Err(e);
            },
        };

        self.load = (rt, value as u32);
        Ok(())
    }

    /// LHU: load a zero-extended halfword.
    pub fn op_lhu(&mut self, base: u32, rt: u32, offset: u32) -> (r: Result<(), EmuError>)
        requires
            old(self).wf(),
            base < 32,
            rt < 32,
        ensures
            final(self).wf(),
            match r {
                Ok(()) => op_lhu_spec(old(self)@, base, rt, offset) == Ok::<CpuState, EmuError>(
                    final(self)@,
                ),
                Err(e) => op_lhu_spec(old(self)@, base, rt, offset) == Err::<CpuState, EmuError>(
                    e,
                ) && final(self)@ == old(self)@,
            },
    {
        if self.sr & 0x10000 != 0 {
            return Ok(());
        }
        let addr = self.reg(base).wrapping_add(offset);
        let value = match self.load16(addr) {
            Ok(v) => v,
            Err(e) => {
                return Err(e);
            },
        };

        self.load = (rt, value as u32);
        Ok(())
    }

    /// LW: load a word; a misaligned address raises an exception.
    pub fn op_lw(&mut self, base: u32, rt: u32, offset: u32) -> (r: Result<(), EmuError>)
        requires
            old(self).wf(),
            base < 32,
            rt < 32,
        ensures
            final(self).wf(),
            match r {
                Ok(()) => op_lw_spec(old(self)@, base, rt, offset) == Ok::<CpuState, EmuError>(
                    final(self)@,
                ),
                Err(e) => op_lw_spec(old(self)@, base, rt, offset) == Err::<CpuState, EmuError>(
                    e,
                ) && final(self)@ == old(self)@,
            },
    {
        if self.sr & 0x10000 != 0 {
            return Ok(());
        }

        let addr = self.reg(base).wrapping_add(offset);

        if addr % 4 == 0 {
            let value = match self.load32(addr) {
                Ok(v) => v,
                Err(e) => {
                    return Err(e);
                },
            };

            self.load = (rt, value);
        } else {
            self.exception(Exception::LoadAddressError);
        }
        Ok(())
    }

    /// SB: store the low byte of `rt`.
    pub fn op_sb(&mut self, base: u32, rt: u32, offset: u32) -> (r: Result<(), EmuError>)
        requires
            old(self).wf(),
            base < 32,
            rt < 32,
        ensures
            final(self).wf(),
            match r {
                Ok(()) => op_sb_spec(old(self)@, base, rt, offset) == Ok::<CpuState, EmuError>(
                    final(self)@,
                ),
                Err(e) => op_sb_spec(old(self)@, base, rt, offset) == Err::<CpuState, EmuError>(
                    e,
                ) && final(self)@ == old(self)@,
            },
    {
        if self.sr & 0x10000 != 0 {
            return Ok(());
        }

        let addr = self.reg(base).wrapping_add(offset);
        let value = self.reg(rt);

        self.store8(addr, value as u8)
    }

    /// SH: store the low halfword of `rt`; a misaligned address raises
    /// an exception.
    pub fn op_sh(&mut self, base: u32, rt: u32, offset: u32) -> (r: Result<(), EmuError>)
        requires
            old(self).wf(),
            base < 32,
            rt < 32,
        ensures
            final(self).wf(),
            match r {
                Ok(()) => op_sh_spec(old(self)@, base, rt, offset) == Ok::<CpuState, EmuError>(
                    final(self)@,
                ),
                Err(e) => op_sh_spec(old(self)@, base, rt, offset) == Err::<CpuState, EmuError>(
                    e,
                ) && final(self)@ == old(self)@,
            },
    {
        if self.sr & 0x10000 != 0 {
            return Ok(());
        }

        let addr = self.reg(base).wrapping_add(offset);

        if addr % 2 == 0 {
            let value = self.reg(rt);

            self.store16(addr, value as u16)
        } else {
            self.exception(Exception::StoreAddressError);
            Ok(())
        }
    }

    /// SW: store the word in `rt`; a misaligned address raises an
    /// exception.
    pub fn op_sw(&mut self, base: u32, rt: u32, offset: u32) -> (r: Result<(), EmuError>)
        requires
            old(self).wf(),
            base < 32,
            rt < 32,
        ensures
            final(self).wf(),
            match r {
                Ok(()) => op_sw_spec(old(self)@, base, rt, offset) == Ok::<CpuState, EmuError>(
                    final(self)@,
                ),
                Err(e) => op_sw_spec(old(self)@, base, rt, offset) == Err::<CpuState, EmuError>(
                    e,
                ) && final(self)@ == (CpuState { inter: final(self)@.inter, ..old(self)@ })
                    && final(self)@.inter.ram == old(self)@.inter.ram && final(self)@.inter.bios
                    == old(self)@.inter.bios,
            },
    {
        if self.sr & 0x10000 != 0 {
            return Ok(());
        }

        let addr = self.reg(base).wrapping_add(offset);

        if addr % 4 == 0 {
            let value = self.reg(rt);

            self.store32(addr, value)
        } else {
            self.exception(Exception::StoreAddressError);
            Ok(())
        }
    }
    /// Executes a SPECIAL (opcode 0) instruction.
    #[verifier::rlimit(100)]
    #[verifier::spinoff_prover]
    pub fn exec_special(&mut self, instruction: Instruction) -> (r: Result<(), EmuError>)
        requires
            old(self).wf(),
            instruction.opcode() == 0,
        ensures
            final(self).wf(),
            match r {
                Ok(()) => special_spec(old(self)@, instruction) == Ok::<CpuState, EmuError>(
                    final(self)@,
                ),
                Err(e) => special_spec(old(self)@, instruction) == Err::<CpuState, EmuError>(e)
                    && final(self)@ == old(self)@,
            },
    {
        let rs = instruction.rs();
        let rt = instruction.rt();
        let rd = instruction.rd();
        let sa = instruction.sa();

        let sub = instruction.special_opcode();
        if sub == 0b000000 {
            self.op_sll(sa, rt, rd);
        } else if sub == 0b000010 {
            self.op_srl(sa, rt, rd);
        } else if sub == 0b000011 {
            self.op_sra(sa, rt, rd);
        } else if sub == 0b000100 {
            self.op_sllv(rs, rt, rd);
        } else if sub == 0b000110 {
            self.op_srlv(rs, rt, rd);
        } else if sub == 0b000111 {
            self.op_srav(rs, rt, rd);
        } else if sub == 0b001000 {
            self.op_jr(rs);
        } else if sub == 0b001001 {
            self.op_jalr(rs, rd);
        } else if sub == 0b001100 {
            self.op_syscall();
        } else if sub == 0b010000 {
            self.op_mfhi(rd);
        } else if sub == 0b010001 {
            self.op_mthi(rs);
        } else if sub == 0b010010 {
            self.op_mflo(rd);
        } else if sub == 0b010011 {
            self.op_mtlo(rs);
        } else if sub == 0b011001 {
            self.op_multu(rs, rt);
        } else if sub == 0b011010 {
            self.op_div(rs, rt);
        } else if sub == 0b011011 {
            self.op_divu(rs, rt);
        } else if sub == 0b100000 {
            self.op_add(rs, rt, rd);
        } else if sub == 0b100100 {
            self.op_and(rs, rt, rd);
        } else if sub == 0b101011 {
            self.op_sltu(rs, rt, rd);
        } else if sub == 0b100001 {
            self.op_addu(rs, rt, rd);
        } else if sub == 0b100011 {
            self.op_subu(rs, rt, rd);
        } else if sub == 0b100101 {
            self.op_or(rs, rt, rd);
        } else if sub == 0b100111 {
            self.op_nor(rs, rt, rd);
        } else if sub == 0b101010 {
            self.op_slt(rs, rt, rd);
        } else {
            return Err(EmuError::UnhandledInstruction(instruction.data));
        }
        Ok(())
    }

    /// Executes a REGIMM (opcode 1) branch.
    pub fn exec_regimm(&mut self, instruction: Instruction) -> (r: Result<(), EmuError>)
        requires
            old(self).wf(),
            instruction.opcode() == 1,
        ensures
            final(self).wf(),
            match r {
                Ok(()) => regimm_spec(old(self)@, instruction) == Ok::<CpuState, EmuError>(
                    final(self)@,
                ),
                Err(e) => regimm_spec(old(self)@, instruction) == Err::<CpuState, EmuError>(e)
                    && final(self)@ == old(self)@,
            },
    {
        let rs = instruction.rs();
        let imm_se = instruction.imm_se();

        let cond = instruction.regimm_condition();
        if cond == 0b00000 {
            self.op_bltz(rs, imm_se);
        } else if cond == 0b00001 {
            self.op_bgez(rs, imm_se);
        } else if cond == 0b10000 {
            self.op_bltzal(rs, imm_se);
        } else if cond == 0b10001 {
            self.op_bgezal(rs, imm_se);
        } else {
            return Err(EmuError::UnhandledInstruction(instruction.data));
        }
        Ok(())
    }

    /// Executes a COP0 (opcode 0x10) instruction.
    pub fn exec_cop0(&mut self, instruction: Instruction) -> (r: Result<(), EmuError>)
        requires
            old(self).wf(),
            instruction.opcode() == 0x10,
        ensures
            final(self).wf(),
            match r {
                Ok(()) => cop0_spec(old(self)@, instruction) == Ok::<CpuState, EmuError>(
                    final(self)@,
                ),
                Err(e) => cop0_spec(old(self)@, instruction) == Err::<CpuState, EmuError>(e)
                    && final(self)@ == old(self)@,
            },
    {
        let cop = instruction.cop_opcode();
        if cop == 0b000000 {
            self.op_mfc0(instruction.rt(), instruction.rd())
        } else if cop == 0b000100 {
            self.op_mtc0(instruction.rt(), instruction.rd())
        } else if cop == 0b010000 {
            self.op_rfe(instruction.data)
        } else {
            Err(EmuError::UnhandledInstruction(instruction.data))
        }
    }

    /// Decodes and executes one instruction word.
    #[verifier::rlimit(100)]
    #[verifier::spinoff_prover]
    pub fn decode_and_execute(&mut self, instruction: Instruction) -> (r: Result<(), EmuError>)
        requires
            old(self).wf(),
        ensures
            final(self).wf(),
            match r {
                Ok(()) => decode_execute_spec(old(self)@, instruction) == Ok::<
                    CpuState,
                    EmuError,
                >(final(self)@),
                Err(e) => decode_execute_spec(old(self)@, instruction) == Err::<
                    CpuState,
                    EmuError,
                >(e) && final(self)@.regs == old(self)@.regs && final(self)@.inter.ram == old(self)@.inter.ram && final(self)@.inter.bios == old(self)@.inter.bios,
            },
    {
        let imm = instruction.imm();
        let rt = instruction.rt();
        let rs = instruction.rs();

        let imm_se = instruction.imm_se();

        let target = instruction.target();

        let op = instruction.opcode();
        if op == 0b000000 {
            self.exec_special(instruction)
        } else if op == 0b000001 {
            self.exec_regimm(instruction)
        } else if op == 0b010000 {
            self.exec_cop0(instruction)
        } else if op == 0b000010 {
            self.op_j(target);
            Ok(())
        } else if op == 0b000011 {
            self.op_jal(target);
            Ok(())
        } else if op == 0b000100 {
            self.op_beq(rs, rt, imm_se);
            Ok(())
        } else if op == 0b000101 {
            self.op_bne(rs, rt, imm_se);
            Ok(())
        } else if op == 0b000110 {
            self.op_blez(rs, imm_se);
            Ok(())
        } else if op == 0b000111 {
            self.op_bgtz(rs, imm_se);
            Ok(())
        } else if op == 0b001000 {
            self.op_addi(rs, rt, imm_se);
            Ok(())
        } else if op == 0b001001 {
            self.op_addiu(rs, rt, imm_se);
            Ok(())
        } else if op == 0b001010 {
            self.op_slti(rs, rt, imm_se);
            Ok(())
        } else if op == 0b001011 {
            self.op_sltiu(rs, rt, imm_se);
            Ok(())
        } else if op == 0b001100 {
            self.op_andi(rs, rt, imm);
            Ok(())
        } else if op == 0b001101 {
            self.op_ori(rs, rt, imm);
            Ok(())
        } else if op == 0b001111 {
            self.op_lui(rt, imm);
            Ok(())
        } else if op == 0b100000 {
            self.op_lb(rs, rt, imm_se)
        } else if op == 0b100001 {
            self.op_lh(rs, rt, imm_se)
        } else if op == 0b100011 {
            self.op_lw(rs, rt, imm_se)
        } else if op == 0b100100 {
            self.op_lbu(rs, rt, imm_se)
        } else if op == 0b100101 {
            self.op_lhu(rs, rt, imm_se)
        } else if op == 0b101000 {
            self.op_sb(rs, rt, imm_se)
        } else if op == 0b101001 {
            self.op_sh(rs, rt, imm_se)
        } else if op == 0b101011 {
            self.op_sw(rs, rt, imm_se)
        } else {
            Err(EmuError::UnhandledInstruction(instruction.data))
        }
    }

    /// Advances the machine by exactly one instruction: checks the fetch
    /// address, fetches, advances the program-counter pair, resolves the
    /// pending load, promotes the branch flag into the delay-slot flag,
    /// executes, and commits the shadow register file.
    #[verifier::rlimit(100)]
    #[verifier::spinoff_prover]
    pub fn run_next_instruction(&mut self) -> (r: Result<(), EmuError>)
        requires
            old(self).wf(),
        ensures
            final(self).wf(),
            match r {
                Ok(()) => step_spec(old(self)@) == Ok::<CpuState, EmuError>(final(self)@),
                Err(e) => step_spec(old(self)@) == Err::<CpuState, EmuError>(e) && final(self)@.regs == old(self)@.regs && final(self)@.inter.ram == old(self)@.inter.ram
                    && final(self)@.inter.bios == old(self)@.inter.bios,
            },
            (old(self)@.pc % 4 == 0 && crate::interconnect::load32_spec(
                old(self)@.inter,
                old(self)@.pc,
            ) is Err) ==> final(self)@ == (CpuState { current_pc: old(self)@.pc, ..old(self)@ }),
    {
        self.current_pc = self.pc;

        if self.pc % 4 != 0 {
            self.exception(Exception::LoadAddressError);
            return Ok(());
        }

        let instruction = match self.load32(self.pc) {
            Ok(w) => w,
            Err(e) => {
                return Err(e);
            },
        };

        self.pc = self.next_pc;
        self.next_pc = self.next_pc.wrapping_add(4);

        let (reg, value) = self.load;
        self.set_reg(reg, value);

        self.load = (0, 0);

        self.delay_slot = self.branch;
        self.branch = false;

        let res = self.decode_and_execute(Instruction::new(instruction));
        if let Err(e) = res {
            return Err(e);
        }

        self.commit_regs();

        Ok(())
    }
}

/// Signed division that is neither by zero nor the one overflowing
/// quotient stays within the 32-bit range, so the checked operations
/// return a value.
proof fn lemma_div_in_range(n: i32, d: i32)
    requires
        d != 0,
        !(n == i32::MIN && d == -1),
    ensures
        i32::checked_div(n, d) is Some,
        i32::checked_rem(n, d) is Some,
{
    let x = n as int;
    let dd = d as int;
    if x > 0 && dd > 0 {
        assert(0 <= x / dd <= x) by (nonlinear_arith)
            requires
                x > 0,
                dd > 0,
        ;
    } else if x < 0 && dd < 0 {
        let a = x * -1;
        let b = dd * -1;
        assert(0 <= a / b <= a) by (nonlinear_arith)
            requires
                a > 0,
                b > 0,
        ;
        if b >= 2 {
            assert(a / b <= a / 2) by (nonlinear_arith)
                requires
                    a >= 0,
                    b >= 2,
            ;
            assert(a / 2 <= 0x40000000) by (nonlinear_arith)
                requires
                    0 <= a <= 0x80000000,
            ;
        } else {
            assert(a / b == a) by (nonlinear_arith)
                requires
                    b == 1,
                    a >= 0,
            ;
        }
    } else if x < 0 {
        let a = x * -1;
        assert(0 <= a / dd <= a) by (nonlinear_arith)
            requires
                a > 0,
                dd > 0,
        ;
    } else if x > 0 {
        let b = dd * -1;
        assert(0 <= x / b <= x) by (nonlinear_arith)
            requires
                x > 0,
                b > 0,
        ;
    }
}

/// The low five bits of a word are a valid shift amount.
proof fn lemma_shift_amount(x: u32)
    ensures
        x & 0x1f < 32,
{
    assert(x & 0x1f < 32) by (bit_vector);
}

/// Register 0 reads as zero always and after any sequence of writes: a
/// register write keeps it pinned to zero, whatever its target and
/// value.
pub proof fn lemma_reg0_reads_zero(regs: Seq<u32>, index: u32, value: u32)
    requires
        regs.len() == 32,
        regs[0] == 0,
        index < 32,
    ensures
        set_reg_spec(regs, index, value).len() == 32,
        set_reg_spec(regs, index, value)[0] == 0,
{
}

/// Execution proceeds only from word-aligned addresses: a step whose
/// program counter is misaligned enters the load-address exception
/// instead of fetching an instruction, so every instruction that did
/// not raise an address exception began at a multiple of 4.
pub proof fn lemma_misaligned_pc_raises(c: CpuState)
    requires
        c.pc % 4 != 0,
    ensures
        step_spec(c) == Ok::<CpuState, EmuError>(
            exception_spec((CpuState { current_pc: c.pc, ..c }), Exception::LoadAddressError),
        ),
        !c.delay_slot ==> exception_spec(
            (CpuState { current_pc: c.pc, ..c }),
            Exception::LoadAddressError,
        ).epc == c.pc,
{
}

/// Execution proceeds only from word-aligned addresses: when a step
/// does fetch and execute, its instruction-entry bookkeeping records
/// the aligned fetch address, so every instruction that did not raise
/// an address exception began at a multiple of 4.
pub proof fn lemma_executed_instruction_pc_aligned(c: CpuState)
    requires
        c.pc % 4 == 0,
    ensures
        pipeline_spec(c).current_pc == c.pc,
        pipeline_spec(c).current_pc % 4 == 0,
{
}

/// An instruction that raises an emulated exception leaves no register
/// write of its own: the main file after such a step holds exactly the
/// pre-step shadow file with only the pending load-delay write applied,
/// and control sits at the exception vector.
pub proof fn lemma_exception_step_hides_write(c: CpuState, word: u32, k: Exception)
    requires
        c.pc % 4 == 0,
        crate::interconnect::load32_spec(c.inter, c.pc) == Ok::<u32, EmuError>(word),
        decode_execute_spec(pipeline_spec(c), Instruction { data: word }) == Ok::<
            CpuState,
            EmuError,
        >(exception_spec(pipeline_spec(c), k)),
    ensures
        step_spec(c) == Ok::<CpuState, EmuError>(
            (CpuState {
                regs: set_reg_spec(c.out_regs, c.load.0, c.load.1),
                ..exception_spec(pipeline_spec(c), k)
            }),
        ),
{
}

/// ADDI whose signed sum overflows, stated for the whole step: the
/// destination register receives no write (the main file takes only the
/// pending load-delay value), EPC holds the ADDI's own address, CAUSE
/// holds the overflow code, and control moves to the BEV-selected
/// handler.
pub proof fn lemma_addi_overflow_step(c: CpuState, word: u32)
    requires
        c.pc % 4 == 0,
        crate::interconnect::load32_spec(c.inter, c.pc) == Ok::<u32, EmuError>(word),
        (Instruction { data: word }).opcode() == 0b001000,
        ({
            let c4 = pipeline_spec(c);
            let ins = Instruction { data: word };
            (c4.regs[ins.rs() as int] as i32) + (ins.imm_se() as i32) > i32::MAX || (c4.regs[
                ins.rs() as int] as i32) + (ins.imm_se() as i32) < i32::MIN
        }),
    ensures
        step_spec(c) == Ok::<CpuState, EmuError>(
            (CpuState {
                regs: set_reg_spec(c.out_regs, c.load.0, c.load.1),
                ..exception_spec(pipeline_spec(c), Exception::Overflow)
            }),
        ),
        !c.branch ==> exception_spec(pipeline_spec(c), Exception::Overflow).epc == c.pc,
        !c.branch ==> exception_spec(pipeline_spec(c), Exception::Overflow).cause == 0x30,
        c.sr & 0x400000 != 0 ==> exception_spec(pipeline_spec(c), Exception::Overflow).pc
            == 0xbfc00180u32,
        c.sr & 0x400000 == 0 ==> exception_spec(pipeline_spec(c), Exception::Overflow).pc
            == 0x80000080u32,
{
    assert(0xcu32 << 2 == 0x30) by (bit_vector);
}

/// The load-delay slot: the instruction right after a load still reads
/// the target register's old value, and the loaded value becomes
/// architectural only at that step's boundary.  Stated for an
/// ORI rt, rs, 0 executing in the slot of a load pending into rs.
pub proof fn lemma_load_delay_one_slot(c: CpuState, word: u32)
    requires
        cpu_inv(c),
        c.pc % 4 == 0,
        crate::interconnect::load32_spec(c.inter, c.pc) == Ok::<u32, EmuError>(word),
        (Instruction { data: word }).opcode() == 0b001101,
        (Instruction { data: word }).imm() == 0,
        (Instruction { data: word }).rs() == c.load.0,
        (Instruction { data: word }).rt() != c.load.0,
        (Instruction { data: word }).rt() != 0,
        c.load.0 != 0,
    ensures
        step_spec(c) is Ok,
        step_spec(c)->Ok_0.regs[(Instruction { data: word }).rt() as int] == c.regs[c.load.0 as int],
        step_spec(c)->Ok_0.regs[c.load.0 as int] == c.load.1,
{
    let ins = Instruction { data: word };
    assert((word >> 16) & 0x1f < 32 && (word >> 21) & 0x1f < 32) by (bit_vector);
    let v: u32 = c.regs[c.load.0 as int];
    assert(v | 0 == v) by (bit_vector);
}

/// The branch-delay slot: the instruction after a taken branch executes
/// before control reaches the branch target.  Stated for an ADDIU in
/// the delay slot with no load pending: its write lands, and the next
/// fetch is from the target the branch recorded.
pub proof fn lemma_branch_delay_slot_executes(c: CpuState, word: u32)
    requires
        cpu_inv(c),
        c.branch,
        c.pc % 4 == 0,
        c.load == (0u32, 0u32),
        crate::interconnect::load32_spec(c.inter, c.pc) == Ok::<u32, EmuError>(word),
        (Instruction { data: word }).opcode() == 0b001001,
        (Instruction { data: word }).rt() != 0,
    ensures
        step_spec(c) is Ok,
        step_spec(c)->Ok_0.regs[(Instruction { data: word }).rt() as int] == c.regs[(Instruction {
            data: word,
        }).rs() as int].wrapping_add((Instruction { data: word }).imm_se()),
        step_spec(c)->Ok_0.pc == c.next_pc,
        step_spec(c)->Ok_0.next_pc == c.next_pc.wrapping_add(4),
        step_spec(c)->Ok_0.delay_slot,
{
    assert((word >> 16) & 0x1f < 32 && (word >> 21) & 0x1f < 32) by (bit_vector);
}

/// Exception entry never touches either register file or the pending
/// load, so an instruction that raises an exception leaves no register
/// write of its own behind.
pub proof fn lemma_exception_writes_no_register(c: CpuState, k: Exception)
    ensures
        exception_spec(c, k).regs == c.regs,
        exception_spec(c, k).out_regs == c.out_regs,
        exception_spec(c, k).load == c.load,
{
}

/// ADD and ADDI raise the overflow exception exactly when the signed
/// sum of their operands does not fit in 32 bits, and then perform no
/// register write.
pub proof fn lemma_add_overflow_raises(c: CpuState, rs: u32, rt: u32, rd: u32, imm_se: u32)
    requires
        rs < 32,
        rt < 32,
    ensures
        (c.regs[rs as int] as i32) + (c.regs[rt as int] as i32) > i32::MAX || (c.regs[rs as int]
            as i32) + (c.regs[rt as int] as i32) < i32::MIN ==> op_add_spec(c, rs, rt, rd)
            == exception_spec(c, Exception::Overflow),
        (c.regs[rs as int] as i32) + (imm_se as i32) > i32::MAX || (c.regs[rs as int] as i32) + (
        imm_se as i32) < i32::MIN ==> op_addi_spec(c, rs, rt, imm_se) == exception_spec(
            c,
            Exception::Overflow,
        ),
        exception_spec(c, Exception::Overflow).out_regs == c.out_regs,
{
}

/// An unaligned LW, SH or SW (while the cache is not isolated) enters
/// the matching address-error exception rather than touching memory.
pub proof fn lemma_unaligned_access_raises(c: CpuState, base: u32, rt: u32, offset: u32)
    requires
        base < 32,
        c.sr & 0x10000 == 0,
    ensures
        c.regs[base as int].wrapping_add(offset) % 4 != 0 ==> op_lw_spec(c, base, rt, offset)
            == Ok::<CpuState, EmuError>(exception_spec(c, Exception::LoadAddressError)),
        c.regs[base as int].wrapping_add(offset) % 2 != 0 ==> op_sh_spec(c, base, rt, offset)
            == Ok::<CpuState, EmuError>(exception_spec(c, Exception::StoreAddressError)),
        c.regs[base as int].wrapping_add(offset) % 4 != 0 ==> op_sw_spec(c, base, rt, offset)
            == Ok::<CpuState, EmuError>(exception_spec(c, Exception::StoreAddressError)),
        exception_spec(c, Exception::LoadAddressError).load == c.load,
        exception_spec(c, Exception::StoreAddressError).load == c.load,
        !c.delay_slot ==> exception_spec(c, Exception::LoadAddressError).epc == c.current_pc,
        !c.delay_slot ==> exception_spec(c, Exception::StoreAddressError).epc == c.current_pc,
        !c.delay_slot ==> exception_spec(c, Exception::LoadAddressError).cause == 0x10,
        !c.delay_slot ==> exception_spec(c, Exception::StoreAddressError).cause == 0x14,
        c.sr & 0x400000 != 0 ==> exception_spec(c, Exception::LoadAddressError).pc
            == 0xbfc00180u32 && exception_spec(c, Exception::StoreAddressError).pc
            == 0xbfc00180u32,
        c.sr & 0x400000 == 0 ==> exception_spec(c, Exception::LoadAddressError).pc
            == 0x80000080u32 && exception_spec(c, Exception::StoreAddressError).pc
            == 0x80000080u32,
        exception_spec(c, Exception::LoadAddressError).next_pc == exception_spec(
            c,
            Exception::LoadAddressError,
        ).pc.wrapping_add(4),
        exception_spec(c, Exception::StoreAddressError).next_pc == exception_spec(
            c,
            Exception::StoreAddressError,
        ).pc.wrapping_add(4),
{
    assert(0x4u32 << 2 == 0x10 && 0x5u32 << 2 == 0x14) by (bit_vector);
}

/// The state entered by an exception outside a delay slot: EPC holds
/// the faulting instruction's address, CAUSE holds the exception code
/// shifted left twice, and the new program counter is the handler
/// selected by the BEV bit.
pub proof fn lemma_exception_entry_state(c: CpuState, k: Exception)
    requires
        !c.delay_slot,
    ensures
        exception_spec(c, k).epc == c.current_pc,
        exception_spec(c, k).cause == exception_code(k) << 2,
        c.sr & 0x400000 != 0 ==> exception_spec(c, k).pc == 0xbfc00180u32,
        c.sr & 0x400000 == 0 ==> exception_spec(c, k).pc == 0x80000080u32,
        exception_spec(c, k).next_pc == exception_spec(c, k).pc.wrapping_add(4),
{
}

/// While the cache is isolated (status bit 16 set), every data load and
/// store is silently ignored: RAM, the target register and the pending
/// load all keep their values.
pub proof fn lemma_cache_isolation(c: CpuState, base: u32, rt: u32, offset: u32)
    requires
        c.sr & 0x10000 != 0,
    ensures
        op_lb_spec(c, base, rt, offset) == Ok::<CpuState, EmuError>(c),
        op_lbu_spec(c, base, rt, offset) == Ok::<CpuState, EmuError>(c),
        op_lh_spec(c, base, rt, offset) == Ok::<CpuState, EmuError>(c),
        op_lhu_spec(c, base, rt, offset) == Ok::<CpuState, EmuError>(c),
        op_lw_spec(c, base, rt, offset) == Ok::<CpuState, EmuError>(c),
        op_sb_spec(c, base, rt, offset) == Ok::<CpuState, EmuError>(c),
        op_sh_spec(c, base, rt, offset) == Ok::<CpuState, EmuError>(c),
        op_sw_spec(c, base, rt, offset) == Ok::<CpuState, EmuError>(c),
{
}

} // verus!
