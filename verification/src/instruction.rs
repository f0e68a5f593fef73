//! A MIPS R3000A instruction word and accessors for its encoded fields.

use vstd::prelude::*;

verus! {

/// One 32-bit instruction word.
#[derive(Clone, Copy, PartialEq, Eq, Structural, Debug)]
pub struct Instruction {
    pub data: u32,
}

impl Instruction {
    /// Wraps a raw instruction word.
    pub fn new(data: u32) -> (r: Instruction)
        ensures
            r.data == data,
    {
        Instruction { data }
    }

    /// Bits [31:26], the primary opcode.
    pub open spec fn spec_opcode(&self) -> u32 {
        self.data >> 26
    }

    #[verifier::when_used_as_spec(spec_opcode)]
    pub fn opcode(&self) -> (r: u32)
        ensures
            r == self.spec_opcode(),
    {
        self.data >> 26
    }

    /// Bits [5:0], the sub-opcode of SPECIAL (opcode 0) instructions.
    pub open spec fn spec_special_opcode(&self) -> u32 {
        self.data & 0x3f
    }

    #[verifier::when_used_as_spec(spec_special_opcode)]
    pub fn special_opcode(&self) -> (r: u32)
        ensures
            r == self.spec_special_opcode(),
    {
        self.data & 0x3f
    }

    /// Bits [20:16], the condition selector of REGIMM (opcode 1) branches.
    pub open spec fn spec_regimm_condition(&self) -> u32 {
        (self.data >> 16) & 0x1f
    }

    #[verifier::when_used_as_spec(spec_regimm_condition)]
    pub fn regimm_condition(&self) -> (r: u32)
        ensures
            r == self.spec_regimm_condition(),
    {
        (self.data >> 16) & 0x1f
    }

    /// Bits [25:21], the coprocessor sub-opcode of COP0 instructions.
    pub open spec fn spec_cop_opcode(&self) -> u32 {
        (self.data >> 21) & 0x1f
    }

    #[verifier::when_used_as_spec(spec_cop_opcode)]
    pub fn cop_opcode(&self) -> (r: u32)
        ensures
            r == self.spec_cop_opcode(),
    {
        self.rs()
    }

    /// Bits [25:21], the `rs` source register index.
    pub open spec fn spec_rs(&self) -> u32 {
        (self.data >> 21) & 0x1f
    }

    #[verifier::when_used_as_spec(spec_rs)]
    pub fn rs(&self) -> (r: u32)
        ensures
            r == self.spec_rs(),
            r < 32,
    {
        let d = self.data;
        proof {
            assert((d >> 21) & 0x1f < 32) by (bit_vector);
        }
        (d >> 21) & 0x1f
    }

    /// Bits [20:16], the `rt` source/target register index.
    pub open spec fn spec_rt(&self) -> u32 {
        (self.data >> 16) & 0x1f
    }

    #[verifier::when_used_as_spec(spec_rt)]
    pub fn rt(&self) -> (r: u32)
        ensures
            r == self.spec_rt(),
            r < 32,
    {
        let d = self.data;
        proof {
            assert((d >> 16) & 0x1f < 32) by (bit_vector);
        }
        (d >> 16) & 0x1f
    }

    /// Bits [15:11], the `rd` destination register index.
    pub open spec fn spec_rd(&self) -> u32 {
        (self.data >> 11) & 0x1f
    }

    #[verifier::when_used_as_spec(spec_rd)]
    pub fn rd(&self) -> (r: u32)
        ensures
            r == self.spec_rd(),
            r < 32,
    {
        let d = self.data;
        proof {
            assert((d >> 11) & 0x1f < 32) by (bit_vector);
        }
        (d >> 11) & 0x1f
    }

    /// Bits [10:6], the shift amount of immediate shifts.
    pub open spec fn spec_sa(&self) -> u32 {
        (self.data >> 6) & 0x1f
    }

    #[verifier::when_used_as_spec(spec_sa)]
    pub fn sa(&self) -> (r: u32)
        ensures
            r == self.spec_sa(),
            r < 32,
    {
        let d = self.data;
        proof {
            assert((d >> 6) & 0x1f < 32) by (bit_vector);
        }
        (d >> 6) & 0x1f
    }

    /// Bits [15:0], zero-extended.
    pub open spec fn spec_imm(&self) -> u32 {
        self.data & 0xffff
    }

    #[verifier::when_used_as_spec(spec_imm)]
    pub fn imm(&self) -> (r: u32)
        ensures
            r == self.spec_imm(),
    {
        self.data & 0xffff
    }

    /// Bits [15:0], sign-extended from bit 15 to 32 bits.
    pub open spec fn spec_imm_se(&self) -> u32 {
        if self.data & 0x8000 == 0 {
            self.data & 0xffff
        } else {
            (self.data & 0xffff) | 0xffff0000u32
        }
    }

    #[verifier::when_used_as_spec(spec_imm_se)]
    pub fn imm_se(&self) -> (r: u32)
        ensures
            r == self.spec_imm_se(),
    {
        let d = self.data;
        proof {
            assert(((d & 0xffff) as i16) as u32 == if d & 0x8000 == 0 {
                d & 0xffff
            } else {
                (d & 0xffff) | 0xffff0000u32
            }) by (bit_vector);
        }
        ((d & 0xffff) as i16) as u32
    }

    /// Bits [25:0], the pseudo-absolute jump target.
    pub open spec fn spec_target(&self) -> u32 {
        self.data & 0x3ffffff
    }

    #[verifier::when_used_as_spec(spec_target)]
    pub fn target(&self) -> (r: u32)
        ensures
            r == self.spec_target(),
    {
        self.data & 0x3ffffff
    }
}

} // verus!
