use vstd::prelude::*;

verus! {

/// A block data-transfer instruction of the primary set (load or store
/// multiple), read through its named fields.
///
/// | bits    | field              |
/// |---------|--------------------|
/// | 28..=31 | condition          |
/// | 24      | P: pre-index       |
/// | 23      | U: ascending       |
/// | 21      | W: writeback       |
/// | 16..=19 | Rn: base register  |
/// | 0..=15  | register list      |
#[derive(Clone, Copy, Debug, PartialEq, Eq, Structural)]
pub struct BlockTransfer {
    pub raw: u32,
}

impl BlockTransfer {
    pub open spec fn spec_cond(self) -> u32 {
        self.raw >> 28u32
    }

    pub open spec fn spec_p_bit(self) -> bool {
        (self.raw >> 24u32) & 1u32 == 1u32
    }

    pub open spec fn spec_u_bit(self) -> bool {
        (self.raw >> 23u32) & 1u32 == 1u32
    }

    pub open spec fn spec_w_bit(self) -> bool {
        (self.raw >> 21u32) & 1u32 == 1u32
    }

    pub open spec fn spec_rn(self) -> u32 {
        (self.raw >> 16u32) & 0xFu32
    }

    pub open spec fn spec_register_list(self) -> u32 {
        self.raw & 0xFFFFu32
    }

    pub open spec fn new_spec(raw: u32) -> BlockTransfer {
        BlockTransfer { raw }
    }

    pub fn new(raw: u32) -> (r: BlockTransfer)
        ensures
            r == Self::new_spec(raw),
    {
        BlockTransfer { raw }
    }

    pub fn cond(&self) -> (r: u32)
        ensures
            r == self.spec_cond(),
            r < 16,
    {
        let x = self.raw;
        assert(x >> 28u32 < 16) by (bit_vector);
        x >> 28
    }

    pub fn p_bit(&self) -> (r: bool)
        ensures
            r == self.spec_p_bit(),
    {
        (self.raw >> 24) & 1 == 1
    }

    pub fn u_bit(&self) -> (r: bool)
        ensures
            r == self.spec_u_bit(),
    {
        (self.raw >> 23) & 1 == 1
    }

    pub fn w_bit(&self) -> (r: bool)
        ensures
            r == self.spec_w_bit(),
    {
        (self.raw >> 21) & 1 == 1
    }

    pub fn rn(&self) -> (r: u32)
        ensures
            r == self.spec_rn(),
            r < 16,
    {
        let x = self.raw;
        assert((x >> 16u32) & 0xFu32 < 16) by (bit_vector);
        (x >> 16) & 0xF
    }

    pub fn register_list(&self) -> (r: u32)
        ensures
            r == self.spec_register_list(),
            r < 0x10000,
    {
        let x = self.raw;
        assert(x & 0xFFFFu32 < 0x10000) by (bit_vector);
        x & 0xFFFF
    }
}

/// A conditional branch of the compressed set: condition in bits 8 to 11, a
/// signed halfword offset in bits 0 to 7.
#[derive(Clone, Copy, Debug, PartialEq, Eq, Structural)]
pub struct CondBranch {
    pub raw: u16,
}

impl CondBranch {
    pub open spec fn spec_cond(self) -> u32 {
        ((self.raw as u32) >> 8u32) & 0xFu32
    }

    pub open spec fn spec_signed_imm_8(self) -> u32 {
        (self.raw as u32) & 0xFFu32
    }

    pub fn new(raw: u16) -> (r: CondBranch)
        ensures
            r.raw == raw,
    {
        CondBranch { raw }
    }

    pub fn cond(&self) -> (r: u32)
        ensures
            r == self.spec_cond(),
            r < 16,
    {
        let x = self.raw as u32;
        assert((x >> 8u32) & 0xFu32 < 16) by (bit_vector);
        (x >> 8) & 0xF
    }

    pub fn signed_imm_8(&self) -> (r: u32)
        ensures
            r == self.spec_signed_imm_8(),
    {
        (self.raw as u32) & 0xFF
    }
}

/// An unconditional branch or one half of a branch-with-link pair of the
/// compressed set: the kind in bits 11 and 12, an offset in bits 0 to 10.
#[derive(Clone, Copy, Debug, PartialEq, Eq, Structural)]
pub struct LongBranch {
    pub raw: u16,
}

impl LongBranch {
    pub open spec fn spec_h_bits(self) -> u32 {
        ((self.raw as u32) >> 11u32) & 0x3u32
    }

    pub open spec fn spec_offset_11(self) -> u32 {
        (self.raw as u32) & 0x7FFu32
    }

    pub fn new(raw: u16) -> (r: LongBranch)
        ensures
            r.raw == raw,
    {
        LongBranch { raw }
    }

    pub fn h_bits(&self) -> (r: u32)
        ensures
            r == self.spec_h_bits(),
            r < 4,
    {
        let x = self.raw as u32;
        assert((x >> 11u32) & 0x3u32 < 4) by (bit_vector);
        (x >> 11) & 0x3
    }

    pub fn offset_11(&self) -> (r: u32)
        ensures
            r == self.spec_offset_11(),
            r < 0x800,
    {
        let x = self.raw as u32;
        assert(x & 0x7FFu32 < 0x800) by (bit_vector);
        x & 0x7FF
    }
}

/// A register-indirect branch of the compressed set (with or without link):
/// the register number is bit 6 (H2) above bits 3 to 5 (Rm).
#[derive(Clone, Copy, Debug, PartialEq, Eq, Structural)]
pub struct RegBranch {
    pub raw: u16,
}

impl RegBranch {
    /// The number of the register holding the target.
    pub open spec fn spec_target_reg(self) -> u32 {
        ((((self.raw as u32) >> 6u32) & 1u32) << 3u32) | (((self.raw as u32) >> 3u32) & 0x7u32)
    }

    pub fn new(raw: u16) -> (r: RegBranch)
        ensures
            r.raw == raw,
    {
        RegBranch { raw }
    }

    pub fn target_reg(&self) -> (r: u32)
        ensures
            r == self.spec_target_reg(),
            r < 16,
    {
        let x = self.raw as u32;
        let r = (((x >> 6) & 1) << 3) | ((x >> 3) & 0x7);
        assert(r < 16) by (bit_vector)
            requires
                r == (((x >> 6u32) & 1u32) << 3u32) | ((x >> 3u32) & 0x7u32),
        ;
        r
    }
}

/// A decoded instruction of the primary set that this core executes.
#[allow(non_camel_case_types)]
#[derive(Clone, Copy, Debug, PartialEq, Eq, Structural)]
pub enum ArmInstruction {
    ldm_1(BlockTransfer),
    ldm_2(BlockTransfer),
    ldm_3(BlockTransfer),
    stm_1(BlockTransfer),
    stm_2(BlockTransfer),
}

/// A decoded instruction of the compressed set that this core executes.
#[allow(non_camel_case_types)]
#[derive(Clone, Copy, Debug, PartialEq, Eq, Structural)]
pub enum ThumbInstruction {
    b_1(CondBranch),
    branch(LongBranch),
    blx_2(RegBranch),
    bx(RegBranch),
}

} // verus!
