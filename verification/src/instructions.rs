//! Bit-field views of the 32-bit instruction word, one per RV32I format,
//! and the tagged `Instruction` union with one constructor per format.
//!
//! Every format shares the low seven bits (the opcode) and partitions the
//! upper 25 bits in its own way. The field accessors below read and write a
//! single backing word; writes clear their bit range and OR in the masked
//! value.

use vstd::prelude::*;

verus! {

use crate::imm_enc_dec::{
    b_dec_spec,
    b_enc_spec,
    b_imm_dec,
    b_imm_enc,
    i_dec_spec,
    i_enc_spec,
    i_imm_dec,
    j_dec_spec,
    j_enc_spec,
    j_imm_dec,
    j_imm_enc,
    s_dec_spec,
    s_enc_spec,
    s_imm_dec,
    s_imm_enc,
    shift_dec_spec,
    shift_enc_spec,
    shift_imm_dec,
    u_dec_spec,
    u_enc_spec,
    u_imm_dec,
};

/// The opcode field, bits [6:0] of any instruction word.
pub open spec fn opcode_of(w: u32) -> u32 {
    w & 0x7F
}

/// The destination register field, bits [11:7].
pub open spec fn rd_of(w: u32) -> u32 {
    (w >> 7) & 0x1F
}

/// The funct3 field, bits [14:12].
pub open spec fn funct3_of(w: u32) -> u32 {
    (w >> 12) & 0x7
}

/// The first source register field, bits [19:15].
pub open spec fn rs1_of(w: u32) -> u32 {
    (w >> 15) & 0x1F
}

/// The second source register field, bits [24:20].
pub open spec fn rs2_of(w: u32) -> u32 {
    (w >> 20) & 0x1F
}

/// The funct7 field, bits [31:25].
pub open spec fn funct7_of(w: u32) -> u32 {
    (w >> 25) & 0x7F
}

/// The raw 12-bit I-format immediate field, bits [31:20].
pub open spec fn imm11_0_of(w: u32) -> u32 {
    w >> 20
}

/// Everything above the opcode, bits [31:7].
pub open spec fn rest_of(w: u32) -> u32 {
    w >> 7
}

/// Every named field of an instruction word fits its width.
pub proof fn lemma_field_bounds(w: u32)
    ensures
        opcode_of(w) < 128,
        rd_of(w) < 32,
        funct3_of(w) < 8,
        rs1_of(w) < 32,
        rs2_of(w) < 32,
        funct7_of(w) < 128,
        imm11_0_of(w) < 4096,
{
    assert(w & 0x7F < 128 && (w >> 7) & 0x1F < 32 && (w >> 12) & 0x7 < 8 && (w >> 15) & 0x1F < 32
        && (w >> 20) & 0x1F < 32 && (w >> 25) & 0x7F < 128 && w >> 20 < 4096) by (bit_vector);
}

/// The fields common to every format: the opcode and the rest of the word.
#[derive(Copy, Clone, Debug)]
pub struct _Op(pub u32);

impl _Op {
    pub fn opcode(&self) -> (r: u32)
        ensures
            r == opcode_of(self.0),
            r < 128,
    {
        proof { lemma_field_bounds(self.0) }
        self.0 & 0x7F
    }

    pub fn rest(&self) -> (r: u32)
        ensures
            r == rest_of(self.0),
    {
        self.0 >> 7
    }

    pub fn set_opcode(&mut self, v: u32)
        ensures
            final(self).0 == (old(self).0 & 0xFFFF_FF80u32) | (v & 0x7F),
    {
        self.0 = (self.0 & 0xFFFF_FF80u32) | (v & 0x7F);
    }

    pub fn set_rest(&mut self, v: u32)
        ensures
            final(self).0 == (old(self).0 & 0x0000_007Fu32) | ((v & 0x01FF_FFFF) << 7),
    {
        self.0 = (self.0 & 0x0000_007Fu32) | ((v & 0x01FF_FFFF) << 7);
    }
}

/// R-format: register/register operations.
#[derive(Copy, Clone, Debug)]
pub struct _R(pub u32);

impl _R {
    pub fn opcode(&self) -> (r: u32)
        ensures
            r == opcode_of(self.0),
            r < 128,
    {
        proof { lemma_field_bounds(self.0) }
        self.0 & 0x7F
    }

    pub fn rd(&self) -> (r: u32)
        ensures
            r == rd_of(self.0),
            r < 32,
    {
        proof { lemma_field_bounds(self.0) }
        (self.0 >> 7) & 0x1F
    }

    pub fn funct3(&self) -> (r: u32)
        ensures
            r == funct3_of(self.0),
            r < 8,
    {
        proof { lemma_field_bounds(self.0) }
        (self.0 >> 12) & 0x7
    }

    pub fn rs1(&self) -> (r: u32)
        ensures
            r == rs1_of(self.0),
            r < 32,
    {
        proof { lemma_field_bounds(self.0) }
        (self.0 >> 15) & 0x1F
    }

    pub fn rs2(&self) -> (r: u32)
        ensures
            r == rs2_of(self.0),
            r < 32,
    {
        proof { lemma_field_bounds(self.0) }
        (self.0 >> 20) & 0x1F
    }

    pub fn funct7(&self) -> (r: u32)
        ensures
            r == funct7_of(self.0),
            r < 128,
    {
        proof { lemma_field_bounds(self.0) }
        (self.0 >> 25) & 0x7F
    }
}

/// I-format: short immediates, loads, jalr and the system group.
#[derive(Copy, Clone, Debug)]
pub struct _I(pub u32);

impl _I {
    pub fn opcode(&self) -> (r: u32)
        ensures
            r == opcode_of(self.0),
            r < 128,
    {
        proof { lemma_field_bounds(self.0) }
        self.0 & 0x7F
    }

    pub fn rd(&self) -> (r: u32)
        ensures
            r == rd_of(self.0),
            r < 32,
    {
        proof { lemma_field_bounds(self.0) }
        (self.0 >> 7) & 0x1F
    }

    pub fn funct3(&self) -> (r: u32)
        ensures
            r == funct3_of(self.0),
            r < 8,
    {
        proof { lemma_field_bounds(self.0) }
        (self.0 >> 12) & 0x7
    }

    pub fn rs1(&self) -> (r: u32)
        ensures
            r == rs1_of(self.0),
            r < 32,
    {
        proof { lemma_field_bounds(self.0) }
        (self.0 >> 15) & 0x1F
    }

    pub fn imm11_0(&self) -> (r: u32)
        ensures
            r == imm11_0_of(self.0),
            r < 4096,
    {
        proof { lemma_field_bounds(self.0) }
        self.0 >> 20
    }

    /// Store the low twelve bits of `imm` into bits [31:20].
    pub fn imm_enc(&mut self, imm: i32)
        ensures
            final(self).0 == (old(self).0 & 0x000F_FFFFu32) | i_enc_spec(imm as u32),
    {
        self.0 = (self.0 & 0x000F_FFFFu32) | (((imm as u32) & 0xFFF) << 20);
    }

    /// Read bits [31:20] back as a sign-extended 12-bit immediate.
    pub fn imm_dec(&self) -> (r: i32)
        ensures
            r as u32 == i_dec_spec(self.0),
            r == i_dec_spec(self.0) as i32,
    {
        i_imm_dec(self.0)
    }
}

/// Shift-immediate format: like R, with the shift amount in the rs2 field.
#[derive(Copy, Clone, Debug)]
pub struct _Shift(pub u32);

impl _Shift {
    pub fn opcode(&self) -> (r: u32)
        ensures
            r == opcode_of(self.0),
            r < 128,
    {
        proof { lemma_field_bounds(self.0) }
        self.0 & 0x7F
    }

    pub fn rd(&self) -> (r: u32)
        ensures
            r == rd_of(self.0),
            r < 32,
    {
        proof { lemma_field_bounds(self.0) }
        (self.0 >> 7) & 0x1F
    }

    pub fn funct3(&self) -> (r: u32)
        ensures
            r == funct3_of(self.0),
            r < 8,
    {
        proof { lemma_field_bounds(self.0) }
        (self.0 >> 12) & 0x7
    }

    pub fn rs1(&self) -> (r: u32)
        ensures
            r == rs1_of(self.0),
            r < 32,
    {
        proof { lemma_field_bounds(self.0) }
        (self.0 >> 15) & 0x1F
    }

    pub fn shamt_4_0(&self) -> (r: u32)
        ensures
            r == rs2_of(self.0),
            r < 32,
    {
        proof { lemma_field_bounds(self.0) }
        (self.0 >> 20) & 0x1F
    }

    pub fn funct7(&self) -> (r: u32)
        ensures
            r == funct7_of(self.0),
            r < 128,
    {
        proof { lemma_field_bounds(self.0) }
        (self.0 >> 25) & 0x7F
    }

    /// Store the 5-bit shift amount into bits [24:20].
    pub fn imm_enc(&mut self, imm: u32)
        ensures
            final(self).0 == (old(self).0 & 0xFE0F_FFFFu32) | shift_enc_spec(imm),
    {
        self.0 = (self.0 & 0xFE0F_FFFFu32) | ((imm & 0x1F) << 20);
    }

    /// Read the 5-bit shift amount from bits [24:20].
    pub fn imm_dec(&self) -> (r: u32)
        ensures
            r == shift_dec_spec(self.0),
            r < 32,
    {
        proof { lemma_field_bounds(self.0) }
        shift_imm_dec(self.0)
    }
}

/// S-format: stores.
#[derive(Copy, Clone, Debug)]
pub struct _S(pub u32);

impl _S {
    pub fn opcode(&self) -> (r: u32)
        ensures
            r == opcode_of(self.0),
            r < 128,
    {
        proof { lemma_field_bounds(self.0) }
        self.0 & 0x7F
    }

    pub fn funct3(&self) -> (r: u32)
        ensures
            r == funct3_of(self.0),
            r < 8,
    {
        proof { lemma_field_bounds(self.0) }
        (self.0 >> 12) & 0x7
    }

    pub fn rs1(&self) -> (r: u32)
        ensures
            r == rs1_of(self.0),
            r < 32,
    {
        proof { lemma_field_bounds(self.0) }
        (self.0 >> 15) & 0x1F
    }

    pub fn rs2(&self) -> (r: u32)
        ensures
            r == rs2_of(self.0),
            r < 32,
    {
        proof { lemma_field_bounds(self.0) }
        (self.0 >> 20) & 0x1F
    }

    /// Scatter the low twelve bits of `imm` into bits [11:7] and [31:25].
    pub fn imm_enc(&mut self, imm: i32)
        ensures
            final(self).0 == (old(self).0 & 0x01FF_F07Fu32) | s_enc_spec(imm as u32),
    {
        self.0 = (self.0 & 0x01FF_F07Fu32) | s_imm_enc(imm);
    }

    /// Gather bits [11:7] and [31:25] back into a sign-extended immediate.
    pub fn imm_dec(&self) -> (r: i32)
        ensures
            r as u32 == s_dec_spec(self.0),
            r == s_dec_spec(self.0) as i32,
    {
        s_imm_dec(self.0)
    }
}

/// B-format: conditional branches, with a scrambled 13-bit even immediate.
#[derive(Copy, Clone, Debug)]
pub struct _B(pub u32);

impl _B {
    pub fn opcode(&self) -> (r: u32)
        ensures
            r == opcode_of(self.0),
            r < 128,
    {
        proof { lemma_field_bounds(self.0) }
        self.0 & 0x7F
    }

    pub fn funct3(&self) -> (r: u32)
        ensures
            r == funct3_of(self.0),
            r < 8,
    {
        proof { lemma_field_bounds(self.0) }
        (self.0 >> 12) & 0x7
    }

    pub fn rs1(&self) -> (r: u32)
        ensures
            r == rs1_of(self.0),
            r < 32,
    {
        proof { lemma_field_bounds(self.0) }
        (self.0 >> 15) & 0x1F
    }

    pub fn rs2(&self) -> (r: u32)
        ensures
            r == rs2_of(self.0),
            r < 32,
    {
        proof { lemma_field_bounds(self.0) }
        (self.0 >> 20) & 0x1F
    }

    /// Scatter the 13-bit even immediate into bits [7], [11:8], [30:25]
    /// and [31].
    pub fn imm_enc(&mut self, imm: i32)
        ensures
            final(self).0 == (old(self).0 & 0x01FF_F07Fu32) | b_enc_spec(imm as u32),
    {
        self.0 = (self.0 & 0x01FF_F07Fu32) | b_imm_enc(imm);
    }

    /// Gather the branch offset back as a sign-extended even immediate.
    pub fn imm_dec(&self) -> (r: i32)
        ensures
            r as u32 == b_dec_spec(self.0),
            r == b_dec_spec(self.0) as i32,
    {
        b_imm_dec(self.0)
    }
}

/// U-format: lui and auipc, with a 20-bit upper immediate.
#[derive(Copy, Clone, Debug)]
pub struct _U(pub u32);

impl _U {
    pub fn opcode(&self) -> (r: u32)
        ensures
            r == opcode_of(self.0),
            r < 128,
    {
        proof { lemma_field_bounds(self.0) }
        self.0 & 0x7F
    }

    pub fn rd(&self) -> (r: u32)
        ensures
            r == rd_of(self.0),
            r < 32,
    {
        proof { lemma_field_bounds(self.0) }
        (self.0 >> 7) & 0x1F
    }

    pub fn imm31_12(&self) -> (r: u32)
        ensures
            r == self.0 >> 12,
    {
        self.0 >> 12
    }

    /// Store bits [31:12] of `imm` into bits [31:12].
    pub fn imm_enc(&mut self, imm: u32)
        ensures
            final(self).0 == (old(self).0 & 0x0000_0FFFu32) | u_enc_spec(imm),
    {
        self.0 = (self.0 & 0x0000_0FFFu32) | (imm & 0xFFFF_F000);
    }

    /// Read the upper immediate back, already shifted into place.
    pub fn imm_dec(&self) -> (r: u32)
        ensures
            r == u_dec_spec(self.0),
    {
        u_imm_dec(self.0)
    }
}

/// J-format: jal, with a scrambled 21-bit even immediate.
#[derive(Copy, Clone, Debug)]
pub struct _J(pub u32);

impl _J {
    pub fn opcode(&self) -> (r: u32)
        ensures
            r == opcode_of(self.0),
            r < 128,
    {
        proof { lemma_field_bounds(self.0) }
        self.0 & 0x7F
    }

    pub fn rd(&self) -> (r: u32)
        ensures
            r == rd_of(self.0),
            r < 32,
    {
        proof { lemma_field_bounds(self.0) }
        (self.0 >> 7) & 0x1F
    }

    /// Scatter the 21-bit even immediate into bits [30:21], [20], [19:12]
    /// and [31].
    pub fn imm_enc(&mut self, imm: i32)
        ensures
            final(self).0 == (old(self).0 & 0x0000_0FFFu32) | j_enc_spec(imm as u32),
    {
        self.0 = (self.0 & 0x0000_0FFFu32) | j_imm_enc(imm);
    }

    /// Gather the jump offset back as a sign-extended even immediate.
    pub fn imm_dec(&self) -> (r: i32)
        ensures
            r as u32 == j_dec_spec(self.0),
            r == j_dec_spec(self.0) as i32,
    {
        j_imm_dec(self.0)
    }
}

} // verus!

verus! {

/// A 32-bit instruction word, tagged with the format it was built through.
#[derive(Copy, Clone, Debug)]
pub enum Instruction {
    R(_R),
    I(_I),
    Shift(_Shift),
    S(_S),
    B(_B),
    U(_U),
    J(_J),
}

/// The word an R-format constructor produces.
pub open spec fn r_word(opcode: u32, funct3: u32, funct7: u32, rd: u32, rs1: u32, rs2: u32) -> u32 {
    (opcode & 0x7F) | ((rd & 0x1F) << 7) | ((funct3 & 0x7) << 12) | ((rs1 & 0x1F) << 15) | ((rs2
        & 0x1F) << 20) | ((funct7 & 0x7F) << 25)
}

/// The word an I-format constructor produces.
pub open spec fn i_word(opcode: u32, funct3: u32, rd: u32, rs1: u32, imm: u32) -> u32 {
    (opcode & 0x7F) | ((rd & 0x1F) << 7) | ((funct3 & 0x7) << 12) | ((rs1 & 0x1F) << 15)
        | i_enc_spec(imm)
}

/// The word a shift-immediate constructor produces.
pub open spec fn shift_word(
    opcode: u32,
    funct3: u32,
    funct7: u32,
    rd: u32,
    rs1: u32,
    shamt: u32,
) -> u32 {
    (opcode & 0x7F) | ((rd & 0x1F) << 7) | ((funct3 & 0x7) << 12) | ((rs1 & 0x1F) << 15) | ((funct7
        & 0x7F) << 25) | shift_enc_spec(shamt)
}

/// The word an S-format constructor produces.
pub open spec fn s_word(opcode: u32, funct3: u32, rs1: u32, rs2: u32, imm: u32) -> u32 {
    (opcode & 0x7F) | ((funct3 & 0x7) << 12) | ((rs1 & 0x1F) << 15) | ((rs2 & 0x1F) << 20)
        | s_enc_spec(imm)
}

/// The word a B-format constructor produces.
pub open spec fn b_word(opcode: u32, funct3: u32, rs1: u32, rs2: u32, imm: u32) -> u32 {
    (opcode & 0x7F) | ((funct3 & 0x7) << 12) | ((rs1 & 0x1F) << 15) | ((rs2 & 0x1F) << 20)
        | b_enc_spec(imm)
}

/// The word a U-format constructor produces; `imm` is the 20-bit upper
/// field, shifted into place before encoding.
pub open spec fn u_word(opcode: u32, rd: u32, imm: u32) -> u32 {
    (opcode & 0x7F) | ((rd & 0x1F) << 7) | u_enc_spec(imm << 12)
}

/// The word a J-format constructor produces.
pub open spec fn j_word(opcode: u32, rd: u32, imm: u32) -> u32 {
    (opcode & 0x7F) | ((rd & 0x1F) << 7) | j_enc_spec(imm)
}

/// The backing word of an instruction, whatever its format.
pub open spec fn bits_of(inst: Instruction) -> u32 {
    match inst {
        Instruction::R(r) => r.0,
        Instruction::I(i) => i.0,
        Instruction::Shift(s) => s.0,
        Instruction::S(s) => s.0,
        Instruction::B(b) => b.0,
        Instruction::U(u) => u.0,
        Instruction::J(j) => j.0,
    }
}

impl Instruction {
    pub fn get_bits(&self) -> (r: u32)
        ensures
            r == bits_of(*self),
    {
        match self {
            Instruction::R(r) => r.0,
            Instruction::I(i) => i.0,
            Instruction::Shift(s) => s.0,
            Instruction::S(s) => s.0,
            Instruction::B(b) => b.0,
            Instruction::U(u) => u.0,
            Instruction::J(j) => j.0,
        }
    }

    pub fn new_r(opcode: u32, funct3: u32, funct7: u32, rd: u32, rs1: u32, rs2: u32) -> (inst:
        Instruction)
        ensures
            inst == Instruction::R(_R(r_word(opcode, funct3, funct7, rd, rs1, rs2))),
    {
        let w = (opcode & 0x7F) | ((rd & 0x1F) << 7) | ((funct3 & 0x7) << 12) | ((rs1 & 0x1F) << 15)
            | ((rs2 & 0x1F) << 20) | ((funct7 & 0x7F) << 25);
        Instruction::R(_R(w))
    }

    pub fn new_i(opcode: u32, funct3: u32, rd: u32, rs1: u32, imm: i32) -> (inst: Instruction)
        ensures
            inst == Instruction::I(_I(i_word(opcode, funct3, rd, rs1, imm as u32))),
    {
        let w = (opcode & 0x7F) | ((rd & 0x1F) << 7) | ((funct3 & 0x7) << 12) | ((rs1 & 0x1F) << 15)
            | (((imm as u32) & 0xFFF) << 20);
        Instruction::I(_I(w))
    }

    pub fn new_shift(opcode: u32, funct3: u32, funct7: u32, rd: u32, rs1: u32, shamt: u32) -> (inst:
        Instruction)
        ensures
            inst == Instruction::Shift(_Shift(shift_word(opcode, funct3, funct7, rd, rs1, shamt))),
    {
        let w = (opcode & 0x7F) | ((rd & 0x1F) << 7) | ((funct3 & 0x7) << 12) | ((rs1 & 0x1F) << 15)
            | ((funct7 & 0x7F) << 25) | ((shamt & 0x1F) << 20);
        Instruction::Shift(_Shift(w))
    }

    pub fn new_s(opcode: u32, funct3: u32, rs1: u32, rs2: u32, imm: i32) -> (inst: Instruction)
        ensures
            inst == Instruction::S(_S(s_word(opcode, funct3, rs1, rs2, imm as u32))),
    {
        let w = (opcode & 0x7F) | ((funct3 & 0x7) << 12) | ((rs1 & 0x1F) << 15) | ((rs2 & 0x1F)
            << 20) | crate::imm_enc_dec::s_imm_enc(imm);
        Instruction::S(_S(w))
    }

    pub fn new_b(opcode: u32, funct3: u32, rs1: u32, rs2: u32, imm: i32) -> (inst: Instruction)
        ensures
            inst == Instruction::B(_B(b_word(opcode, funct3, rs1, rs2, imm as u32))),
    {
        let w = (opcode & 0x7F) | ((funct3 & 0x7) << 12) | ((rs1 & 0x1F) << 15) | ((rs2 & 0x1F)
            << 20) | b_imm_enc(imm);
        Instruction::B(_B(w))
    }

    pub fn new_u(opcode: u32, rd: u32, imm: u32) -> (inst: Instruction)
        ensures
            inst == Instruction::U(_U(u_word(opcode, rd, imm))),
    {
        // the caller hands the 20-bit upper field; shift it into place
        let w = (opcode & 0x7F) | ((rd & 0x1F) << 7) | ((imm << 12) & 0xFFFF_F000);
        Instruction::U(_U(w))
    }

    pub fn new_j(opcode: u32, rd: u32, imm: i32) -> (inst: Instruction)
        ensures
            inst == Instruction::J(_J(j_word(opcode, rd, imm as u32))),
    {
        let w = (opcode & 0x7F) | ((rd & 0x1F) << 7) | j_imm_enc(imm);
        Instruction::J(_J(w))
    }
}

/// Re-encoding the immediate of an I-format word leaves its opcode, rd,
/// funct3 and rs1 fields as they were.
pub proof fn lemma_i_imm_enc_preserves_fields(w: u32, imm: u32)
    ensures
        opcode_of((w & 0x000F_FFFFu32) | i_enc_spec(imm)) == opcode_of(w),
        rd_of((w & 0x000F_FFFFu32) | i_enc_spec(imm)) == rd_of(w),
        funct3_of((w & 0x000F_FFFFu32) | i_enc_spec(imm)) == funct3_of(w),
        rs1_of((w & 0x000F_FFFFu32) | i_enc_spec(imm)) == rs1_of(w),
{
    let nw = (w & 0x000F_FFFFu32) | i_enc_spec(imm);
    assert(opcode_of(nw) == opcode_of(w) && rd_of(nw) == rd_of(w) && funct3_of(nw) == funct3_of(w)
        && rs1_of(nw) == rs1_of(w)) by (bit_vector)
        requires
            nw == (w & 0x000F_FFFFu32) | i_enc_spec(imm),
    ;
}

/// Re-encoding the immediate of an S-format word leaves its opcode,
/// funct3, rs1 and rs2 fields as they were.
pub proof fn lemma_s_imm_enc_preserves_fields(w: u32, imm: u32)
    ensures
        opcode_of((w & 0x01FF_F07Fu32) | s_enc_spec(imm)) == opcode_of(w),
        funct3_of((w & 0x01FF_F07Fu32) | s_enc_spec(imm)) == funct3_of(w),
        rs1_of((w & 0x01FF_F07Fu32) | s_enc_spec(imm)) == rs1_of(w),
        rs2_of((w & 0x01FF_F07Fu32) | s_enc_spec(imm)) == rs2_of(w),
{
    let nw = (w & 0x01FF_F07Fu32) | s_enc_spec(imm);
    assert(opcode_of(nw) == opcode_of(w) && funct3_of(nw) == funct3_of(w) && rs1_of(nw) == rs1_of(w)
        && rs2_of(nw) == rs2_of(w)) by (bit_vector)
        requires
            nw == (w & 0x01FF_F07Fu32) | s_enc_spec(imm),
    ;
}

/// Re-encoding the immediate of a B-format word leaves its opcode,
/// funct3, rs1 and rs2 fields as they were.
pub proof fn lemma_b_imm_enc_preserves_fields(w: u32, imm: u32)
    ensures
        opcode_of((w & 0x01FF_F07Fu32) | b_enc_spec(imm)) == opcode_of(w),
        funct3_of((w & 0x01FF_F07Fu32) | b_enc_spec(imm)) == funct3_of(w),
        rs1_of((w & 0x01FF_F07Fu32) | b_enc_spec(imm)) == rs1_of(w),
        rs2_of((w & 0x01FF_F07Fu32) | b_enc_spec(imm)) == rs2_of(w),
{
    let nw = (w & 0x01FF_F07Fu32) | b_enc_spec(imm);
    assert(opcode_of(nw) == opcode_of(w) && funct3_of(nw) == funct3_of(w) && rs1_of(nw) == rs1_of(w)
        && rs2_of(nw) == rs2_of(w)) by (bit_vector)
        requires
            nw == (w & 0x01FF_F07Fu32) | b_enc_spec(imm),
    ;
}

/// Re-encoding the immediate of a U-format word leaves its opcode and rd
/// fields as they were.
pub proof fn lemma_u_imm_enc_preserves_fields(w: u32, imm: u32)
    ensures
        opcode_of((w & 0x0000_0FFFu32) | u_enc_spec(imm)) == opcode_of(w),
        rd_of((w & 0x0000_0FFFu32) | u_enc_spec(imm)) == rd_of(w),
{
    let nw = (w & 0x0000_0FFFu32) | u_enc_spec(imm);
    assert(opcode_of(nw) == opcode_of(w) && rd_of(nw) == rd_of(w)) by (bit_vector)
        requires
            nw == (w & 0x0000_0FFFu32) | u_enc_spec(imm),
    ;
}

/// Re-encoding the immediate of a J-format word leaves its opcode and rd
/// fields as they were.
pub proof fn lemma_j_imm_enc_preserves_fields(w: u32, imm: u32)
    ensures
        opcode_of((w & 0x0000_0FFFu32) | j_enc_spec(imm)) == opcode_of(w),
        rd_of((w & 0x0000_0FFFu32) | j_enc_spec(imm)) == rd_of(w),
{
    let nw = (w & 0x0000_0FFFu32) | j_enc_spec(imm);
    assert(opcode_of(nw) == opcode_of(w) && rd_of(nw) == rd_of(w)) by (bit_vector)
        requires
            nw == (w & 0x0000_0FFFu32) | j_enc_spec(imm),
    ;
}

/// Re-encoding the shift amount of a shift-immediate word leaves its
/// opcode, rd, funct3, rs1 and funct7 fields as they were.
pub proof fn lemma_shift_imm_enc_preserves_fields(w: u32, imm: u32)
    ensures
        opcode_of((w & 0xFE0F_FFFFu32) | shift_enc_spec(imm)) == opcode_of(w),
        rd_of((w & 0xFE0F_FFFFu32) | shift_enc_spec(imm)) == rd_of(w),
        funct3_of((w & 0xFE0F_FFFFu32) | shift_enc_spec(imm)) == funct3_of(w),
        rs1_of((w & 0xFE0F_FFFFu32) | shift_enc_spec(imm)) == rs1_of(w),
        funct7_of((w & 0xFE0F_FFFFu32) | shift_enc_spec(imm)) == funct7_of(w),
{
    let nw = (w & 0xFE0F_FFFFu32) | shift_enc_spec(imm);
    assert(opcode_of(nw) == opcode_of(w) && rd_of(nw) == rd_of(w) && funct3_of(nw) == funct3_of(w)
        && rs1_of(nw) == rs1_of(w) && funct7_of(nw) == funct7_of(w)) by (bit_vector)
        requires
            nw == (w & 0xFE0F_FFFFu32) | shift_enc_spec(imm),
    ;
}

} // verus!

verus! {

/// The fields packed by an R-format constructor read back exactly.
pub proof fn lemma_r_word_decodes(opcode: u32, funct3: u32, funct7: u32, rd: u32, rs1: u32, rs2: u32)
    ensures
        opcode_of(r_word(opcode, funct3, funct7, rd, rs1, rs2)) == opcode & 0x7F,
        rd_of(r_word(opcode, funct3, funct7, rd, rs1, rs2)) == rd & 0x1F,
        funct3_of(r_word(opcode, funct3, funct7, rd, rs1, rs2)) == funct3 & 0x7,
        rs1_of(r_word(opcode, funct3, funct7, rd, rs1, rs2)) == rs1 & 0x1F,
        rs2_of(r_word(opcode, funct3, funct7, rd, rs1, rs2)) == rs2 & 0x1F,
        funct7_of(r_word(opcode, funct3, funct7, rd, rs1, rs2)) == funct7 & 0x7F,
{
    let w = r_word(opcode, funct3, funct7, rd, rs1, rs2);
    assert(opcode_of(w) == opcode & 0x7F && rd_of(w) == rd & 0x1F && funct3_of(w) == funct3 & 0x7
        && rs1_of(w) == rs1 & 0x1F && rs2_of(w) == rs2 & 0x1F && funct7_of(w) == funct7 & 0x7F)
        by (bit_vector)
        requires
            w == r_word(opcode, funct3, funct7, rd, rs1, rs2),
    ;
}

/// The fields and the immediate packed by an I-format constructor read
/// back exactly, over the immediate's legal range.
pub proof fn lemma_i_word_decodes(opcode: u32, funct3: u32, rd: u32, rs1: u32, imm: i32)
    requires
        -2048 <= imm <= 2047,
    ensures
        opcode_of(i_word(opcode, funct3, rd, rs1, imm as u32)) == opcode & 0x7F,
        rd_of(i_word(opcode, funct3, rd, rs1, imm as u32)) == rd & 0x1F,
        funct3_of(i_word(opcode, funct3, rd, rs1, imm as u32)) == funct3 & 0x7,
        rs1_of(i_word(opcode, funct3, rd, rs1, imm as u32)) == rs1 & 0x1F,
        i_dec_spec(i_word(opcode, funct3, rd, rs1, imm as u32)) as i32 == imm,
        i_dec_spec(i_word(opcode, funct3, rd, rs1, imm as u32)) == imm as u32,
{
    let w = i_word(opcode, funct3, rd, rs1, imm as u32);
    assert(opcode_of(w) == opcode & 0x7F && rd_of(w) == rd & 0x1F && funct3_of(w) == funct3 & 0x7
        && rs1_of(w) == rs1 & 0x1F && i_dec_spec(w) as i32 == imm && i_dec_spec(w) == imm as u32)
        by (bit_vector)
        requires
            w == i_word(opcode, funct3, rd, rs1, imm as u32),
            -2048 <= imm <= 2047,
    ;
}

/// The fields and the shift amount packed by a shift-immediate
/// constructor read back exactly.
pub proof fn lemma_shift_word_decodes(
    opcode: u32,
    funct3: u32,
    funct7: u32,
    rd: u32,
    rs1: u32,
    shamt: u32,
)
    ensures
        opcode_of(shift_word(opcode, funct3, funct7, rd, rs1, shamt)) == opcode & 0x7F,
        rd_of(shift_word(opcode, funct3, funct7, rd, rs1, shamt)) == rd & 0x1F,
        funct3_of(shift_word(opcode, funct3, funct7, rd, rs1, shamt)) == funct3 & 0x7,
        rs1_of(shift_word(opcode, funct3, funct7, rd, rs1, shamt)) == rs1 & 0x1F,
        funct7_of(shift_word(opcode, funct3, funct7, rd, rs1, shamt)) == funct7 & 0x7F,
        shift_dec_spec(shift_word(opcode, funct3, funct7, rd, rs1, shamt)) == shamt & 0x1F,
{
    let w = shift_word(opcode, funct3, funct7, rd, rs1, shamt);
    assert(opcode_of(w) == opcode & 0x7F && rd_of(w) == rd & 0x1F && funct3_of(w) == funct3 & 0x7
        && rs1_of(w) == rs1 & 0x1F && funct7_of(w) == funct7 & 0x7F && shift_dec_spec(w) == shamt
        & 0x1F) by (bit_vector)
        requires
            w == shift_word(opcode, funct3, funct7, rd, rs1, shamt),
    ;
}

/// The fields and the immediate packed by an S-format constructor read
/// back exactly, over the immediate's legal range.
pub proof fn lemma_s_word_decodes(opcode: u32, funct3: u32, rs1: u32, rs2: u32, imm: i32)
    requires
        -2048 <= imm <= 2047,
    ensures
        opcode_of(s_word(opcode, funct3, rs1, rs2, imm as u32)) == opcode & 0x7F,
        funct3_of(s_word(opcode, funct3, rs1, rs2, imm as u32)) == funct3 & 0x7,
        rs1_of(s_word(opcode, funct3, rs1, rs2, imm as u32)) == rs1 & 0x1F,
        rs2_of(s_word(opcode, funct3, rs1, rs2, imm as u32)) == rs2 & 0x1F,
        s_dec_spec(s_word(opcode, funct3, rs1, rs2, imm as u32)) as i32 == imm,
        s_dec_spec(s_word(opcode, funct3, rs1, rs2, imm as u32)) == imm as u32,
{
    let w = s_word(opcode, funct3, rs1, rs2, imm as u32);
    assert(opcode_of(w) == opcode & 0x7F && funct3_of(w) == funct3 & 0x7 && rs1_of(w) == rs1 & 0x1F
        && rs2_of(w) == rs2 & 0x1F && s_dec_spec(w) as i32 == imm && s_dec_spec(w) == imm as u32)
        by (bit_vector)
        requires
            w == s_word(opcode, funct3, rs1, rs2, imm as u32),
            -2048 <= imm <= 2047,
    ;
}

/// The fields and the immediate packed by a B-format constructor read
/// back exactly, over the even immediate's legal range.
pub proof fn lemma_b_word_decodes(opcode: u32, funct3: u32, rs1: u32, rs2: u32, imm: i32)
    requires
        -4096 <= imm <= 4095,
        imm % 2 == 0,
    ensures
        opcode_of(b_word(opcode, funct3, rs1, rs2, imm as u32)) == opcode & 0x7F,
        funct3_of(b_word(opcode, funct3, rs1, rs2, imm as u32)) == funct3 & 0x7,
        rs1_of(b_word(opcode, funct3, rs1, rs2, imm as u32)) == rs1 & 0x1F,
        rs2_of(b_word(opcode, funct3, rs1, rs2, imm as u32)) == rs2 & 0x1F,
        b_dec_spec(b_word(opcode, funct3, rs1, rs2, imm as u32)) as i32 == imm,
        b_dec_spec(b_word(opcode, funct3, rs1, rs2, imm as u32)) == imm as u32,
{
    let w = b_word(opcode, funct3, rs1, rs2, imm as u32);
    assert(opcode_of(w) == opcode & 0x7F && funct3_of(w) == funct3 & 0x7 && rs1_of(w) == rs1 & 0x1F
        && rs2_of(w) == rs2 & 0x1F && b_dec_spec(w) as i32 == imm && b_dec_spec(w) == imm as u32)
        by (bit_vector)
        requires
            w == b_word(opcode, funct3, rs1, rs2, imm as u32),
            -4096 <= imm <= 4095,
            imm % 2 == 0,
    ;
}

/// The fields and the upper immediate packed by a U-format constructor
/// read back exactly; the caller's 20-bit value comes back shifted into
/// its architectural place.
pub proof fn lemma_u_word_decodes(opcode: u32, rd: u32, imm: u32)
    ensures
        opcode_of(u_word(opcode, rd, imm)) == opcode & 0x7F,
        rd_of(u_word(opcode, rd, imm)) == rd & 0x1F,
        u_dec_spec(u_word(opcode, rd, imm)) == imm << 12,
{
    let w = u_word(opcode, rd, imm);
    assert(opcode_of(w) == opcode & 0x7F && rd_of(w) == rd & 0x1F && u_dec_spec(w) == imm << 12)
        by (bit_vector)
        requires
            w == u_word(opcode, rd, imm),
    ;
}

/// The fields and the immediate packed by a J-format constructor read
/// back exactly, over the even immediate's legal range.
pub proof fn lemma_j_word_decodes(opcode: u32, rd: u32, imm: i32)
    requires
        -1048576 <= imm <= 1048575,
        imm % 2 == 0,
    ensures
        opcode_of(j_word(opcode, rd, imm as u32)) == opcode & 0x7F,
        rd_of(j_word(opcode, rd, imm as u32)) == rd & 0x1F,
        j_dec_spec(j_word(opcode, rd, imm as u32)) as i32 == imm,
        j_dec_spec(j_word(opcode, rd, imm as u32)) == imm as u32,
{
    let w = j_word(opcode, rd, imm as u32);
    assert(opcode_of(w) == opcode & 0x7F && rd_of(w) == rd & 0x1F && j_dec_spec(w) as i32 == imm
        && j_dec_spec(w) == imm as u32) by (bit_vector)
        requires
            w == j_word(opcode, rd, imm as u32),
            -1048576 <= imm <= 1048575,
            imm % 2 == 0,
    ;
}

} // verus!
