//! Exhaustive self-checks of the immediate codec, verified rather than
//! merely executed: every assertion below is discharged statically from the
//! round-trip laws, so the loops cannot fail.
//!
//! Also the format-generic immediate accessors of [`Instruction`]: encode
//! or decode through whichever format the instruction was built with.

use vstd::prelude::*;

verus! {

use crate::imm_enc_dec::{
    b_dec_spec,
    b_enc_spec,
    b_imm_dec,
    b_imm_enc,
    i_dec_spec,
    i_enc_spec,
    i_imm_dec,
    i_imm_enc,
    j_dec_spec,
    j_enc_spec,
    j_imm_dec,
    j_imm_enc,
    lemma_b_imm_round_trip,
    lemma_i_imm_round_trip,
    lemma_j_imm_round_trip,
    lemma_s_imm_round_trip,
    lemma_shift_imm_round_trip,
    lemma_u_imm_round_trip,
    s_dec_spec,
    s_enc_spec,
    s_imm_dec,
    s_imm_enc,
    shift_dec_spec,
    shift_enc_spec,
    shift_imm_dec,
    shift_imm_enc,
    u_dec_spec,
    u_enc_spec,
    u_imm_dec,
    u_imm_enc,
};
use crate::instructions::Instruction;
use crate::instructions::{_B, _I, _J, _S, _Shift, _U};

/// What encoding a signed immediate into an instruction leaves behind:
/// the format's immediate bits are cleared and re-filled, the rest kept.
pub open spec fn imm_enc_s_spec(inst: Instruction, imm: u32) -> Instruction {
    match inst {
        Instruction::I(i) => Instruction::I(_I((i.0 & 0x000F_FFFF) | i_enc_spec(imm))),
        Instruction::S(s) => Instruction::S(_S((s.0 & 0x01FF_F07F) | s_enc_spec(imm))),
        Instruction::B(b) => Instruction::B(_B((b.0 & 0x01FF_F07F) | b_enc_spec(imm))),
        Instruction::J(j) => Instruction::J(_J((j.0 & 0x0000_0FFF) | j_enc_spec(imm))),
        _ => inst,
    }
}

/// The signed immediate an instruction carries, decoded through its format.
pub open spec fn imm_dec_s_spec(inst: Instruction) -> u32 {
    match inst {
        Instruction::I(i) => i_dec_spec(i.0),
        Instruction::S(s) => s_dec_spec(s.0),
        Instruction::B(b) => b_dec_spec(b.0),
        Instruction::J(j) => j_dec_spec(j.0),
        _ => 0,
    }
}

/// What encoding an unsigned immediate into an instruction leaves behind.
pub open spec fn imm_enc_u_spec(inst: Instruction, imm: u32) -> Instruction {
    match inst {
        Instruction::U(u) => Instruction::U(_U((u.0 & 0x0000_0FFF) | u_enc_spec(imm))),
        Instruction::Shift(s) => Instruction::Shift(
            _Shift((s.0 & 0xFE0F_FFFF) | shift_enc_spec(imm)),
        ),
        _ => inst,
    }
}

/// The unsigned immediate an instruction carries, decoded through its
/// format.
pub open spec fn imm_dec_u_spec(inst: Instruction) -> u32 {
    match inst {
        Instruction::U(u) => u_dec_spec(u.0),
        Instruction::Shift(s) => shift_dec_spec(s.0),
        _ => 0,
    }
}

impl Instruction {
    /// Encode a signed immediate through whichever of the I, S, B or J
    /// formats this instruction was built with.
    pub fn imm_enc_s(&mut self, imm: i32)
        requires
            *old(self) is I || *old(self) is S || *old(self) is B || *old(self) is J,
        ensures
            *final(self) == imm_enc_s_spec(*old(self), imm as u32),
    {
        let cur = *self;
        match cur {
            Instruction::I(mut i) => {
                i.imm_enc(imm);
                *self = Instruction::I(i);
            },
            Instruction::S(mut s) => {
                s.imm_enc(imm);
                *self = Instruction::S(s);
            },
            Instruction::B(mut b) => {
                b.imm_enc(imm);
                *self = Instruction::B(b);
            },
            Instruction::J(mut j) => {
                j.imm_enc(imm);
                *self = Instruction::J(j);
            },
            _ => {
                proof {
                    assert(false);
                }
            },
        }
    }

    /// Encode an unsigned immediate through the U or shift format.
    pub fn imm_enc_u(&mut self, imm: u32)
        requires
            *old(self) is U || *old(self) is Shift,
        ensures
            *final(self) == imm_enc_u_spec(*old(self), imm),
    {
        let cur = *self;
        match cur {
            Instruction::U(mut u) => {
                u.imm_enc(imm);
                *self = Instruction::U(u);
            },
            Instruction::Shift(mut s) => {
                s.imm_enc(imm);
                *self = Instruction::Shift(s);
            },
            _ => {
                proof {
                    assert(false);
                }
            },
        }
    }

    /// Decode the signed immediate of an I, S, B or J format instruction.
    pub fn imm_dec_s(&self) -> (r: i32)
        requires
            *self is I || *self is S || *self is B || *self is J,
        ensures
            r as u32 == imm_dec_s_spec(*self),
            r == imm_dec_s_spec(*self) as i32,
    {
        match self {
            Instruction::I(i) => i.imm_dec(),
            Instruction::S(s) => s.imm_dec(),
            Instruction::B(b) => b.imm_dec(),
            Instruction::J(j) => j.imm_dec(),
            _ => {
                proof {
                    assert(false);
                }
                vstd::pervasive::unreached()
            },
        }
    }

    /// Decode the unsigned immediate of a U or shift format instruction.
    pub fn imm_dec_u(&self) -> (r: u32)
        requires
            *self is U || *self is Shift,
        ensures
            r == imm_dec_u_spec(*self),
    {
        match self {
            Instruction::U(u) => u.imm_dec(),
            Instruction::Shift(s) => s.imm_dec(),
            _ => {
                proof {
                    assert(false);
                }
                vstd::pervasive::unreached()
            },
        }
    }
}

/// Walk every legal immediate of every format through its encoder and
/// decoder, over words whose other fields are all ones. Every round trip
/// is proved to come back exact.
#[verifier::loop_isolation(false)]
pub fn tests_imm() {
    let inst_imm_i: u32 = 0b000000000000_11111_111_11111_1111111;
    let inst_imm_s: u32 = 0b0000000_11111_11111_111_00000_1111111;
    let inst_imm_b: u32 = 0b0000000_11111_11111_111_00000_1111111;
    let inst_imm_u: u32 = 0b00000000000000000000_11111_1111111;
    let inst_imm_j: u32 = 0b00000000000000000000_11111_1111111;
    let inst_imm_shift: u32 = 0b1111111_00000_11111_111_11111_1111111;
    proof {
        assert(0b000000000000_11111_111_11111_1111111u32 & 0xFFF0_0000 == 0
            && 0b0000000_11111_11111_111_00000_1111111u32 & 0xFE00_0F80 == 0
            && 0b00000000000000000000_11111_1111111u32 & 0xFFFF_F000 == 0
            && 0b1111111_00000_11111_111_11111_1111111u32 & 0x01F0_0000 == 0) by (bit_vector);
    }

    let mut x: i32 = -2048;
    while x <= 2047
        invariant
            -2048 <= x <= 2048,
        decreases 2048 - x,
    {
        let w = i_imm_enc(x) | inst_imm_i;
        proof {
            lemma_i_imm_round_trip(x, inst_imm_i);
        }
        let d = i_imm_dec(w);
        assert(d == x);
        x = x + 1;
    }

    let mut x: i32 = -2048;
    while x <= 2047
        invariant
            -2048 <= x <= 2048,
        decreases 2048 - x,
    {
        let w = s_imm_enc(x) | inst_imm_s;
        proof {
            lemma_s_imm_round_trip(x, inst_imm_s);
        }
        let d = s_imm_dec(w);
        assert(d == x);
        x = x + 1;
    }

    let mut x: i32 = -4096;
    while x <= 4095
        invariant
            -4096 <= x <= 4096,
            x % 2 == 0,
        decreases 4096 - x,
    {
        let w = b_imm_enc(x) | inst_imm_b;
        proof {
            lemma_b_imm_round_trip(x, inst_imm_b);
        }
        let d = b_imm_dec(w);
        assert(d == x);
        x = x + 2;
    }

    let mut x: u32 = 0;
    let mut done: bool = false;
    while !done
        invariant
            x % 0x1000 == 0,
            x <= 0xFFFF_E000,
        decreases 0xFFFF_E000u32 - x + if done {
            0int
        } else {
            1int
        },
    {
        let w = u_imm_enc(x) | inst_imm_u;
        proof {
            assert(x & 0xFFF == 0) by (bit_vector)
                requires
                    x % 0x1000 == 0,
            ;
            lemma_u_imm_round_trip(x, inst_imm_u);
        }
        let d = u_imm_dec(w);
        assert(d == x);
        if x == 0xFFFF_E000 {
            done = true;
        } else {
            x = x + 0x1000;
        }
    }

    let mut x: i32 = -1048576;
    while x <= 1048575
        invariant
            -1048576 <= x <= 1048576,
            x % 2 == 0,
        decreases 1048576 - x,
    {
        let w = j_imm_enc(x) | inst_imm_j;
        proof {
            lemma_j_imm_round_trip(x, inst_imm_j);
        }
        let d = j_imm_dec(w);
        assert(d == x);
        x = x + 2;
    }

    let mut x: u32 = 0;
    while x <= 31
        invariant
            x <= 32,
        decreases 32 - x,
    {
        let w = shift_imm_enc(x) | inst_imm_shift;
        proof {
            lemma_shift_imm_round_trip(x, inst_imm_shift);
        }
        let d = shift_imm_dec(w);
        assert(d == x);
        x = x + 1;
    }
}

} // verus!

verus! {

use crate::instructions::bits_of;

/// The immediate bit range a format's encoder clears is disjoint from
/// what its keep-mask keeps.
proof fn lemma_keep_masks(a: u32)
    ensures
        (a & 0x000F_FFFFu32) & 0xFFF0_0000 == 0,
        (a & 0x01FF_F07Fu32) & 0xFE00_0F80 == 0,
        (a & 0x0000_0FFFu32) & 0xFFFF_F000 == 0,
        (a & 0xFE0F_FFFFu32) & 0x01F0_0000 == 0,
{
    assert((a & 0x000F_FFFFu32) & 0xFFF0_0000 == 0 && (a & 0x01FF_F07Fu32) & 0xFE00_0F80 == 0 && (a
        & 0x0000_0FFFu32) & 0xFFFF_F000 == 0 && (a & 0xFE0F_FFFFu32) & 0x01F0_0000 == 0)
        by (bit_vector);
}

/// Writing the kept bits on either side of the freshly encoded immediate
/// gives the same word.
proof fn lemma_or_comm(a: u32, b: u32)
    ensures
        a | b == b | a,
{
    assert(a | b == b | a) by (bit_vector);
}

/// Walk every legal immediate of every format through the
/// [`Instruction`]-level encoder and decoder, over instructions whose
/// other fields are all ones, and check the round trip.
#[verifier::loop_isolation(false)]
pub fn tests_inst_imm() {
    let inst_imm_i = Instruction::new_i(0b1111111, 0b111, 31, 31, 0b000000000000);
    let inst_imm_s = Instruction::new_s(0b1111111, 0b111, 31, 31, 0b000000000000);
    let inst_imm_b = Instruction::new_b(0b1111111, 0b111, 31, 31, 0b000000000000);
    let inst_imm_u = Instruction::new_u(0b1111111, 31, 0b00000000000000000000);
    let inst_imm_j = Instruction::new_j(0b1111111, 31, 0b00000000000000000000);
    let inst_imm_shift = Instruction::new_shift(0b1111111, 0b111, 0b1111111, 31, 31, 0b00000);

    let mut x: i32 = -2048;
    while x <= 2047
        invariant
            -2048 <= x <= 2048,
        decreases 2048 - x,
    {
        let mut e = inst_imm_i;
        e.imm_enc_s(x);
        let d = e.imm_dec_s();
        proof {
            lemma_keep_masks(bits_of(inst_imm_i));
            lemma_or_comm(bits_of(inst_imm_i) & 0x000F_FFFF, i_enc_spec(x as u32));
            lemma_i_imm_round_trip(x, bits_of(inst_imm_i) & 0x000F_FFFF);
        }
        assert(d == x);
        x = x + 1;
    }

    let mut x: i32 = -2048;
    while x <= 2047
        invariant
            -2048 <= x <= 2048,
        decreases 2048 - x,
    {
        let mut e = inst_imm_s;
        e.imm_enc_s(x);
        let d = e.imm_dec_s();
        proof {
            lemma_keep_masks(bits_of(inst_imm_s));
            lemma_or_comm(bits_of(inst_imm_s) & 0x01FF_F07F, s_enc_spec(x as u32));
            lemma_s_imm_round_trip(x, bits_of(inst_imm_s) & 0x01FF_F07F);
        }
        assert(d == x);
        x = x + 1;
    }

    let mut x: i32 = -4096;
    while x <= 4095
        invariant
            -4096 <= x <= 4096,
            x % 2 == 0,
        decreases 4096 - x,
    {
        let mut e = inst_imm_b;
        e.imm_enc_s(x);
        let d = e.imm_dec_s();
        proof {
            lemma_keep_masks(bits_of(inst_imm_b));
            lemma_or_comm(bits_of(inst_imm_b) & 0x01FF_F07F, b_enc_spec(x as u32));
            lemma_b_imm_round_trip(x, bits_of(inst_imm_b) & 0x01FF_F07F);
        }
        assert(d == x);
        x = x + 2;
    }

    let mut x: u32 = 0;
    let mut done: bool = false;
    while !done
        invariant
            x % 0x1000 == 0,
            x <= 0xFFFF_E000,
        decreases 0xFFFF_E000u32 - x + if done {
            0int
        } else {
            1int
        },
    {
        let mut e = inst_imm_u;
        e.imm_enc_u(x);
        let d = e.imm_dec_u();
        proof {
            assert(x & 0xFFF == 0) by (bit_vector)
                requires
                    x % 0x1000 == 0,
            ;
            lemma_keep_masks(bits_of(inst_imm_u));
            lemma_or_comm(bits_of(inst_imm_u) & 0x0000_0FFF, u_enc_spec(x));
            lemma_u_imm_round_trip(x, bits_of(inst_imm_u) & 0x0000_0FFF);
        }
        assert(d == x);
        if x == 0xFFFF_E000 {
            done = true;
        } else {
            x = x + 0x1000;
        }
    }

    let mut x: i32 = -1048576;
    while x <= 1048575
        invariant
            -1048576 <= x <= 1048576,
            x % 2 == 0,
        decreases 1048576 - x,
    {
        let mut e = inst_imm_j;
        e.imm_enc_s(x);
        let d = e.imm_dec_s();
        proof {
            lemma_keep_masks(bits_of(inst_imm_j));
            lemma_or_comm(bits_of(inst_imm_j) & 0x0000_0FFF, j_enc_spec(x as u32));
            lemma_j_imm_round_trip(x, bits_of(inst_imm_j) & 0x0000_0FFF);
        }
        assert(d == x);
        x = x + 2;
    }

    let mut x: u32 = 0;
    while x <= 31
        invariant
            x <= 32,
        decreases 32 - x,
    {
        let mut e = inst_imm_shift;
        e.imm_enc_u(x);
        let d = e.imm_dec_u();
        proof {
            lemma_keep_masks(bits_of(inst_imm_shift));
            lemma_or_comm(bits_of(inst_imm_shift) & 0xFE0F_FFFF, shift_enc_spec(x));
            lemma_shift_imm_round_trip(x, bits_of(inst_imm_shift) & 0xFE0F_FFFF);
        }
        assert(d == x);
        x = x + 1;
    }
}

} // verus!
