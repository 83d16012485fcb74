//! The immediate codec: encoders and decoders for the six immediate layouts
//! of the RV32I instruction formats (I, S, B, U, J and the shift amount).
//!
//! Every encoder places the immediate's bits at their scattered positions in
//! a 32-bit instruction word and leaves all other bits zero; every decoder
//! reads those positions back and sign-extends where the format is signed.
//! The round-trip laws at the bottom state that decoding an encoded
//! immediate recovers it over the format's full legal range.

use vstd::prelude::*;

verus! {

/// Sign-extend the low `bits` bits of `w` to a full 32-bit two's-complement
/// value, kept as an unsigned word.
pub open spec fn sext(w: u32, bits: u32) -> u32
    recommends
        0 < bits <= 32,
{
    if bits == 32 {
        w
    } else if (w >> ((bits - 1) as u32)) & 1 == 1 {
        w | (0xFFFF_FFFFu32 << bits)
    } else {
        w & !(0xFFFF_FFFFu32 << bits)
    }
}

/// Sign-extend the low `bits` bits of `value`, read as a two's-complement
/// quantity of that width.
pub fn sign_extend(value: u32, bits: u32) -> (r: i32)
    requires
        0 < bits <= 32,
    ensures
        r as u32 == sext(value, bits),
        r == sext(value, bits) as i32,
{
    let shift = 32 - bits;
    let r = ((value << shift) as i32) >> shift;
    proof {
        let rr = ((value << ((32 - bits) as u32)) as i32) >> ((32 - bits) as u32);
        assert(rr as u32 == sext(value, bits) && rr == sext(value, bits) as i32) by (bit_vector)
            requires
                0 < bits <= 32,
                rr == ((value << ((32 - bits) as u32)) as i32) >> ((32 - bits) as u32),
        ;
    }
    r
}

/// I-format: the 12-bit immediate sits in bits [31:20].
pub open spec fn i_enc_spec(imm: u32) -> u32 {
    (imm & 0xFFF) << 20
}

pub open spec fn i_dec_spec(w: u32) -> u32 {
    sext(w >> 20, 12)
}

/// S-format: immediate bits [4:0] sit in [11:7], bits [11:5] in [31:25].
pub open spec fn s_enc_spec(imm: u32) -> u32 {
    ((imm & 0x1F) << 7) | (((imm >> 5) & 0x7F) << 25)
}

pub open spec fn s_dec_spec(w: u32) -> u32 {
    sext(((w >> 7) & 0x1F) | (((w >> 25) & 0x7F) << 5), 12)
}

/// B-format: the 13-bit immediate is even; its bit 0 is not stored. Bit 11
/// goes to [7], bits [4:1] to [11:8], bits [10:5] to [30:25], bit 12 to [31].
pub open spec fn b_enc_spec(imm: u32) -> u32 {
    let d = imm >> 1;
    (((d >> 10) & 1) << 7) | ((d & 0xF) << 8) | (((d >> 4) & 0x3F) << 25) | (((d >> 11) & 1) << 31)
}

pub open spec fn b_dec_spec(w: u32) -> u32 {
    sext(
        (((w >> 8) & 0xF) << 1) | (((w >> 25) & 0x3F) << 5) | (((w >> 7) & 1) << 11) | (((w >> 31)
            & 1) << 12),
        13,
    )
}

/// U-format: bits [31:12] of the immediate are stored in [31:12]; the low
/// twelve bits are zero on both sides.
pub open spec fn u_enc_spec(imm: u32) -> u32 {
    imm & 0xFFFF_F000
}

pub open spec fn u_dec_spec(w: u32) -> u32 {
    w & 0xFFFF_F000
}

/// J-format: the 21-bit immediate is even; its bit 0 is not stored. Bits
/// [10:1] go to [30:21], bit 11 to [20], bits [19:12] to [19:12], bit 20 to
/// [31].
pub open spec fn j_enc_spec(imm: u32) -> u32 {
    let d = imm >> 1;
    ((d & 0x3FF) << 21) | (((d >> 10) & 1) << 20) | (((d >> 11) & 0xFF) << 12) | (((d >> 19) & 1)
        << 31)
}

pub open spec fn j_dec_spec(w: u32) -> u32 {
    sext(
        (((w >> 21) & 0x3FF) << 1) | (((w >> 20) & 1) << 11) | (((w >> 12) & 0xFF) << 12) | (((w
            >> 31) & 1) << 20),
        21,
    )
}

/// Shift-immediate format: a 5-bit unsigned shift amount in bits [24:20].
pub open spec fn shift_enc_spec(imm: u32) -> u32 {
    (imm & 0x1F) << 20
}

pub open spec fn shift_dec_spec(w: u32) -> u32 {
    (w >> 20) & 0x1F
}

pub fn i_imm_enc(imm: i32) -> (r: u32)
    ensures
        r == i_enc_spec(imm as u32),
{
    ((imm as u32) & 0xFFF) << 20
}

pub fn i_imm_dec(w: u32) -> (r: i32)
    ensures
        r as u32 == i_dec_spec(w),
        r == i_dec_spec(w) as i32,
{
    sign_extend(w >> 20, 12)
}

pub fn s_imm_enc(imm: i32) -> (r: u32)
    ensures
        r == s_enc_spec(imm as u32),
{
    let v = imm as u32;
    ((v & 0x1F) << 7) | (((v >> 5) & 0x7F) << 25)
}

pub fn s_imm_dec(w: u32) -> (r: i32)
    ensures
        r as u32 == s_dec_spec(w),
        r == s_dec_spec(w) as i32,
{
    sign_extend(((w >> 7) & 0x1F) | (((w >> 25) & 0x7F) << 5), 12)
}

pub fn b_imm_enc(imm: i32) -> (r: u32)
    ensures
        r == b_enc_spec(imm as u32),
{
    let d = (imm as u32) >> 1;
    (((d >> 10) & 1) << 7) | ((d & 0xF) << 8) | (((d >> 4) & 0x3F) << 25) | (((d >> 11) & 1) << 31)
}

pub fn b_imm_dec(w: u32) -> (r: i32)
    ensures
        r as u32 == b_dec_spec(w),
        r == b_dec_spec(w) as i32,
{
    sign_extend(
        (((w >> 8) & 0xF) << 1) | (((w >> 25) & 0x3F) << 5) | (((w >> 7) & 1) << 11) | (((w >> 31)
            & 1) << 12),
        13,
    )
}

pub fn u_imm_enc(imm: u32) -> (r: u32)
    ensures
        r == u_enc_spec(imm),
{
    imm & 0xFFFF_F000
}

pub fn u_imm_dec(w: u32) -> (r: u32)
    ensures
        r == u_dec_spec(w),
{
    w & 0xFFFF_F000
}

pub fn j_imm_enc(imm: i32) -> (r: u32)
    ensures
        r == j_enc_spec(imm as u32),
{
    let d = (imm as u32) >> 1;
    ((d & 0x3FF) << 21) | (((d >> 10) & 1) << 20) | (((d >> 11) & 0xFF) << 12) | (((d >> 19) & 1)
        << 31)
}

pub fn j_imm_dec(w: u32) -> (r: i32)
    ensures
        r as u32 == j_dec_spec(w),
        r == j_dec_spec(w) as i32,
{
    sign_extend(
        (((w >> 21) & 0x3FF) << 1) | (((w >> 20) & 1) << 11) | (((w >> 12) & 0xFF) << 12) | (((w
            >> 31) & 1) << 20),
        21,
    )
}

pub fn shift_imm_enc(imm: u32) -> (r: u32)
    ensures
        r == shift_enc_spec(imm),
{
    (imm & 0x1F) << 20
}

pub fn shift_imm_dec(w: u32) -> (r: u32)
    ensures
        r == shift_dec_spec(w),
{
    (w >> 20) & 0x1F
}

/// Round trip for the I-format immediate: decoding an encoded 12-bit signed
/// immediate recovers it, whatever other bits the word carries outside the
/// immediate's range.
pub proof fn lemma_i_imm_round_trip(imm: i32, rest: u32)
    requires
        -2048 <= imm <= 2047,
        rest & 0xFFF0_0000 == 0,
    ensures
        i_dec_spec(i_enc_spec(imm as u32) | rest) == imm as u32,
        i_dec_spec(i_enc_spec(imm as u32) | rest) as i32 == imm,
{
    assert(i_dec_spec(i_enc_spec(imm as u32) | rest) == imm as u32 && i_dec_spec(i_enc_spec(
        imm as u32) | rest) as i32 == imm) by (bit_vector)
        requires
            -2048 <= imm <= 2047,
            rest & 0xFFF0_0000 == 0,
    ;
}

/// Round trip for the S-format immediate over the 12-bit signed range.
pub proof fn lemma_s_imm_round_trip(imm: i32, rest: u32)
    requires
        -2048 <= imm <= 2047,
        rest & 0xFE00_0F80 == 0,
    ensures
        s_dec_spec(s_enc_spec(imm as u32) | rest) == imm as u32,
        s_dec_spec(s_enc_spec(imm as u32) | rest) as i32 == imm,
{
    assert(s_dec_spec(s_enc_spec(imm as u32) | rest) == imm as u32 && s_dec_spec(s_enc_spec(
        imm as u32) | rest) as i32 == imm) by (bit_vector)
        requires
            -2048 <= imm <= 2047,
            rest & 0xFE00_0F80 == 0,
    ;
}

/// Round trip for the B-format immediate over the even 13-bit signed range.
pub proof fn lemma_b_imm_round_trip(imm: i32, rest: u32)
    requires
        -4096 <= imm <= 4095,
        imm % 2 == 0,
        rest & 0xFE00_0F80 == 0,
    ensures
        b_dec_spec(b_enc_spec(imm as u32) | rest) == imm as u32,
        b_dec_spec(b_enc_spec(imm as u32) | rest) as i32 == imm,
{
    assert(b_dec_spec(b_enc_spec(imm as u32) | rest) == imm as u32 && b_dec_spec(b_enc_spec(
        imm as u32) | rest) as i32 == imm) by (bit_vector)
        requires
            -4096 <= imm <= 4095,
            imm % 2 == 0,
            rest & 0xFE00_0F80 == 0,
    ;
}

/// Round trip for the U-format immediate over the 4096-aligned range.
pub proof fn lemma_u_imm_round_trip(imm: u32, rest: u32)
    requires
        imm & 0xFFF == 0,
        rest & 0xFFFF_F000 == 0,
    ensures
        u_dec_spec(u_enc_spec(imm) | rest) == imm,
{
    assert(u_dec_spec(u_enc_spec(imm) | rest) == imm) by (bit_vector)
        requires
            imm & 0xFFF == 0,
            rest & 0xFFFF_F000 == 0,
    ;
}

/// Round trip for the J-format immediate over the even 21-bit signed range.
pub proof fn lemma_j_imm_round_trip(imm: i32, rest: u32)
    requires
        -1048576 <= imm <= 1048575,
        imm % 2 == 0,
        rest & 0xFFFF_F000 == 0,
    ensures
        j_dec_spec(j_enc_spec(imm as u32) | rest) == imm as u32,
        j_dec_spec(j_enc_spec(imm as u32) | rest) as i32 == imm,
{
    assert(j_dec_spec(j_enc_spec(imm as u32) | rest) == imm as u32 && j_dec_spec(j_enc_spec(
        imm as u32) | rest) as i32 == imm) by (bit_vector)
        requires
            -1048576 <= imm <= 1048575,
            imm % 2 == 0,
            rest & 0xFFFF_F000 == 0,
    ;
}

/// Round trip for the 5-bit shift amount.
pub proof fn lemma_shift_imm_round_trip(imm: u32, rest: u32)
    requires
        imm <= 31,
        rest & 0x01F0_0000 == 0,
    ensures
        shift_dec_spec(shift_enc_spec(imm) | rest) == imm,
{
    assert(shift_dec_spec(shift_enc_spec(imm) | rest) == imm) by (bit_vector)
        requires
            imm <= 31,
            rest & 0x01F0_0000 == 0,
    ;
}

} // verus!
