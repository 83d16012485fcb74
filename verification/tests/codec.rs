//! Round-trip and field-independence checks of the immediate codec, run
//! over the formats' full legal ranges.

use rv32i_emu::imm_enc_dec::{
    b_imm_dec, b_imm_enc, i_imm_dec, i_imm_enc, j_imm_dec, j_imm_enc, s_imm_dec, s_imm_enc,
    shift_imm_dec, shift_imm_enc, sign_extend, u_imm_dec, u_imm_enc,
};
use rv32i_emu::instructions::{Instruction, _B, _I, _J, _S, _Shift, _U};

const REST_I: u32 = 0b000000000000_11111_111_11111_1111111;
const REST_S: u32 = 0b0000000_11111_11111_111_00000_1111111;
const REST_U: u32 = 0b00000000000000000000_11111_1111111;
const REST_SHIFT: u32 = 0b1111111_00000_11111_111_11111_1111111;

#[test]
fn i_round_trip_full_range() {
    for x in -2048i32..=2047 {
        assert_eq!(i_imm_dec(i_imm_enc(x) | REST_I), x, "I {}", x);
    }
}

#[test]
fn s_round_trip_full_range() {
    for x in -2048i32..=2047 {
        assert_eq!(s_imm_dec(s_imm_enc(x) | REST_S), x, "S {}", x);
    }
}

#[test]
fn b_round_trip_full_even_range() {
    for x in (-4096i32..=4094).step_by(2) {
        assert_eq!(b_imm_dec(b_imm_enc(x) | REST_S), x, "B {}", x);
    }
}

#[test]
fn u_round_trip_full_aligned_range() {
    let mut x: u32 = 0;
    loop {
        assert_eq!(u_imm_dec(u_imm_enc(x) | REST_U), x, "U {}", x);
        if x == 0xFFFF_E000 {
            break;
        }
        x += 0x1000;
    }
}

#[test]
fn j_round_trip_full_even_range() {
    for x in (-1048576i32..=1048574).step_by(2) {
        assert_eq!(j_imm_dec(j_imm_enc(x) | REST_U), x, "J {}", x);
    }
}

#[test]
fn shift_round_trip_full_range() {
    for x in 0u32..=31 {
        assert_eq!(shift_imm_dec(shift_imm_enc(x) | REST_SHIFT), x, "Shift {}", x);
    }
}

#[test]
fn golden_encodings() {
    // addi t0, zero, 291
    let w = rv32i_emu::inst_defs::inst_addi(5, 0, 291).get_bits();
    assert_eq!(w, 0x1230_0293);
    // lui t1, 0x12345
    let w = rv32i_emu::inst_defs::inst_lui(6, 0x12345).get_bits();
    assert_eq!(w, 0x1234_5337);
    // add t2, t0, t1
    let w = rv32i_emu::inst_defs::inst_add(7, 5, 6).get_bits();
    assert_eq!(w, 0x0062_83B3);
    // ecall and ebreak
    assert_eq!(rv32i_emu::inst_defs::inst_ecall().get_bits(), 0x0000_0073);
    assert_eq!(rv32i_emu::inst_defs::inst_ebreak().get_bits(), 0x0010_0073);
}

#[test]
fn imm_enc_keeps_other_fields_i() {
    let mut i = _I(0);
    if let Instruction::I(built) = Instruction::new_i(0x67, 0b101, 13, 21, 0) {
        i = built;
    }
    let (op0, rd0, f30, rs10) = (i.opcode(), i.rd(), i.funct3(), i.rs1());
    let mut changed = i;
    changed.imm_enc(-77);
    assert_eq!(changed.opcode(), op0);
    assert_eq!(changed.rd(), rd0);
    assert_eq!(changed.funct3(), f30);
    assert_eq!(changed.rs1(), rs10);
    assert_eq!(changed.imm_dec(), -77);
}

#[test]
fn imm_enc_keeps_other_fields_b() {
    let mut b = _B(0);
    if let Instruction::B(built) = Instruction::new_b(0x63, 0b110, 9, 27, 0) {
        b = built;
    }
    let (op0, f30, rs10, rs20) = (b.opcode(), b.funct3(), b.rs1(), b.rs2());
    let mut changed = b;
    changed.imm_enc(-4096);
    assert_eq!(changed.opcode(), op0);
    assert_eq!(changed.funct3(), f30);
    assert_eq!(changed.rs1(), rs10);
    assert_eq!(changed.rs2(), rs20);
    assert_eq!(changed.imm_dec(), -4096);
}

#[test]
fn imm_enc_keeps_other_fields_j_u_s_shift() {
    let mut j = _J(0);
    if let Instruction::J(built) = Instruction::new_j(0x6F, 18, 0) {
        j = built;
    }
    let (op0, rd0) = (j.opcode(), j.rd());
    let mut changed = j;
    changed.imm_enc(-2);
    assert_eq!(changed.opcode(), op0);
    assert_eq!(changed.rd(), rd0);
    assert_eq!(changed.imm_dec(), -2);

    let mut u = _U(0);
    if let Instruction::U(built) = Instruction::new_u(0x37, 30, 0) {
        u = built;
    }
    let mut changed = u;
    changed.imm_enc(0xABCD_E000);
    assert_eq!(changed.opcode(), u.opcode());
    assert_eq!(changed.rd(), u.rd());
    assert_eq!(changed.imm_dec(), 0xABCD_E000);

    let mut s = _S(0);
    if let Instruction::S(built) = Instruction::new_s(0x23, 0b010, 11, 22, 0) {
        s = built;
    }
    let mut changed = s;
    changed.imm_enc(2047);
    assert_eq!(changed.opcode(), s.opcode());
    assert_eq!(changed.funct3(), s.funct3());
    assert_eq!(changed.rs1(), s.rs1());
    assert_eq!(changed.rs2(), s.rs2());
    assert_eq!(changed.imm_dec(), 2047);

    let mut sh = _Shift(0);
    if let Instruction::Shift(built) = Instruction::new_shift(0x13, 0b001, 0, 3, 4, 0) {
        sh = built;
    }
    let mut changed = sh;
    changed.imm_enc(31);
    assert_eq!(changed.opcode(), sh.opcode());
    assert_eq!(changed.rd(), sh.rd());
    assert_eq!(changed.funct3(), sh.funct3());
    assert_eq!(changed.rs1(), sh.rs1());
    assert_eq!(changed.funct7(), sh.funct7());
    assert_eq!(changed.imm_dec(), 31);
}

#[test]
fn sign_extend_widths() {
    assert_eq!(sign_extend(0x81, 8), -127);
    assert_eq!(sign_extend(0x7F, 8), 127);
    assert_eq!(sign_extend(0x8001, 16), -32767);
    assert_eq!(sign_extend(0xFFFF_FFFF, 32), -1);
    assert_eq!(sign_extend(0, 1), 0);
    assert_eq!(sign_extend(1, 1), -1);
}
