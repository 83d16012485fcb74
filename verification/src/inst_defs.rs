//! One constructor per RV32I mnemonic. Each fixes the opcode, funct3 and
//! (where applicable) funct7 constants of its instruction and packs the
//! caller's register and immediate operands into a fresh 32-bit word.

use vstd::prelude::*;

verus! {

use crate::instructions::{
    Instruction,
    _B,
    _I,
    _J,
    _R,
    _S,
    _Shift,
    _U,
    b_word,
    i_word,
    j_word,
    r_word,
    s_word,
    shift_word,
    u_word,
};
use crate::types::{
    FUNCT3_000,
    FUNCT3_001,
    FUNCT3_010,
    FUNCT3_011,
    FUNCT3_100,
    FUNCT3_101,
    FUNCT3_110,
    FUNCT3_111,
    FUNCT7_0000000,
    FUNCT7_0100000,
    OPCODE_ALU_AND_SHIFT_IMM,
    OPCODE_ALU_REGISTER,
    OPCODE_AUIPC,
    OPCODE_BRANCH,
    OPCODE_E_AND_SYSTEM,
    OPCODE_JAL,
    OPCODE_JALR,
    OPCODE_LOAD,
    OPCODE_LUI,
    OPCODE_STORE,
};

pub fn inst_lui(rd: u32, imm: u32) -> (inst: Instruction)
    ensures
        inst == Instruction::U(_U(u_word(OPCODE_LUI, rd, imm))),
{
    Instruction::new_u(OPCODE_LUI, rd, imm)
}

pub fn inst_auipc(rd: u32, imm: u32) -> (inst: Instruction)
    ensures
        inst == Instruction::U(_U(u_word(OPCODE_AUIPC, rd, imm))),
{
    Instruction::new_u(OPCODE_AUIPC, rd, imm)
}

pub fn inst_jal(rd: u32, imm: i32) -> (inst: Instruction)
    ensures
        inst == Instruction::J(_J(j_word(OPCODE_JAL, rd, imm as u32))),
{
    Instruction::new_j(OPCODE_JAL, rd, imm)
}

pub fn inst_jalr(rd: u32, rs1: u32, imm: i32) -> (inst: Instruction)
    ensures
        inst == Instruction::I(_I(i_word(OPCODE_JALR, FUNCT3_000, rd, rs1, imm as u32))),
{
    Instruction::new_i(OPCODE_JALR, FUNCT3_000, rd, rs1, imm)
}

pub fn inst_beq(rs1: u32, rs2: u32, imm: i32) -> (inst: Instruction)
    ensures
        inst == Instruction::B(_B(b_word(OPCODE_BRANCH, FUNCT3_000, rs1, rs2, imm as u32))),
{
    Instruction::new_b(OPCODE_BRANCH, FUNCT3_000, rs1, rs2, imm)
}

pub fn inst_bne(rs1: u32, rs2: u32, imm: i32) -> (inst: Instruction)
    ensures
        inst == Instruction::B(_B(b_word(OPCODE_BRANCH, FUNCT3_001, rs1, rs2, imm as u32))),
{
    Instruction::new_b(OPCODE_BRANCH, FUNCT3_001, rs1, rs2, imm)
}

pub fn inst_blt(rs1: u32, rs2: u32, imm: i32) -> (inst: Instruction)
    ensures
        inst == Instruction::B(_B(b_word(OPCODE_BRANCH, FUNCT3_100, rs1, rs2, imm as u32))),
{
    Instruction::new_b(OPCODE_BRANCH, FUNCT3_100, rs1, rs2, imm)
}

pub fn inst_bge(rs1: u32, rs2: u32, imm: i32) -> (inst: Instruction)
    ensures
        inst == Instruction::B(_B(b_word(OPCODE_BRANCH, FUNCT3_101, rs1, rs2, imm as u32))),
{
    Instruction::new_b(OPCODE_BRANCH, FUNCT3_101, rs1, rs2, imm)
}

pub fn inst_bltu(rs1: u32, rs2: u32, imm: i32) -> (inst: Instruction)
    ensures
        inst == Instruction::B(_B(b_word(OPCODE_BRANCH, FUNCT3_110, rs1, rs2, imm as u32))),
{
    Instruction::new_b(OPCODE_BRANCH, FUNCT3_110, rs1, rs2, imm)
}

pub fn inst_bgeu(rs1: u32, rs2: u32, imm: i32) -> (inst: Instruction)
    ensures
        inst == Instruction::B(_B(b_word(OPCODE_BRANCH, FUNCT3_111, rs1, rs2, imm as u32))),
{
    Instruction::new_b(OPCODE_BRANCH, FUNCT3_111, rs1, rs2, imm)
}

pub fn inst_lb(rd: u32, rs1: u32, imm: i32) -> (inst: Instruction)
    ensures
        inst == Instruction::I(_I(i_word(OPCODE_LOAD, FUNCT3_000, rd, rs1, imm as u32))),
{
    Instruction::new_i(OPCODE_LOAD, FUNCT3_000, rd, rs1, imm)
}

pub fn inst_lh(rd: u32, rs1: u32, imm: i32) -> (inst: Instruction)
    ensures
        inst == Instruction::I(_I(i_word(OPCODE_LOAD, FUNCT3_001, rd, rs1, imm as u32))),
{
    Instruction::new_i(OPCODE_LOAD, FUNCT3_001, rd, rs1, imm)
}

pub fn inst_lw(rd: u32, rs1: u32, imm: i32) -> (inst: Instruction)
    ensures
        inst == Instruction::I(_I(i_word(OPCODE_LOAD, FUNCT3_010, rd, rs1, imm as u32))),
{
    Instruction::new_i(OPCODE_LOAD, FUNCT3_010, rd, rs1, imm)
}

pub fn inst_lbu(rd: u32, rs1: u32, imm: i32) -> (inst: Instruction)
    ensures
        inst == Instruction::I(_I(i_word(OPCODE_LOAD, FUNCT3_100, rd, rs1, imm as u32))),
{
    Instruction::new_i(OPCODE_LOAD, FUNCT3_100, rd, rs1, imm)
}

pub fn inst_lhu(rd: u32, rs1: u32, imm: i32) -> (inst: Instruction)
    ensures
        inst == Instruction::I(_I(i_word(OPCODE_LOAD, FUNCT3_101, rd, rs1, imm as u32))),
{
    Instruction::new_i(OPCODE_LOAD, FUNCT3_101, rd, rs1, imm)
}

pub fn inst_sb(rs1: u32, rs2: u32, imm: i32) -> (inst: Instruction)
    ensures
        inst == Instruction::S(_S(s_word(OPCODE_STORE, FUNCT3_000, rs1, rs2, imm as u32))),
{
    Instruction::new_s(OPCODE_STORE, FUNCT3_000, rs1, rs2, imm)
}

pub fn inst_sh(rs1: u32, rs2: u32, imm: i32) -> (inst: Instruction)
    ensures
        inst == Instruction::S(_S(s_word(OPCODE_STORE, FUNCT3_001, rs1, rs2, imm as u32))),
{
    Instruction::new_s(OPCODE_STORE, FUNCT3_001, rs1, rs2, imm)
}

pub fn inst_sw(rs1: u32, rs2: u32, imm: i32) -> (inst: Instruction)
    ensures
        inst == Instruction::S(_S(s_word(OPCODE_STORE, FUNCT3_010, rs1, rs2, imm as u32))),
{
    Instruction::new_s(OPCODE_STORE, FUNCT3_010, rs1, rs2, imm)
}

pub fn inst_addi(rd: u32, rs1: u32, imm: i32) -> (inst: Instruction)
    ensures
        inst == Instruction::I(_I(i_word(OPCODE_ALU_AND_SHIFT_IMM, FUNCT3_000, rd, rs1, imm as u32))),
{
    Instruction::new_i(OPCODE_ALU_AND_SHIFT_IMM, FUNCT3_000, rd, rs1, imm)
}

pub fn inst_slti(rd: u32, rs1: u32, imm: i32) -> (inst: Instruction)
    ensures
        inst == Instruction::I(_I(i_word(OPCODE_ALU_AND_SHIFT_IMM, FUNCT3_010, rd, rs1, imm as u32))),
{
    Instruction::new_i(OPCODE_ALU_AND_SHIFT_IMM, FUNCT3_010, rd, rs1, imm)
}

pub fn inst_sltiu(rd: u32, rs1: u32, imm: i32) -> (inst: Instruction)
    ensures
        inst == Instruction::I(_I(i_word(OPCODE_ALU_AND_SHIFT_IMM, FUNCT3_011, rd, rs1, imm as u32))),
{
    Instruction::new_i(OPCODE_ALU_AND_SHIFT_IMM, FUNCT3_011, rd, rs1, imm)
}

pub fn inst_xori(rd: u32, rs1: u32, imm: i32) -> (inst: Instruction)
    ensures
        inst == Instruction::I(_I(i_word(OPCODE_ALU_AND_SHIFT_IMM, FUNCT3_100, rd, rs1, imm as u32))),
{
    Instruction::new_i(OPCODE_ALU_AND_SHIFT_IMM, FUNCT3_100, rd, rs1, imm)
}

pub fn inst_ori(rd: u32, rs1: u32, imm: i32) -> (inst: Instruction)
    ensures
        inst == Instruction::I(_I(i_word(OPCODE_ALU_AND_SHIFT_IMM, FUNCT3_110, rd, rs1, imm as u32))),
{
    Instruction::new_i(OPCODE_ALU_AND_SHIFT_IMM, FUNCT3_110, rd, rs1, imm)
}

pub fn inst_andi(rd: u32, rs1: u32, imm: i32) -> (inst: Instruction)
    ensures
        inst == Instruction::I(_I(i_word(OPCODE_ALU_AND_SHIFT_IMM, FUNCT3_111, rd, rs1, imm as u32))),
{
    Instruction::new_i(OPCODE_ALU_AND_SHIFT_IMM, FUNCT3_111, rd, rs1, imm)
}

pub fn inst_slli(rd: u32, rs1: u32, shamt: u32) -> (inst: Instruction)
    ensures
        inst == Instruction::Shift(_Shift(shift_word(OPCODE_ALU_AND_SHIFT_IMM, FUNCT3_001, FUNCT7_0000000, rd, rs1, shamt))),
{
    Instruction::new_shift(OPCODE_ALU_AND_SHIFT_IMM, FUNCT3_001, FUNCT7_0000000, rd, rs1, shamt)
}

pub fn inst_srli(rd: u32, rs1: u32, shamt: u32) -> (inst: Instruction)
    ensures
        inst == Instruction::Shift(_Shift(shift_word(OPCODE_ALU_AND_SHIFT_IMM, FUNCT3_101, FUNCT7_0000000, rd, rs1, shamt))),
{
    Instruction::new_shift(OPCODE_ALU_AND_SHIFT_IMM, FUNCT3_101, FUNCT7_0000000, rd, rs1, shamt)
}

pub fn inst_srai(rd: u32, rs1: u32, shamt: u32) -> (inst: Instruction)
    ensures
        inst == Instruction::Shift(_Shift(shift_word(OPCODE_ALU_AND_SHIFT_IMM, FUNCT3_101, FUNCT7_0100000, rd, rs1, shamt))),
{
    Instruction::new_shift(OPCODE_ALU_AND_SHIFT_IMM, FUNCT3_101, FUNCT7_0100000, rd, rs1, shamt)
}

pub fn inst_add(rd: u32, rs1: u32, rs2: u32) -> (inst: Instruction)
    ensures
        inst == Instruction::R(_R(r_word(OPCODE_ALU_REGISTER, FUNCT3_000, FUNCT7_0000000, rd, rs1, rs2))),
{
    Instruction::new_r(OPCODE_ALU_REGISTER, FUNCT3_000, FUNCT7_0000000, rd, rs1, rs2)
}

pub fn inst_sub(rd: u32, rs1: u32, rs2: u32) -> (inst: Instruction)
    ensures
        inst == Instruction::R(_R(r_word(OPCODE_ALU_REGISTER, FUNCT3_000, FUNCT7_0100000, rd, rs1, rs2))),
{
    Instruction::new_r(OPCODE_ALU_REGISTER, FUNCT3_000, FUNCT7_0100000, rd, rs1, rs2)
}

pub fn inst_sll(rd: u32, rs1: u32, rs2: u32) -> (inst: Instruction)
    ensures
        inst == Instruction::R(_R(r_word(OPCODE_ALU_REGISTER, FUNCT3_001, FUNCT7_0000000, rd, rs1, rs2))),
{
    Instruction::new_r(OPCODE_ALU_REGISTER, FUNCT3_001, FUNCT7_0000000, rd, rs1, rs2)
}

pub fn inst_slt(rd: u32, rs1: u32, rs2: u32) -> (inst: Instruction)
    ensures
        inst == Instruction::R(_R(r_word(OPCODE_ALU_REGISTER, FUNCT3_010, FUNCT7_0000000, rd, rs1, rs2))),
{
    Instruction::new_r(OPCODE_ALU_REGISTER, FUNCT3_010, FUNCT7_0000000, rd, rs1, rs2)
}

pub fn inst_sltu(rd: u32, rs1: u32, rs2: u32) -> (inst: Instruction)
    ensures
        inst == Instruction::R(_R(r_word(OPCODE_ALU_REGISTER, FUNCT3_011, FUNCT7_0000000, rd, rs1, rs2))),
{
    Instruction::new_r(OPCODE_ALU_REGISTER, FUNCT3_011, FUNCT7_0000000, rd, rs1, rs2)
}

pub fn inst_xor(rd: u32, rs1: u32, rs2: u32) -> (inst: Instruction)
    ensures
        inst == Instruction::R(_R(r_word(OPCODE_ALU_REGISTER, FUNCT3_100, FUNCT7_0000000, rd, rs1, rs2))),
{
    Instruction::new_r(OPCODE_ALU_REGISTER, FUNCT3_100, FUNCT7_0000000, rd, rs1, rs2)
}

pub fn inst_srl(rd: u32, rs1: u32, rs2: u32) -> (inst: Instruction)
    ensures
        inst == Instruction::R(_R(r_word(OPCODE_ALU_REGISTER, FUNCT3_101, FUNCT7_0000000, rd, rs1, rs2))),
{
    Instruction::new_r(OPCODE_ALU_REGISTER, FUNCT3_101, FUNCT7_0000000, rd, rs1, rs2)
}

pub fn inst_sra(rd: u32, rs1: u32, rs2: u32) -> (inst: Instruction)
    ensures
        inst == Instruction::R(_R(r_word(OPCODE_ALU_REGISTER, FUNCT3_101, FUNCT7_0100000, rd, rs1, rs2))),
{
    Instruction::new_r(OPCODE_ALU_REGISTER, FUNCT3_101, FUNCT7_0100000, rd, rs1, rs2)
}

pub fn inst_or(rd: u32, rs1: u32, rs2: u32) -> (inst: Instruction)
    ensures
        inst == Instruction::R(_R(r_word(OPCODE_ALU_REGISTER, FUNCT3_110, FUNCT7_0000000, rd, rs1, rs2))),
{
    Instruction::new_r(OPCODE_ALU_REGISTER, FUNCT3_110, FUNCT7_0000000, rd, rs1, rs2)
}

pub fn inst_and(rd: u32, rs1: u32, rs2: u32) -> (inst: Instruction)
    ensures
        inst == Instruction::R(_R(r_word(OPCODE_ALU_REGISTER, FUNCT3_111, FUNCT7_0000000, rd, rs1, rs2))),
{
    Instruction::new_r(OPCODE_ALU_REGISTER, FUNCT3_111, FUNCT7_0000000, rd, rs1, rs2)
}

pub fn inst_ecall() -> (inst: Instruction)
    ensures
        inst == Instruction::I(_I(i_word(OPCODE_E_AND_SYSTEM, 0, 0, 0, 0))),
{
    Instruction::new_i(OPCODE_E_AND_SYSTEM, 0, 0, 0, 0)
}

pub fn inst_ebreak() -> (inst: Instruction)
    ensures
        inst == Instruction::I(_I(i_word(OPCODE_E_AND_SYSTEM, 0, 0, 0, 1))),
{
    Instruction::new_i(OPCODE_E_AND_SYSTEM, 0, 0, 0, 1)
}

pub fn inst_csrrw(rd: u32, rs1: u32, imm: i32) -> (inst: Instruction)
    ensures
        inst == Instruction::I(_I(i_word(OPCODE_E_AND_SYSTEM, FUNCT3_001, rd, rs1, imm as u32))),
{
    Instruction::new_i(OPCODE_E_AND_SYSTEM, FUNCT3_001, rd, rs1, imm)
}

pub fn inst_csrrs(rd: u32, rs1: u32, imm: i32) -> (inst: Instruction)
    ensures
        inst == Instruction::I(_I(i_word(OPCODE_E_AND_SYSTEM, FUNCT3_010, rd, rs1, imm as u32))),
{
    Instruction::new_i(OPCODE_E_AND_SYSTEM, FUNCT3_010, rd, rs1, imm)
}

pub fn inst_csrrc(rd: u32, rs1: u32, imm: i32) -> (inst: Instruction)
    ensures
        inst == Instruction::I(_I(i_word(OPCODE_E_AND_SYSTEM, FUNCT3_011, rd, rs1, imm as u32))),
{
    Instruction::new_i(OPCODE_E_AND_SYSTEM, FUNCT3_011, rd, rs1, imm)
}

pub fn inst_csrrwi(rd: u32, zimm: u32, imm: i32) -> (inst: Instruction)
    ensures
        inst == Instruction::I(_I(i_word(OPCODE_E_AND_SYSTEM, FUNCT3_101, rd, zimm, imm as u32))),
{
    Instruction::new_i(OPCODE_E_AND_SYSTEM, FUNCT3_101, rd, zimm, imm)
}

pub fn inst_csrrsi(rd: u32, zimm: u32, imm: i32) -> (inst: Instruction)
    ensures
        inst == Instruction::I(_I(i_word(OPCODE_E_AND_SYSTEM, FUNCT3_110, rd, zimm, imm as u32))),
{
    Instruction::new_i(OPCODE_E_AND_SYSTEM, FUNCT3_110, rd, zimm, imm)
}

pub fn inst_csrrci(rd: u32, zimm: u32, imm: i32) -> (inst: Instruction)
    ensures
        inst == Instruction::I(_I(i_word(OPCODE_E_AND_SYSTEM, FUNCT3_111, rd, zimm, imm as u32))),
{
    Instruction::new_i(OPCODE_E_AND_SYSTEM, FUNCT3_111, rd, zimm, imm)
}

} // verus!
