//! Instruction-level self-checks: small programs for every implemented
//! mnemonic, run from reset on a caller-supplied processor, with the final
//! register values compared against hand-computed expectations.
//!
//! Each check's result is pinned by a specification-level predicate over
//! [`run_spec`]: the returned flag equals, provably, whether the machine's
//! mathematical run of that program ends in the expected registers. For
//! the six end-to-end scenarios the predicate is itself proved, so those
//! checks provably return true.

use vstd::prelude::*;

verus! {

use crate::cpu::{program_mem, reset_state, run_spec, with_mem, RiscvCpu};
use crate::instructions::{
    b_word,
    bits_of,
    i_word,
    j_word,
    r_word,
    s_word,
    shift_word,
    u_word,
    Instruction,
};
use crate::inst_defs::{
    inst_add,
    inst_addi,
    inst_and,
    inst_andi,
    inst_auipc,
    inst_beq,
    inst_bge,
    inst_bgeu,
    inst_blt,
    inst_bltu,
    inst_bne,
    inst_jal,
    inst_jalr,
    inst_lb,
    inst_lbu,
    inst_lh,
    inst_lhu,
    inst_lui,
    inst_lw,
    inst_or,
    inst_ori,
    inst_sb,
    inst_sh,
    inst_sll,
    inst_slli,
    inst_slt,
    inst_slti,
    inst_sltiu,
    inst_sltu,
    inst_sra,
    inst_srai,
    inst_srl,
    inst_srli,
    inst_sub,
    inst_sw,
    inst_xor,
    inst_xori,
};
use crate::types::{
    FUNCT3_000,
    FUNCT3_001,
    FUNCT3_010,
    FUNCT3_011,
    FUNCT3_100,
    FUNCT3_101,
    FUNCT3_110,
    FUNCT3_111,
    FUNCT7_0000000,
    FUNCT7_0100000,
    OPCODE_ALU_AND_SHIFT_IMM,
    OPCODE_ALU_REGISTER,
    OPCODE_BRANCH,
    OPCODE_JAL,
    OPCODE_JALR,
    OPCODE_LOAD,
    OPCODE_LUI,
    OPCODE_AUIPC,
    OPCODE_STORE,
    R_T0,
    R_T1,
    R_T2,
    R_T3,
    R_T4,
    R_ZERO,
};

/// Step budget that is ample for every program below.
pub const SELF_CHECK_STEPS: u64 = 4096;

/// Whether the mathematical run of the lui program ends in the
/// expected registers.
pub open spec fn lui_check() -> bool {
    let words = seq![
        i_word(OPCODE_ALU_AND_SHIFT_IMM, FUNCT3_000, R_T0, R_ZERO, 291u32),
        u_word(OPCODE_LUI, R_T1, 0x12345u32),
        r_word(OPCODE_ALU_REGISTER, FUNCT3_000, FUNCT7_0000000, R_T2, R_T0, R_T1),
    ];
    let r = run_spec(with_mem(reset_state(), program_mem(words)), SELF_CHECK_STEPS as nat);
    r.0.regs[R_T0 as int] == 0x123u32 && r.0.regs[R_T1 as int] == 0x12345000u32 && r.0.regs[R_T2 as int] == 0x12345123u32
}

/// Whether the mathematical run of the auipc program ends in the
/// expected registers.
pub open spec fn auipc_check() -> bool {
    let words = seq![
        i_word(OPCODE_ALU_AND_SHIFT_IMM, FUNCT3_000, R_T0, R_ZERO, 291u32),
        u_word(OPCODE_AUIPC, R_T1, 0x12345u32),
        r_word(OPCODE_ALU_REGISTER, FUNCT3_000, FUNCT7_0000000, R_T2, R_T0, R_T1),
    ];
    let r = run_spec(with_mem(reset_state(), program_mem(words)), SELF_CHECK_STEPS as nat);
    r.0.regs[R_T0 as int] == 0x123u32 && r.0.regs[R_T1 as int] == 0x12345004u32 && r.0.regs[R_T2 as int] == 0x12345127u32
}

/// Whether the mathematical run of the jal program ends in the
/// expected registers.
pub open spec fn jal_check() -> bool {
    let words = seq![
        i_word(OPCODE_ALU_AND_SHIFT_IMM, FUNCT3_000, R_T0, R_ZERO, 582u32),
        i_word(OPCODE_ALU_AND_SHIFT_IMM, FUNCT3_000, R_T1, R_T0, 291u32),
        j_word(OPCODE_JAL, R_T2, 8u32),
        r_word(OPCODE_ALU_REGISTER, FUNCT3_000, FUNCT7_0000000, R_T2, R_T0, R_T1),
        r_word(OPCODE_ALU_REGISTER, FUNCT3_000, FUNCT7_0000000, R_T3, R_T2, R_T1),
        i_word(OPCODE_ALU_AND_SHIFT_IMM, FUNCT3_000, R_T3, R_T3, 873u32),
    ];
    let r = run_spec(with_mem(reset_state(), program_mem(words)), SELF_CHECK_STEPS as nat);
    r.0.regs[R_T0 as int] == 0x246u32 && r.0.regs[R_T1 as int] == 0x369u32 && r.0.regs[R_T2 as int] == 0x00cu32 && r.0.regs[R_T3 as int] == 0x6deu32
}

/// Whether the mathematical run of the jalr program ends in the
/// expected registers.
pub open spec fn jalr_check() -> bool {
    let words = seq![
        i_word(OPCODE_ALU_AND_SHIFT_IMM, FUNCT3_000, R_T0, R_ZERO, 582u32),
        i_word(OPCODE_ALU_AND_SHIFT_IMM, FUNCT3_000, R_T1, R_T0, 291u32),
        i_word(OPCODE_ALU_AND_SHIFT_IMM, FUNCT3_000, R_T2, R_ZERO, 12u32),
        i_word(OPCODE_JALR, FUNCT3_000, R_T3, R_T2, 8u32),
        r_word(OPCODE_ALU_REGISTER, FUNCT3_000, FUNCT7_0000000, R_T3, R_T0, R_T1),
        r_word(OPCODE_ALU_REGISTER, FUNCT3_000, FUNCT7_0000000, R_T4, R_T3, R_T1),
        i_word(OPCODE_ALU_AND_SHIFT_IMM, FUNCT3_000, R_T4, R_T4, 873u32),
    ];
    let r = run_spec(with_mem(reset_state(), program_mem(words)), SELF_CHECK_STEPS as nat);
    r.0.regs[R_T0 as int] == 0x246u32 && r.0.regs[R_T1 as int] == 0x369u32 && r.0.regs[R_T2 as int] == 0x00cu32 && r.0.regs[R_T3 as int] == 0x010u32 && r.0.regs[R_T4 as int] == 0x6e2u32
}

/// Whether the mathematical run of the beq program ends in the
/// expected registers.
pub open spec fn beq_check() -> bool {
    let words = seq![
        i_word(OPCODE_ALU_AND_SHIFT_IMM, FUNCT3_000, R_T0, R_ZERO, 291u32),
        i_word(OPCODE_ALU_AND_SHIFT_IMM, FUNCT3_000, R_T1, R_T1, 291u32),
        b_word(OPCODE_BRANCH, FUNCT3_000, R_T0, R_T1, ((-4i32) as u32)),
        r_word(OPCODE_ALU_REGISTER, FUNCT3_000, FUNCT7_0000000, R_T2, R_T0, R_T1),
    ];
    let r = run_spec(with_mem(reset_state(), program_mem(words)), SELF_CHECK_STEPS as nat);
    r.0.regs[R_T0 as int] == 0x123u32 && r.0.regs[R_T1 as int] == 0x246u32 && r.0.regs[R_T2 as int] == 0x369u32
}

/// Whether the mathematical run of the bne program ends in the
/// expected registers.
pub open spec fn bne_check() -> bool {
    let words = seq![
        i_word(OPCODE_ALU_AND_SHIFT_IMM, FUNCT3_000, R_T0, R_ZERO, 582u32),
        i_word(OPCODE_ALU_AND_SHIFT_IMM, FUNCT3_000, R_T1, R_T1, 291u32),
        b_word(OPCODE_BRANCH, FUNCT3_001, R_T0, R_T1, ((-4i32) as u32)),
        r_word(OPCODE_ALU_REGISTER, FUNCT3_000, FUNCT7_0000000, R_T2, R_T0, R_T1),
    ];
    let r = run_spec(with_mem(reset_state(), program_mem(words)), SELF_CHECK_STEPS as nat);
    r.0.regs[R_T0 as int] == 0x246u32 && r.0.regs[R_T1 as int] == 0x246u32 && r.0.regs[R_T2 as int] == 0x48cu32
}

/// Whether the mathematical run of the blt program ends in the
/// expected registers.
pub open spec fn blt_check() -> bool {
    let words = seq![
        i_word(OPCODE_ALU_AND_SHIFT_IMM, FUNCT3_000, R_T0, R_ZERO, 582u32),
        i_word(OPCODE_ALU_AND_SHIFT_IMM, FUNCT3_000, R_T1, R_T1, 291u32),
        b_word(OPCODE_BRANCH, FUNCT3_100, R_T1, R_T0, ((-4i32) as u32)),
        r_word(OPCODE_ALU_REGISTER, FUNCT3_000, FUNCT7_0000000, R_T2, R_T0, R_T1),
    ];
    let r = run_spec(with_mem(reset_state(), program_mem(words)), SELF_CHECK_STEPS as nat);
    r.0.regs[R_T0 as int] == 0x246u32 && r.0.regs[R_T1 as int] == 0x246u32 && r.0.regs[R_T2 as int] == 0x48cu32
}

/// Whether the mathematical run of the bge program ends in the
/// expected registers.
pub open spec fn bge_check() -> bool {
    let words = seq![
        i_word(OPCODE_ALU_AND_SHIFT_IMM, FUNCT3_000, R_T0, R_ZERO, 291u32),
        i_word(OPCODE_ALU_AND_SHIFT_IMM, FUNCT3_000, R_T1, R_ZERO, ((-1164i32) as u32)),
        i_word(OPCODE_ALU_AND_SHIFT_IMM, FUNCT3_000, R_T1, R_T1, 582u32),
        b_word(OPCODE_BRANCH, FUNCT3_101, R_T0, R_T1, ((-4i32) as u32)),
        r_word(OPCODE_ALU_REGISTER, FUNCT3_000, FUNCT7_0000000, R_T2, R_T0, R_T1),
    ];
    let r = run_spec(with_mem(reset_state(), program_mem(words)), SELF_CHECK_STEPS as nat);
    r.0.regs[R_T0 as int] == 0x123u32 && r.0.regs[R_T1 as int] == 0x246u32 && r.0.regs[R_T2 as int] == 0x369u32
}

/// Whether the mathematical run of the bltu program ends in the
/// expected registers.
pub open spec fn bltu_check() -> bool {
    let words = seq![
        i_word(OPCODE_ALU_AND_SHIFT_IMM, FUNCT3_000, R_T0, R_ZERO, 1606u32),
        i_word(OPCODE_ALU_AND_SHIFT_IMM, FUNCT3_000, R_T1, R_T1, 1315u32),
        b_word(OPCODE_BRANCH, FUNCT3_110, R_T1, R_T0, ((-4i32) as u32)),
        r_word(OPCODE_ALU_REGISTER, FUNCT3_000, FUNCT7_0000000, R_T2, R_T0, R_T1),
    ];
    let r = run_spec(with_mem(reset_state(), program_mem(words)), SELF_CHECK_STEPS as nat);
    r.0.regs[R_T0 as int] == 0x646u32 && r.0.regs[R_T1 as int] == 0xa46u32 && r.0.regs[R_T2 as int] == 0x108cu32
}

/// Whether the mathematical run of the bgeu program ends in the
/// expected registers.
pub open spec fn bgeu_check() -> bool {
    let words = seq![
        i_word(OPCODE_ALU_AND_SHIFT_IMM, FUNCT3_000, R_T0, R_ZERO, 1606u32),
        i_word(OPCODE_ALU_AND_SHIFT_IMM, FUNCT3_000, R_T1, R_T1, 1315u32),
        b_word(OPCODE_BRANCH, FUNCT3_111, R_T0, R_T1, ((-4i32) as u32)),
        r_word(OPCODE_ALU_REGISTER, FUNCT3_000, FUNCT7_0000000, R_T2, R_T0, R_T1),
    ];
    let r = run_spec(with_mem(reset_state(), program_mem(words)), SELF_CHECK_STEPS as nat);
    r.0.regs[R_T0 as int] == 0x646u32 && r.0.regs[R_T1 as int] == 0xa46u32 && r.0.regs[R_T2 as int] == 0x108cu32
}

/// Whether the mathematical run of the lbsb program ends in the
/// expected registers.
pub open spec fn lbsb_check() -> bool {
    let words = seq![
        i_word(OPCODE_ALU_AND_SHIFT_IMM, FUNCT3_000, R_T0, R_ZERO, 12u32),
        i_word(OPCODE_ALU_AND_SHIFT_IMM, FUNCT3_000, R_T1, R_ZERO, ((-127i32) as u32)),
        s_word(OPCODE_STORE, FUNCT3_000, R_T0, R_T1, 8u32),
        i_word(OPCODE_LOAD, FUNCT3_000, R_T2, R_T0, 8u32),
    ];
    let r = run_spec(with_mem(reset_state(), program_mem(words)), SELF_CHECK_STEPS as nat);
    r.0.regs[R_T0 as int] == 0x00cu32 && r.0.regs[R_T1 as int] == 0xffffff81u32 && r.0.regs[R_T2 as int] == 0xffffff81u32
}

/// Whether the mathematical run of the lhsh program ends in the
/// expected registers.
pub open spec fn lhsh_check() -> bool {
    let words = seq![
        i_word(OPCODE_ALU_AND_SHIFT_IMM, FUNCT3_000, R_T0, R_ZERO, 12u32),
        u_word(OPCODE_LUI, R_T1, 0x00008u32),
        i_word(OPCODE_ALU_AND_SHIFT_IMM, FUNCT3_000, R_T1, R_T1, 1u32),
        s_word(OPCODE_STORE, FUNCT3_001, R_T0, R_T1, 12u32),
        i_word(OPCODE_LOAD, FUNCT3_001, R_T2, R_T0, 12u32),
    ];
    let r = run_spec(with_mem(reset_state(), program_mem(words)), SELF_CHECK_STEPS as nat);
    r.0.regs[R_T0 as int] == 0x00cu32 && r.0.regs[R_T1 as int] == 0x8001u32 && r.0.regs[R_T2 as int] == 0xffff8001u32
}

/// Whether the mathematical run of the lwsw program ends in the
/// expected registers.
pub open spec fn lwsw_check() -> bool {
    let words = seq![
        i_word(OPCODE_ALU_AND_SHIFT_IMM, FUNCT3_000, R_T0, R_ZERO, 12u32),
        u_word(OPCODE_LUI, R_T1, 0x80000u32),
        i_word(OPCODE_ALU_AND_SHIFT_IMM, FUNCT3_000, R_T1, R_T1, 1u32),
        s_word(OPCODE_STORE, FUNCT3_010, R_T0, R_T1, 12u32),
        i_word(OPCODE_LOAD, FUNCT3_010, R_T2, R_T0, 12u32),
    ];
    let r = run_spec(with_mem(reset_state(), program_mem(words)), SELF_CHECK_STEPS as nat);
    r.0.regs[R_T0 as int] == 0x00cu32 && r.0.regs[R_T1 as int] == 0x80000001u32 && r.0.regs[R_T2 as int] == 0x80000001u32
}

/// Whether the mathematical run of the lbu program ends in the
/// expected registers.
pub open spec fn lbu_check() -> bool {
    let words = seq![
        i_word(OPCODE_ALU_AND_SHIFT_IMM, FUNCT3_000, R_T0, R_ZERO, 12u32),
        i_word(OPCODE_ALU_AND_SHIFT_IMM, FUNCT3_000, R_T1, R_ZERO, 255u32),
        s_word(OPCODE_STORE, FUNCT3_000, R_T0, R_T1, 8u32),
        i_word(OPCODE_LOAD, FUNCT3_100, R_T2, R_T0, 8u32),
    ];
    let r = run_spec(with_mem(reset_state(), program_mem(words)), SELF_CHECK_STEPS as nat);
    r.0.regs[R_T0 as int] == 0x00cu32 && r.0.regs[R_T1 as int] == 0xffu32 && r.0.regs[R_T2 as int] == 0xffu32
}

/// Whether the mathematical run of the lhu program ends in the
/// expected registers.
pub open spec fn lhu_check() -> bool {
    let words = seq![
        i_word(OPCODE_ALU_AND_SHIFT_IMM, FUNCT3_000, R_T0, R_ZERO, 12u32),
        u_word(OPCODE_LUI, R_T1, 0x00010u32),
        i_word(OPCODE_ALU_AND_SHIFT_IMM, FUNCT3_000, R_T1, R_T1, ((-1i32) as u32)),
        s_word(OPCODE_STORE, FUNCT3_001, R_T0, R_T1, 12u32),
        i_word(OPCODE_LOAD, FUNCT3_101, R_T2, R_T0, 12u32),
    ];
    let r = run_spec(with_mem(reset_state(), program_mem(words)), SELF_CHECK_STEPS as nat);
    r.0.regs[R_T0 as int] == 0x00cu32 && r.0.regs[R_T1 as int] == 0xffffu32 && r.0.regs[R_T2 as int] == 0xffffu32
}

/// Whether the mathematical run of the addi program ends in the
/// expected registers.
pub open spec fn addi_check() -> bool {
    let words = seq![
        i_word(OPCODE_ALU_AND_SHIFT_IMM, FUNCT3_000, R_T0, R_ZERO, 291u32),
        i_word(OPCODE_ALU_AND_SHIFT_IMM, FUNCT3_000, R_T1, R_T0, 582u32),
    ];
    let r = run_spec(with_mem(reset_state(), program_mem(words)), SELF_CHECK_STEPS as nat);
    r.0.regs[R_T0 as int] == 0x123u32 && r.0.regs[R_T1 as int] == 0x369u32
}

/// Whether the mathematical run of the slti program ends in the
/// expected registers.
pub open spec fn slti_check() -> bool {
    let words = seq![
        i_word(OPCODE_ALU_AND_SHIFT_IMM, FUNCT3_000, R_T0, R_ZERO, ((-127i32) as u32)),
        i_word(OPCODE_ALU_AND_SHIFT_IMM, FUNCT3_010, R_T1, R_T0, 291u32),
    ];
    let r = run_spec(with_mem(reset_state(), program_mem(words)), SELF_CHECK_STEPS as nat);
    r.0.regs[R_T0 as int] == 0xffffff81u32 && r.0.regs[R_T1 as int] == 0x1u32
}

/// Whether the mathematical run of the sltiu program ends in the
/// expected registers.
pub open spec fn sltiu_check() -> bool {
    let words = seq![
        i_word(OPCODE_ALU_AND_SHIFT_IMM, FUNCT3_000, R_T0, R_ZERO, ((-127i32) as u32)),
        i_word(OPCODE_ALU_AND_SHIFT_IMM, FUNCT3_011, R_T1, R_T0, 3456u32),
    ];
    let r = run_spec(with_mem(reset_state(), program_mem(words)), SELF_CHECK_STEPS as nat);
    r.0.regs[R_T0 as int] == 0xffffff81u32 && r.0.regs[R_T1 as int] == 0x0u32
}

/// Whether the mathematical run of the xori program ends in the
/// expected registers.
pub open spec fn xori_check() -> bool {
    let words = seq![
        i_word(OPCODE_ALU_AND_SHIFT_IMM, FUNCT3_000, R_T0, R_ZERO, 291u32),
        i_word(OPCODE_ALU_AND_SHIFT_IMM, FUNCT3_100, R_T1, R_T0, 582u32),
    ];
    let r = run_spec(with_mem(reset_state(), program_mem(words)), SELF_CHECK_STEPS as nat);
    r.0.regs[R_T0 as int] == 0x123u32 && r.0.regs[R_T1 as int] == 0x365u32
}

/// Whether the mathematical run of the ori program ends in the
/// expected registers.
pub open spec fn ori_check() -> bool {
    let words = seq![
        i_word(OPCODE_ALU_AND_SHIFT_IMM, FUNCT3_000, R_T0, R_ZERO, 291u32),
        i_word(OPCODE_ALU_AND_SHIFT_IMM, FUNCT3_110, R_T1, R_T0, 582u32),
    ];
    let r = run_spec(with_mem(reset_state(), program_mem(words)), SELF_CHECK_STEPS as nat);
    r.0.regs[R_T0 as int] == 0x123u32 && r.0.regs[R_T1 as int] == 0x367u32
}

/// Whether the mathematical run of the andi program ends in the
/// expected registers.
pub open spec fn andi_check() -> bool {
    let words = seq![
        i_word(OPCODE_ALU_AND_SHIFT_IMM, FUNCT3_000, R_T0, R_ZERO, 291u32),
        i_word(OPCODE_ALU_AND_SHIFT_IMM, FUNCT3_111, R_T1, R_T0, 582u32),
    ];
    let r = run_spec(with_mem(reset_state(), program_mem(words)), SELF_CHECK_STEPS as nat);
    r.0.regs[R_T0 as int] == 0x123u32 && r.0.regs[R_T1 as int] == 0x002u32
}

/// Whether the mathematical run of the slli program ends in the
/// expected registers.
pub open spec fn slli_check() -> bool {
    let words = seq![
        i_word(OPCODE_ALU_AND_SHIFT_IMM, FUNCT3_000, R_T0, R_ZERO, 582u32),
        shift_word(OPCODE_ALU_AND_SHIFT_IMM, FUNCT3_001, FUNCT7_0000000, R_T1, R_T0, 16u32),
    ];
    let r = run_spec(with_mem(reset_state(), program_mem(words)), SELF_CHECK_STEPS as nat);
    r.0.regs[R_T0 as int] == 0x246u32 && r.0.regs[R_T1 as int] == 0x2460000u32
}

/// Whether the mathematical run of the srli program ends in the
/// expected registers.
pub open spec fn srli_check() -> bool {
    let words = seq![
        u_word(OPCODE_LUI, R_T0, 0x2460u32),
        shift_word(OPCODE_ALU_AND_SHIFT_IMM, FUNCT3_101, FUNCT7_0000000, R_T1, R_T0, 16u32),
    ];
    let r = run_spec(with_mem(reset_state(), program_mem(words)), SELF_CHECK_STEPS as nat);
    r.0.regs[R_T0 as int] == 0x2460000u32 && r.0.regs[R_T1 as int] == 0x246u32
}

/// Whether the mathematical run of the srai program ends in the
/// expected registers.
pub open spec fn srai_check() -> bool {
    let words = seq![
        u_word(OPCODE_LUI, R_T0, 0x80000u32),
        i_word(OPCODE_ALU_AND_SHIFT_IMM, FUNCT3_000, R_T0, R_T0, 1u32),
        shift_word(OPCODE_ALU_AND_SHIFT_IMM, FUNCT3_101, FUNCT7_0100000, R_T1, R_T0, 16u32),
    ];
    let r = run_spec(with_mem(reset_state(), program_mem(words)), SELF_CHECK_STEPS as nat);
    r.0.regs[R_T0 as int] == 0x80000001u32 && r.0.regs[R_T1 as int] == 0xffff8000u32
}

/// Whether the mathematical run of the add program ends in the
/// expected registers.
pub open spec fn add_check() -> bool {
    let words = seq![
        i_word(OPCODE_ALU_AND_SHIFT_IMM, FUNCT3_000, R_T0, R_ZERO, 291u32),
        i_word(OPCODE_ALU_AND_SHIFT_IMM, FUNCT3_000, R_T1, R_ZERO, 582u32),
        r_word(OPCODE_ALU_REGISTER, FUNCT3_000, FUNCT7_0000000, R_T2, R_T0, R_T1),
    ];
    let r = run_spec(with_mem(reset_state(), program_mem(words)), SELF_CHECK_STEPS as nat);
    r.0.regs[R_T0 as int] == 0x123u32 && r.0.regs[R_T1 as int] == 0x246u32 && r.0.regs[R_T2 as int] == 0x369u32
}

/// Whether the mathematical run of the sub program ends in the
/// expected registers.
pub open spec fn sub_check() -> bool {
    let words = seq![
        i_word(OPCODE_ALU_AND_SHIFT_IMM, FUNCT3_000, R_T0, R_ZERO, 582u32),
        i_word(OPCODE_ALU_AND_SHIFT_IMM, FUNCT3_000, R_T1, R_ZERO, 291u32),
        r_word(OPCODE_ALU_REGISTER, FUNCT3_000, FUNCT7_0100000, R_T2, R_T0, R_T1),
    ];
    let r = run_spec(with_mem(reset_state(), program_mem(words)), SELF_CHECK_STEPS as nat);
    r.0.regs[R_T0 as int] == 0x246u32 && r.0.regs[R_T1 as int] == 0x123u32 && r.0.regs[R_T2 as int] == 0x123u32
}

/// Whether the mathematical run of the sll program ends in the
/// expected registers.
pub open spec fn sll_check() -> bool {
    let words = seq![
        i_word(OPCODE_ALU_AND_SHIFT_IMM, FUNCT3_000, R_T0, R_ZERO, 582u32),
        i_word(OPCODE_ALU_AND_SHIFT_IMM, FUNCT3_000, R_T1, R_ZERO, 16u32),
        r_word(OPCODE_ALU_REGISTER, FUNCT3_001, FUNCT7_0000000, R_T2, R_T0, R_T1),
    ];
    let r = run_spec(with_mem(reset_state(), program_mem(words)), SELF_CHECK_STEPS as nat);
    r.0.regs[R_T0 as int] == 0x246u32 && r.0.regs[R_T1 as int] == 0x010u32 && r.0.regs[R_T2 as int] == 0x2460000u32
}

/// Whether the mathematical run of the slt program ends in the
/// expected registers.
pub open spec fn slt_check() -> bool {
    let words = seq![
        i_word(OPCODE_ALU_AND_SHIFT_IMM, FUNCT3_000, R_T0, R_ZERO, ((-127i32) as u32)),
        i_word(OPCODE_ALU_AND_SHIFT_IMM, FUNCT3_000, R_T1, R_ZERO, 291u32),
        r_word(OPCODE_ALU_REGISTER, FUNCT3_010, FUNCT7_0000000, R_T2, R_T0, R_T1),
    ];
    let r = run_spec(with_mem(reset_state(), program_mem(words)), SELF_CHECK_STEPS as nat);
    r.0.regs[R_T0 as int] == 0xffffff81u32 && r.0.regs[R_T1 as int] == 0x123u32 && r.0.regs[R_T2 as int] == 0x1u32
}

/// Whether the mathematical run of the sltu program ends in the
/// expected registers.
pub open spec fn sltu_check() -> bool {
    let words = seq![
        i_word(OPCODE_ALU_AND_SHIFT_IMM, FUNCT3_000, R_T0, R_ZERO, 2456u32),
        i_word(OPCODE_ALU_AND_SHIFT_IMM, FUNCT3_000, R_T1, R_ZERO, 3456u32),
        r_word(OPCODE_ALU_REGISTER, FUNCT3_011, FUNCT7_0000000, R_T2, R_T0, R_T1),
    ];
    let r = run_spec(with_mem(reset_state(), program_mem(words)), SELF_CHECK_STEPS as nat);
    r.0.regs[R_T0 as int] == 0xfffff998u32 && r.0.regs[R_T1 as int] == 0xfffffd80u32 && r.0.regs[R_T2 as int] == 0x1u32
}

/// Whether the mathematical run of the xor program ends in the
/// expected registers.
pub open spec fn xor_check() -> bool {
    let words = seq![
        i_word(OPCODE_ALU_AND_SHIFT_IMM, FUNCT3_000, R_T0, R_ZERO, 291u32),
        i_word(OPCODE_ALU_AND_SHIFT_IMM, FUNCT3_000, R_T1, R_ZERO, 582u32),
        r_word(OPCODE_ALU_REGISTER, FUNCT3_100, FUNCT7_0000000, R_T2, R_T0, R_T1),
    ];
    let r = run_spec(with_mem(reset_state(), program_mem(words)), SELF_CHECK_STEPS as nat);
    r.0.regs[R_T0 as int] == 0x123u32 && r.0.regs[R_T1 as int] == 0x246u32 && r.0.regs[R_T2 as int] == 0x365u32
}

/// Whether the mathematical run of the srl program ends in the
/// expected registers.
pub open spec fn srl_check() -> bool {
    let words = seq![
        u_word(OPCODE_LUI, R_T0, 0x2460u32),
        i_word(OPCODE_ALU_AND_SHIFT_IMM, FUNCT3_000, R_T1, R_ZERO, 16u32),
        r_word(OPCODE_ALU_REGISTER, FUNCT3_101, FUNCT7_0000000, R_T2, R_T0, R_T1),
    ];
    let r = run_spec(with_mem(reset_state(), program_mem(words)), SELF_CHECK_STEPS as nat);
    r.0.regs[R_T0 as int] == 0x2460000u32 && r.0.regs[R_T1 as int] == 0x010u32 && r.0.regs[R_T2 as int] == 0x246u32
}

/// Whether the mathematical run of the sra program ends in the
/// expected registers.
pub open spec fn sra_check() -> bool {
    let words = seq![
        u_word(OPCODE_LUI, R_T0, 0x80000u32),
        i_word(OPCODE_ALU_AND_SHIFT_IMM, FUNCT3_000, R_T0, R_T0, 1u32),
        i_word(OPCODE_ALU_AND_SHIFT_IMM, FUNCT3_000, R_T1, R_ZERO, 16u32),
        r_word(OPCODE_ALU_REGISTER, FUNCT3_101, FUNCT7_0100000, R_T2, R_T0, R_T1),
    ];
    let r = run_spec(with_mem(reset_state(), program_mem(words)), SELF_CHECK_STEPS as nat);
    r.0.regs[R_T0 as int] == 0x80000001u32 && r.0.regs[R_T1 as int] == 0x010u32 && r.0.regs[R_T2 as int] == 0xffff8000u32
}

/// Whether the mathematical run of the or program ends in the
/// expected registers.
pub open spec fn or_check() -> bool {
    let words = seq![
        i_word(OPCODE_ALU_AND_SHIFT_IMM, FUNCT3_000, R_T0, R_ZERO, 291u32),
        i_word(OPCODE_ALU_AND_SHIFT_IMM, FUNCT3_000, R_T1, R_ZERO, 582u32),
        r_word(OPCODE_ALU_REGISTER, FUNCT3_110, FUNCT7_0000000, R_T2, R_T0, R_T1),
    ];
    let r = run_spec(with_mem(reset_state(), program_mem(words)), SELF_CHECK_STEPS as nat);
    r.0.regs[R_T0 as int] == 0x123u32 && r.0.regs[R_T1 as int] == 0x246u32 && r.0.regs[R_T2 as int] == 0x367u32
}

/// Whether the mathematical run of the and program ends in the
/// expected registers.
pub open spec fn and_check() -> bool {
    let words = seq![
        i_word(OPCODE_ALU_AND_SHIFT_IMM, FUNCT3_000, R_T0, R_ZERO, 291u32),
        i_word(OPCODE_ALU_AND_SHIFT_IMM, FUNCT3_000, R_T1, R_ZERO, 582u32),
        r_word(OPCODE_ALU_REGISTER, FUNCT3_111, FUNCT7_0000000, R_T2, R_T0, R_T1),
    ];
    let r = run_spec(with_mem(reset_state(), program_mem(words)), SELF_CHECK_STEPS as nat);
    r.0.regs[R_T0 as int] == 0x123u32 && r.0.regs[R_T1 as int] == 0x246u32 && r.0.regs[R_T2 as int] == 0x002u32
}

fn test_lui(cpu: &mut RiscvCpu) -> (ok: bool)
    requires
        old(cpu).wf(),
    ensures
        final(cpu).wf(),
        ok == lui_check(),
        ok,
{
    proof {
        lemma_lui_scenario();
    }
    let inst_list = [
        inst_addi(R_T0, R_ZERO, 291),
        inst_lui(R_T1, 0x12345),
        inst_add(R_T2, R_T0, R_T1),
    ];
    proof {
        assert(inst_list@.map_values(|inst: Instruction| bits_of(inst)) =~= seq![
                i_word(OPCODE_ALU_AND_SHIFT_IMM, FUNCT3_000, R_T0, R_ZERO, 291u32),
                u_word(OPCODE_LUI, R_T1, 0x12345u32),
                r_word(OPCODE_ALU_REGISTER, FUNCT3_000, FUNCT7_0000000, R_T2, R_T0, R_T1),
            ]);
    }
    let _st = cpu.load_and_run(inst_list.as_slice(), SELF_CHECK_STEPS);
    cpu.get_register(R_T0) == 0x123 && cpu.get_register(R_T1) == 0x12345000 && cpu.get_register(R_T2) == 0x12345123
}

fn test_auipc(cpu: &mut RiscvCpu) -> (ok: bool)
    requires
        old(cpu).wf(),
    ensures
        final(cpu).wf(),
        ok == auipc_check(),
{
    let inst_list = [
        inst_addi(R_T0, R_ZERO, 291),
        inst_auipc(R_T1, 0x12345),
        inst_add(R_T2, R_T0, R_T1),
    ];
    proof {
        assert(inst_list@.map_values(|inst: Instruction| bits_of(inst)) =~= seq![
                i_word(OPCODE_ALU_AND_SHIFT_IMM, FUNCT3_000, R_T0, R_ZERO, 291u32),
                u_word(OPCODE_AUIPC, R_T1, 0x12345u32),
                r_word(OPCODE_ALU_REGISTER, FUNCT3_000, FUNCT7_0000000, R_T2, R_T0, R_T1),
            ]);
    }
    let _st = cpu.load_and_run(inst_list.as_slice(), SELF_CHECK_STEPS);
    cpu.get_register(R_T0) == 0x123 && cpu.get_register(R_T1) == 0x12345004 && cpu.get_register(R_T2) == 0x12345127
}

fn test_jal(cpu: &mut RiscvCpu) -> (ok: bool)
    requires
        old(cpu).wf(),
    ensures
        final(cpu).wf(),
        ok == jal_check(),
        ok,
{
    proof {
        lemma_jal_scenario();
    }
    let inst_list = [
        inst_addi(R_T0, R_ZERO, 582),
        inst_addi(R_T1, R_T0, 291),
        inst_jal(R_T2, 8),
        inst_add(R_T2, R_T0, R_T1),
        inst_add(R_T3, R_T2, R_T1),
        inst_addi(R_T3, R_T3, 873),
    ];
    proof {
        assert(inst_list@.map_values(|inst: Instruction| bits_of(inst)) =~= seq![
                i_word(OPCODE_ALU_AND_SHIFT_IMM, FUNCT3_000, R_T0, R_ZERO, 582u32),
                i_word(OPCODE_ALU_AND_SHIFT_IMM, FUNCT3_000, R_T1, R_T0, 291u32),
                j_word(OPCODE_JAL, R_T2, 8u32),
                r_word(OPCODE_ALU_REGISTER, FUNCT3_000, FUNCT7_0000000, R_T2, R_T0, R_T1),
                r_word(OPCODE_ALU_REGISTER, FUNCT3_000, FUNCT7_0000000, R_T3, R_T2, R_T1),
                i_word(OPCODE_ALU_AND_SHIFT_IMM, FUNCT3_000, R_T3, R_T3, 873u32),
            ]);
    }
    let _st = cpu.load_and_run(inst_list.as_slice(), SELF_CHECK_STEPS);
    cpu.get_register(R_T0) == 0x246 && cpu.get_register(R_T1) == 0x369 && cpu.get_register(R_T2) == 0x00c && cpu.get_register(R_T3) == 0x6de
}

fn test_jalr(cpu: &mut RiscvCpu) -> (ok: bool)
    requires
        old(cpu).wf(),
    ensures
        final(cpu).wf(),
        ok == jalr_check(),
{
    let inst_list = [
        inst_addi(R_T0, R_ZERO, 582),
        inst_addi(R_T1, R_T0, 291),
        inst_addi(R_T2, R_ZERO, 12),
        inst_jalr(R_T3, R_T2, 8),
        inst_add(R_T3, R_T0, R_T1),
        inst_add(R_T4, R_T3, R_T1),
        inst_addi(R_T4, R_T4, 873),
    ];
    proof {
        assert(inst_list@.map_values(|inst: Instruction| bits_of(inst)) =~= seq![
                i_word(OPCODE_ALU_AND_SHIFT_IMM, FUNCT3_000, R_T0, R_ZERO, 582u32),
                i_word(OPCODE_ALU_AND_SHIFT_IMM, FUNCT3_000, R_T1, R_T0, 291u32),
                i_word(OPCODE_ALU_AND_SHIFT_IMM, FUNCT3_000, R_T2, R_ZERO, 12u32),
                i_word(OPCODE_JALR, FUNCT3_000, R_T3, R_T2, 8u32),
                r_word(OPCODE_ALU_REGISTER, FUNCT3_000, FUNCT7_0000000, R_T3, R_T0, R_T1),
                r_word(OPCODE_ALU_REGISTER, FUNCT3_000, FUNCT7_0000000, R_T4, R_T3, R_T1),
                i_word(OPCODE_ALU_AND_SHIFT_IMM, FUNCT3_000, R_T4, R_T4, 873u32),
            ]);
    }
    let _st = cpu.load_and_run(inst_list.as_slice(), SELF_CHECK_STEPS);
    cpu.get_register(R_T0) == 0x246 && cpu.get_register(R_T1) == 0x369 && cpu.get_register(R_T2) == 0x00c && cpu.get_register(R_T3) == 0x010 && cpu.get_register(R_T4) == 0x6e2
}

fn test_beq(cpu: &mut RiscvCpu) -> (ok: bool)
    requires
        old(cpu).wf(),
    ensures
        final(cpu).wf(),
        ok == beq_check(),
{
    let inst_list = [
        inst_addi(R_T0, R_ZERO, 291),
        inst_addi(R_T1, R_T1, 291),
        inst_beq(R_T0, R_T1, -4),
        inst_add(R_T2, R_T0, R_T1),
    ];
    proof {
        assert(inst_list@.map_values(|inst: Instruction| bits_of(inst)) =~= seq![
                i_word(OPCODE_ALU_AND_SHIFT_IMM, FUNCT3_000, R_T0, R_ZERO, 291u32),
                i_word(OPCODE_ALU_AND_SHIFT_IMM, FUNCT3_000, R_T1, R_T1, 291u32),
                b_word(OPCODE_BRANCH, FUNCT3_000, R_T0, R_T1, ((-4i32) as u32)),
                r_word(OPCODE_ALU_REGISTER, FUNCT3_000, FUNCT7_0000000, R_T2, R_T0, R_T1),
            ]);
    }
    let _st = cpu.load_and_run(inst_list.as_slice(), SELF_CHECK_STEPS);
    cpu.get_register(R_T0) == 0x123 && cpu.get_register(R_T1) == 0x246 && cpu.get_register(R_T2) == 0x369
}

fn test_bne(cpu: &mut RiscvCpu) -> (ok: bool)
    requires
        old(cpu).wf(),
    ensures
        final(cpu).wf(),
        ok == bne_check(),
{
    let inst_list = [
        inst_addi(R_T0, R_ZERO, 582),
        inst_addi(R_T1, R_T1, 291),
        inst_bne(R_T0, R_T1, -4),
        inst_add(R_T2, R_T0, R_T1),
    ];
    proof {
        assert(inst_list@.map_values(|inst: Instruction| bits_of(inst)) =~= seq![
                i_word(OPCODE_ALU_AND_SHIFT_IMM, FUNCT3_000, R_T0, R_ZERO, 582u32),
                i_word(OPCODE_ALU_AND_SHIFT_IMM, FUNCT3_000, R_T1, R_T1, 291u32),
                b_word(OPCODE_BRANCH, FUNCT3_001, R_T0, R_T1, ((-4i32) as u32)),
                r_word(OPCODE_ALU_REGISTER, FUNCT3_000, FUNCT7_0000000, R_T2, R_T0, R_T1),
            ]);
    }
    let _st = cpu.load_and_run(inst_list.as_slice(), SELF_CHECK_STEPS);
    cpu.get_register(R_T0) == 0x246 && cpu.get_register(R_T1) == 0x246 && cpu.get_register(R_T2) == 0x48c
}

fn test_blt(cpu: &mut RiscvCpu) -> (ok: bool)
    requires
        old(cpu).wf(),
    ensures
        final(cpu).wf(),
        ok == blt_check(),
{
    let inst_list = [
        inst_addi(R_T0, R_ZERO, 582),
        inst_addi(R_T1, R_T1, 291),
        inst_blt(R_T1, R_T0, -4),
        inst_add(R_T2, R_T0, R_T1),
    ];
    proof {
        assert(inst_list@.map_values(|inst: Instruction| bits_of(inst)) =~= seq![
                i_word(OPCODE_ALU_AND_SHIFT_IMM, FUNCT3_000, R_T0, R_ZERO, 582u32),
                i_word(OPCODE_ALU_AND_SHIFT_IMM, FUNCT3_000, R_T1, R_T1, 291u32),
                b_word(OPCODE_BRANCH, FUNCT3_100, R_T1, R_T0, ((-4i32) as u32)),
                r_word(OPCODE_ALU_REGISTER, FUNCT3_000, FUNCT7_0000000, R_T2, R_T0, R_T1),
            ]);
    }
    let _st = cpu.load_and_run(inst_list.as_slice(), SELF_CHECK_STEPS);
    cpu.get_register(R_T0) == 0x246 && cpu.get_register(R_T1) == 0x246 && cpu.get_register(R_T2) == 0x48c
}

fn test_bge(cpu: &mut RiscvCpu) -> (ok: bool)
    requires
        old(cpu).wf(),
    ensures
        final(cpu).wf(),
        ok == bge_check(),
{
    let inst_list = [
        inst_addi(R_T0, R_ZERO, 291),
        inst_addi(R_T1, R_ZERO, -1164),
        inst_addi(R_T1, R_T1, 582),
        inst_bge(R_T0, R_T1, -4),
        inst_add(R_T2, R_T0, R_T1),
    ];
    proof {
        assert(inst_list@.map_values(|inst: Instruction| bits_of(inst)) =~= seq![
                i_word(OPCODE_ALU_AND_SHIFT_IMM, FUNCT3_000, R_T0, R_ZERO, 291u32),
                i_word(OPCODE_ALU_AND_SHIFT_IMM, FUNCT3_000, R_T1, R_ZERO, ((-1164i32) as u32)),
                i_word(OPCODE_ALU_AND_SHIFT_IMM, FUNCT3_000, R_T1, R_T1, 582u32),
                b_word(OPCODE_BRANCH, FUNCT3_101, R_T0, R_T1, ((-4i32) as u32)),
                r_word(OPCODE_ALU_REGISTER, FUNCT3_000, FUNCT7_0000000, R_T2, R_T0, R_T1),
            ]);
    }
    let _st = cpu.load_and_run(inst_list.as_slice(), SELF_CHECK_STEPS);
    cpu.get_register(R_T0) == 0x123 && cpu.get_register(R_T1) == 0x246 && cpu.get_register(R_T2) == 0x369
}

fn test_bltu(cpu: &mut RiscvCpu) -> (ok: bool)
    requires
        old(cpu).wf(),
    ensures
        final(cpu).wf(),
        ok == bltu_check(),
{
    let inst_list = [
        inst_addi(R_T0, R_ZERO, 1606),
        inst_addi(R_T1, R_T1, 1315),
        inst_bltu(R_T1, R_T0, -4),
        inst_add(R_T2, R_T0, R_T1),
    ];
    proof {
        assert(inst_list@.map_values(|inst: Instruction| bits_of(inst)) =~= seq![
                i_word(OPCODE_ALU_AND_SHIFT_IMM, FUNCT3_000, R_T0, R_ZERO, 1606u32),
                i_word(OPCODE_ALU_AND_SHIFT_IMM, FUNCT3_000, R_T1, R_T1, 1315u32),
                b_word(OPCODE_BRANCH, FUNCT3_110, R_T1, R_T0, ((-4i32) as u32)),
                r_word(OPCODE_ALU_REGISTER, FUNCT3_000, FUNCT7_0000000, R_T2, R_T0, R_T1),
            ]);
    }
    let _st = cpu.load_and_run(inst_list.as_slice(), SELF_CHECK_STEPS);
    cpu.get_register(R_T0) == 0x646 && cpu.get_register(R_T1) == 0xa46 && cpu.get_register(R_T2) == 0x108c
}

fn test_bgeu(cpu: &mut RiscvCpu) -> (ok: bool)
    requires
        old(cpu).wf(),
    ensures
        final(cpu).wf(),
        ok == bgeu_check(),
        ok,
{
    proof {
        lemma_bgeu_scenario();
    }
    let inst_list = [
        inst_addi(R_T0, R_ZERO, 1606),
        inst_addi(R_T1, R_T1, 1315),
        inst_bgeu(R_T0, R_T1, -4),
        inst_add(R_T2, R_T0, R_T1),
    ];
    proof {
        assert(inst_list@.map_values(|inst: Instruction| bits_of(inst)) =~= seq![
                i_word(OPCODE_ALU_AND_SHIFT_IMM, FUNCT3_000, R_T0, R_ZERO, 1606u32),
                i_word(OPCODE_ALU_AND_SHIFT_IMM, FUNCT3_000, R_T1, R_T1, 1315u32),
                b_word(OPCODE_BRANCH, FUNCT3_111, R_T0, R_T1, ((-4i32) as u32)),
                r_word(OPCODE_ALU_REGISTER, FUNCT3_000, FUNCT7_0000000, R_T2, R_T0, R_T1),
            ]);
    }
    let _st = cpu.load_and_run(inst_list.as_slice(), SELF_CHECK_STEPS);
    cpu.get_register(R_T0) == 0x646 && cpu.get_register(R_T1) == 0xa46 && cpu.get_register(R_T2) == 0x108c
}

fn test_lbsb(cpu: &mut RiscvCpu) -> (ok: bool)
    requires
        old(cpu).wf(),
    ensures
        final(cpu).wf(),
        ok == lbsb_check(),
        ok,
{
    proof {
        lemma_lbsb_scenario();
    }
    let inst_list = [
        inst_addi(R_T0, R_ZERO, 12),
        inst_addi(R_T1, R_ZERO, -127),
        inst_sb(R_T0, R_T1, 8),
        inst_lb(R_T2, R_T0, 8),
    ];
    proof {
        assert(inst_list@.map_values(|inst: Instruction| bits_of(inst)) =~= seq![
                i_word(OPCODE_ALU_AND_SHIFT_IMM, FUNCT3_000, R_T0, R_ZERO, 12u32),
                i_word(OPCODE_ALU_AND_SHIFT_IMM, FUNCT3_000, R_T1, R_ZERO, ((-127i32) as u32)),
                s_word(OPCODE_STORE, FUNCT3_000, R_T0, R_T1, 8u32),
                i_word(OPCODE_LOAD, FUNCT3_000, R_T2, R_T0, 8u32),
            ]);
    }
    let _st = cpu.load_and_run(inst_list.as_slice(), SELF_CHECK_STEPS);
    cpu.get_register(R_T0) == 0x00c && cpu.get_register(R_T1) == 0xffffff81 && cpu.get_register(R_T2) == 0xffffff81
}

fn test_lhsh(cpu: &mut RiscvCpu) -> (ok: bool)
    requires
        old(cpu).wf(),
    ensures
        final(cpu).wf(),
        ok == lhsh_check(),
{
    let inst_list = [
        inst_addi(R_T0, R_ZERO, 12),
        inst_lui(R_T1, 0x00008),
        inst_addi(R_T1, R_T1, 1),
        inst_sh(R_T0, R_T1, 12),
        inst_lh(R_T2, R_T0, 12),
    ];
    proof {
        assert(inst_list@.map_values(|inst: Instruction| bits_of(inst)) =~= seq![
                i_word(OPCODE_ALU_AND_SHIFT_IMM, FUNCT3_000, R_T0, R_ZERO, 12u32),
                u_word(OPCODE_LUI, R_T1, 0x00008u32),
                i_word(OPCODE_ALU_AND_SHIFT_IMM, FUNCT3_000, R_T1, R_T1, 1u32),
                s_word(OPCODE_STORE, FUNCT3_001, R_T0, R_T1, 12u32),
                i_word(OPCODE_LOAD, FUNCT3_001, R_T2, R_T0, 12u32),
            ]);
    }
    let _st = cpu.load_and_run(inst_list.as_slice(), SELF_CHECK_STEPS);
    cpu.get_register(R_T0) == 0x00c && cpu.get_register(R_T1) == 0x8001 && cpu.get_register(R_T2) == 0xffff8001
}

fn test_lwsw(cpu: &mut RiscvCpu) -> (ok: bool)
    requires
        old(cpu).wf(),
    ensures
        final(cpu).wf(),
        ok == lwsw_check(),
{
    let inst_list = [
        inst_addi(R_T0, R_ZERO, 12),
        inst_lui(R_T1, 0x80000),
        inst_addi(R_T1, R_T1, 1),
        inst_sw(R_T0, R_T1, 12),
        inst_lw(R_T2, R_T0, 12),
    ];
    proof {
        assert(inst_list@.map_values(|inst: Instruction| bits_of(inst)) =~= seq![
                i_word(OPCODE_ALU_AND_SHIFT_IMM, FUNCT3_000, R_T0, R_ZERO, 12u32),
                u_word(OPCODE_LUI, R_T1, 0x80000u32),
                i_word(OPCODE_ALU_AND_SHIFT_IMM, FUNCT3_000, R_T1, R_T1, 1u32),
                s_word(OPCODE_STORE, FUNCT3_010, R_T0, R_T1, 12u32),
                i_word(OPCODE_LOAD, FUNCT3_010, R_T2, R_T0, 12u32),
            ]);
    }
    let _st = cpu.load_and_run(inst_list.as_slice(), SELF_CHECK_STEPS);
    cpu.get_register(R_T0) == 0x00c && cpu.get_register(R_T1) == 0x80000001 && cpu.get_register(R_T2) == 0x80000001
}

fn test_lbu(cpu: &mut RiscvCpu) -> (ok: bool)
    requires
        old(cpu).wf(),
    ensures
        final(cpu).wf(),
        ok == lbu_check(),
{
    let inst_list = [
        inst_addi(R_T0, R_ZERO, 12),
        inst_addi(R_T1, R_ZERO, 255),
        inst_sb(R_T0, R_T1, 8),
        inst_lbu(R_T2, R_T0, 8),
    ];
    proof {
        assert(inst_list@.map_values(|inst: Instruction| bits_of(inst)) =~= seq![
                i_word(OPCODE_ALU_AND_SHIFT_IMM, FUNCT3_000, R_T0, R_ZERO, 12u32),
                i_word(OPCODE_ALU_AND_SHIFT_IMM, FUNCT3_000, R_T1, R_ZERO, 255u32),
                s_word(OPCODE_STORE, FUNCT3_000, R_T0, R_T1, 8u32),
                i_word(OPCODE_LOAD, FUNCT3_100, R_T2, R_T0, 8u32),
            ]);
    }
    let _st = cpu.load_and_run(inst_list.as_slice(), SELF_CHECK_STEPS);
    cpu.get_register(R_T0) == 0x00c && cpu.get_register(R_T1) == 0xff && cpu.get_register(R_T2) == 0xff
}

fn test_lhu(cpu: &mut RiscvCpu) -> (ok: bool)
    requires
        old(cpu).wf(),
    ensures
        final(cpu).wf(),
        ok == lhu_check(),
{
    let inst_list = [
        inst_addi(R_T0, R_ZERO, 12),
        inst_lui(R_T1, 0x00010),
        inst_addi(R_T1, R_T1, -1),
        inst_sh(R_T0, R_T1, 12),
        inst_lhu(R_T2, R_T0, 12),
    ];
    proof {
        assert(inst_list@.map_values(|inst: Instruction| bits_of(inst)) =~= seq![
                i_word(OPCODE_ALU_AND_SHIFT_IMM, FUNCT3_000, R_T0, R_ZERO, 12u32),
                u_word(OPCODE_LUI, R_T1, 0x00010u32),
                i_word(OPCODE_ALU_AND_SHIFT_IMM, FUNCT3_000, R_T1, R_T1, ((-1i32) as u32)),
                s_word(OPCODE_STORE, FUNCT3_001, R_T0, R_T1, 12u32),
                i_word(OPCODE_LOAD, FUNCT3_101, R_T2, R_T0, 12u32),
            ]);
    }
    let _st = cpu.load_and_run(inst_list.as_slice(), SELF_CHECK_STEPS);
    cpu.get_register(R_T0) == 0x00c && cpu.get_register(R_T1) == 0xffff && cpu.get_register(R_T2) == 0xffff
}

fn test_addi(cpu: &mut RiscvCpu) -> (ok: bool)
    requires
        old(cpu).wf(),
    ensures
        final(cpu).wf(),
        ok == addi_check(),
{
    let inst_list = [
        inst_addi(R_T0, R_ZERO, 291),
        inst_addi(R_T1, R_T0, 582),
    ];
    proof {
        assert(inst_list@.map_values(|inst: Instruction| bits_of(inst)) =~= seq![
                i_word(OPCODE_ALU_AND_SHIFT_IMM, FUNCT3_000, R_T0, R_ZERO, 291u32),
                i_word(OPCODE_ALU_AND_SHIFT_IMM, FUNCT3_000, R_T1, R_T0, 582u32),
            ]);
    }
    let _st = cpu.load_and_run(inst_list.as_slice(), SELF_CHECK_STEPS);
    cpu.get_register(R_T0) == 0x123 && cpu.get_register(R_T1) == 0x369
}

fn test_slti(cpu: &mut RiscvCpu) -> (ok: bool)
    requires
        old(cpu).wf(),
    ensures
        final(cpu).wf(),
        ok == slti_check(),
{
    let inst_list = [
        inst_addi(R_T0, R_ZERO, -127),
        inst_slti(R_T1, R_T0, 291),
    ];
    proof {
        assert(inst_list@.map_values(|inst: Instruction| bits_of(inst)) =~= seq![
                i_word(OPCODE_ALU_AND_SHIFT_IMM, FUNCT3_000, R_T0, R_ZERO, ((-127i32) as u32)),
                i_word(OPCODE_ALU_AND_SHIFT_IMM, FUNCT3_010, R_T1, R_T0, 291u32),
            ]);
    }
    let _st = cpu.load_and_run(inst_list.as_slice(), SELF_CHECK_STEPS);
    cpu.get_register(R_T0) == 0xffffff81 && cpu.get_register(R_T1) == 0x1
}

fn test_sltiu(cpu: &mut RiscvCpu) -> (ok: bool)
    requires
        old(cpu).wf(),
    ensures
        final(cpu).wf(),
        ok == sltiu_check(),
{
    let inst_list = [
        inst_addi(R_T0, R_ZERO, -127),
        inst_sltiu(R_T1, R_T0, 3456),
    ];
    proof {
        assert(inst_list@.map_values(|inst: Instruction| bits_of(inst)) =~= seq![
                i_word(OPCODE_ALU_AND_SHIFT_IMM, FUNCT3_000, R_T0, R_ZERO, ((-127i32) as u32)),
                i_word(OPCODE_ALU_AND_SHIFT_IMM, FUNCT3_011, R_T1, R_T0, 3456u32),
            ]);
    }
    let _st = cpu.load_and_run(inst_list.as_slice(), SELF_CHECK_STEPS);
    cpu.get_register(R_T0) == 0xffffff81 && cpu.get_register(R_T1) == 0x0
}

fn test_xori(cpu: &mut RiscvCpu) -> (ok: bool)
    requires
        old(cpu).wf(),
    ensures
        final(cpu).wf(),
        ok == xori_check(),
        ok,
{
    proof {
        lemma_xori_scenario();
    }
    let inst_list = [
        inst_addi(R_T0, R_ZERO, 291),
        inst_xori(R_T1, R_T0, 582),
    ];
    proof {
        assert(inst_list@.map_values(|inst: Instruction| bits_of(inst)) =~= seq![
                i_word(OPCODE_ALU_AND_SHIFT_IMM, FUNCT3_000, R_T0, R_ZERO, 291u32),
                i_word(OPCODE_ALU_AND_SHIFT_IMM, FUNCT3_100, R_T1, R_T0, 582u32),
            ]);
    }
    let _st = cpu.load_and_run(inst_list.as_slice(), SELF_CHECK_STEPS);
    cpu.get_register(R_T0) == 0x123 && cpu.get_register(R_T1) == 0x365
}

fn test_ori(cpu: &mut RiscvCpu) -> (ok: bool)
    requires
        old(cpu).wf(),
    ensures
        final(cpu).wf(),
        ok == ori_check(),
{
    let inst_list = [
        inst_addi(R_T0, R_ZERO, 291),
        inst_ori(R_T1, R_T0, 582),
    ];
    proof {
        assert(inst_list@.map_values(|inst: Instruction| bits_of(inst)) =~= seq![
                i_word(OPCODE_ALU_AND_SHIFT_IMM, FUNCT3_000, R_T0, R_ZERO, 291u32),
                i_word(OPCODE_ALU_AND_SHIFT_IMM, FUNCT3_110, R_T1, R_T0, 582u32),
            ]);
    }
    let _st = cpu.load_and_run(inst_list.as_slice(), SELF_CHECK_STEPS);
    cpu.get_register(R_T0) == 0x123 && cpu.get_register(R_T1) == 0x367
}

fn test_andi(cpu: &mut RiscvCpu) -> (ok: bool)
    requires
        old(cpu).wf(),
    ensures
        final(cpu).wf(),
        ok == andi_check(),
{
    let inst_list = [
        inst_addi(R_T0, R_ZERO, 291),
        inst_andi(R_T1, R_T0, 582),
    ];
    proof {
        assert(inst_list@.map_values(|inst: Instruction| bits_of(inst)) =~= seq![
                i_word(OPCODE_ALU_AND_SHIFT_IMM, FUNCT3_000, R_T0, R_ZERO, 291u32),
                i_word(OPCODE_ALU_AND_SHIFT_IMM, FUNCT3_111, R_T1, R_T0, 582u32),
            ]);
    }
    let _st = cpu.load_and_run(inst_list.as_slice(), SELF_CHECK_STEPS);
    cpu.get_register(R_T0) == 0x123 && cpu.get_register(R_T1) == 0x002
}

fn test_slli(cpu: &mut RiscvCpu) -> (ok: bool)
    requires
        old(cpu).wf(),
    ensures
        final(cpu).wf(),
        ok == slli_check(),
{
    let inst_list = [
        inst_addi(R_T0, R_ZERO, 582),
        inst_slli(R_T1, R_T0, 16),
    ];
    proof {
        assert(inst_list@.map_values(|inst: Instruction| bits_of(inst)) =~= seq![
                i_word(OPCODE_ALU_AND_SHIFT_IMM, FUNCT3_000, R_T0, R_ZERO, 582u32),
                shift_word(OPCODE_ALU_AND_SHIFT_IMM, FUNCT3_001, FUNCT7_0000000, R_T1, R_T0, 16u32),
            ]);
    }
    let _st = cpu.load_and_run(inst_list.as_slice(), SELF_CHECK_STEPS);
    cpu.get_register(R_T0) == 0x246 && cpu.get_register(R_T1) == 0x2460000
}

fn test_srli(cpu: &mut RiscvCpu) -> (ok: bool)
    requires
        old(cpu).wf(),
    ensures
        final(cpu).wf(),
        ok == srli_check(),
{
    let inst_list = [
        inst_lui(R_T0, 0x2460),
        inst_srli(R_T1, R_T0, 16),
    ];
    proof {
        assert(inst_list@.map_values(|inst: Instruction| bits_of(inst)) =~= seq![
                u_word(OPCODE_LUI, R_T0, 0x2460u32),
                shift_word(OPCODE_ALU_AND_SHIFT_IMM, FUNCT3_101, FUNCT7_0000000, R_T1, R_T0, 16u32),
            ]);
    }
    let _st = cpu.load_and_run(inst_list.as_slice(), SELF_CHECK_STEPS);
    cpu.get_register(R_T0) == 0x2460000 && cpu.get_register(R_T1) == 0x246
}

fn test_srai(cpu: &mut RiscvCpu) -> (ok: bool)
    requires
        old(cpu).wf(),
    ensures
        final(cpu).wf(),
        ok == srai_check(),
        ok,
{
    proof {
        lemma_srai_scenario();
    }
    let inst_list = [
        inst_lui(R_T0, 0x80000),
        inst_addi(R_T0, R_T0, 1),
        inst_srai(R_T1, R_T0, 16),
    ];
    proof {
        assert(inst_list@.map_values(|inst: Instruction| bits_of(inst)) =~= seq![
                u_word(OPCODE_LUI, R_T0, 0x80000u32),
                i_word(OPCODE_ALU_AND_SHIFT_IMM, FUNCT3_000, R_T0, R_T0, 1u32),
                shift_word(OPCODE_ALU_AND_SHIFT_IMM, FUNCT3_101, FUNCT7_0100000, R_T1, R_T0, 16u32),
            ]);
    }
    let _st = cpu.load_and_run(inst_list.as_slice(), SELF_CHECK_STEPS);
    cpu.get_register(R_T0) == 0x80000001 && cpu.get_register(R_T1) == 0xffff8000
}

fn test_add(cpu: &mut RiscvCpu) -> (ok: bool)
    requires
        old(cpu).wf(),
    ensures
        final(cpu).wf(),
        ok == add_check(),
{
    let inst_list = [
        inst_addi(R_T0, R_ZERO, 291),
        inst_addi(R_T1, R_ZERO, 582),
        inst_add(R_T2, R_T0, R_T1),
    ];
    proof {
        assert(inst_list@.map_values(|inst: Instruction| bits_of(inst)) =~= seq![
                i_word(OPCODE_ALU_AND_SHIFT_IMM, FUNCT3_000, R_T0, R_ZERO, 291u32),
                i_word(OPCODE_ALU_AND_SHIFT_IMM, FUNCT3_000, R_T1, R_ZERO, 582u32),
                r_word(OPCODE_ALU_REGISTER, FUNCT3_000, FUNCT7_0000000, R_T2, R_T0, R_T1),
            ]);
    }
    let _st = cpu.load_and_run(inst_list.as_slice(), SELF_CHECK_STEPS);
    cpu.get_register(R_T0) == 0x123 && cpu.get_register(R_T1) == 0x246 && cpu.get_register(R_T2) == 0x369
}

fn test_sub(cpu: &mut RiscvCpu) -> (ok: bool)
    requires
        old(cpu).wf(),
    ensures
        final(cpu).wf(),
        ok == sub_check(),
{
    let inst_list = [
        inst_addi(R_T0, R_ZERO, 582),
        inst_addi(R_T1, R_ZERO, 291),
        inst_sub(R_T2, R_T0, R_T1),
    ];
    proof {
        assert(inst_list@.map_values(|inst: Instruction| bits_of(inst)) =~= seq![
                i_word(OPCODE_ALU_AND_SHIFT_IMM, FUNCT3_000, R_T0, R_ZERO, 582u32),
                i_word(OPCODE_ALU_AND_SHIFT_IMM, FUNCT3_000, R_T1, R_ZERO, 291u32),
                r_word(OPCODE_ALU_REGISTER, FUNCT3_000, FUNCT7_0100000, R_T2, R_T0, R_T1),
            ]);
    }
    let _st = cpu.load_and_run(inst_list.as_slice(), SELF_CHECK_STEPS);
    cpu.get_register(R_T0) == 0x246 && cpu.get_register(R_T1) == 0x123 && cpu.get_register(R_T2) == 0x123
}

fn test_sll(cpu: &mut RiscvCpu) -> (ok: bool)
    requires
        old(cpu).wf(),
    ensures
        final(cpu).wf(),
        ok == sll_check(),
{
    let inst_list = [
        inst_addi(R_T0, R_ZERO, 582),
        inst_addi(R_T1, R_ZERO, 16),
        inst_sll(R_T2, R_T0, R_T1),
    ];
    proof {
        assert(inst_list@.map_values(|inst: Instruction| bits_of(inst)) =~= seq![
                i_word(OPCODE_ALU_AND_SHIFT_IMM, FUNCT3_000, R_T0, R_ZERO, 582u32),
                i_word(OPCODE_ALU_AND_SHIFT_IMM, FUNCT3_000, R_T1, R_ZERO, 16u32),
                r_word(OPCODE_ALU_REGISTER, FUNCT3_001, FUNCT7_0000000, R_T2, R_T0, R_T1),
            ]);
    }
    let _st = cpu.load_and_run(inst_list.as_slice(), SELF_CHECK_STEPS);
    cpu.get_register(R_T0) == 0x246 && cpu.get_register(R_T1) == 0x010 && cpu.get_register(R_T2) == 0x2460000
}

fn test_slt(cpu: &mut RiscvCpu) -> (ok: bool)
    requires
        old(cpu).wf(),
    ensures
        final(cpu).wf(),
        ok == slt_check(),
{
    let inst_list = [
        inst_addi(R_T0, R_ZERO, -127),
        inst_addi(R_T1, R_ZERO, 291),
        inst_slt(R_T2, R_T0, R_T1),
    ];
    proof {
        assert(inst_list@.map_values(|inst: Instruction| bits_of(inst)) =~= seq![
                i_word(OPCODE_ALU_AND_SHIFT_IMM, FUNCT3_000, R_T0, R_ZERO, ((-127i32) as u32)),
                i_word(OPCODE_ALU_AND_SHIFT_IMM, FUNCT3_000, R_T1, R_ZERO, 291u32),
                r_word(OPCODE_ALU_REGISTER, FUNCT3_010, FUNCT7_0000000, R_T2, R_T0, R_T1),
            ]);
    }
    let _st = cpu.load_and_run(inst_list.as_slice(), SELF_CHECK_STEPS);
    cpu.get_register(R_T0) == 0xffffff81 && cpu.get_register(R_T1) == 0x123 && cpu.get_register(R_T2) == 0x1
}

fn test_sltu(cpu: &mut RiscvCpu) -> (ok: bool)
    requires
        old(cpu).wf(),
    ensures
        final(cpu).wf(),
        ok == sltu_check(),
{
    let inst_list = [
        inst_addi(R_T0, R_ZERO, 2456),
        inst_addi(R_T1, R_ZERO, 3456),
        inst_sltu(R_T2, R_T0, R_T1),
    ];
    proof {
        assert(inst_list@.map_values(|inst: Instruction| bits_of(inst)) =~= seq![
                i_word(OPCODE_ALU_AND_SHIFT_IMM, FUNCT3_000, R_T0, R_ZERO, 2456u32),
                i_word(OPCODE_ALU_AND_SHIFT_IMM, FUNCT3_000, R_T1, R_ZERO, 3456u32),
                r_word(OPCODE_ALU_REGISTER, FUNCT3_011, FUNCT7_0000000, R_T2, R_T0, R_T1),
            ]);
    }
    let _st = cpu.load_and_run(inst_list.as_slice(), SELF_CHECK_STEPS);
    cpu.get_register(R_T0) == 0xfffff998 && cpu.get_register(R_T1) == 0xfffffd80 && cpu.get_register(R_T2) == 0x1
}

fn test_xor(cpu: &mut RiscvCpu) -> (ok: bool)
    requires
        old(cpu).wf(),
    ensures
        final(cpu).wf(),
        ok == xor_check(),
{
    let inst_list = [
        inst_addi(R_T0, R_ZERO, 291),
        inst_addi(R_T1, R_ZERO, 582),
        inst_xor(R_T2, R_T0, R_T1),
    ];
    proof {
        assert(inst_list@.map_values(|inst: Instruction| bits_of(inst)) =~= seq![
                i_word(OPCODE_ALU_AND_SHIFT_IMM, FUNCT3_000, R_T0, R_ZERO, 291u32),
                i_word(OPCODE_ALU_AND_SHIFT_IMM, FUNCT3_000, R_T1, R_ZERO, 582u32),
                r_word(OPCODE_ALU_REGISTER, FUNCT3_100, FUNCT7_0000000, R_T2, R_T0, R_T1),
            ]);
    }
    let _st = cpu.load_and_run(inst_list.as_slice(), SELF_CHECK_STEPS);
    cpu.get_register(R_T0) == 0x123 && cpu.get_register(R_T1) == 0x246 && cpu.get_register(R_T2) == 0x365
}

fn test_srl(cpu: &mut RiscvCpu) -> (ok: bool)
    requires
        old(cpu).wf(),
    ensures
        final(cpu).wf(),
        ok == srl_check(),
{
    let inst_list = [
        inst_lui(R_T0, 0x2460),
        inst_addi(R_T1, R_ZERO, 16),
        inst_srl(R_T2, R_T0, R_T1),
    ];
    proof {
        assert(inst_list@.map_values(|inst: Instruction| bits_of(inst)) =~= seq![
                u_word(OPCODE_LUI, R_T0, 0x2460u32),
                i_word(OPCODE_ALU_AND_SHIFT_IMM, FUNCT3_000, R_T1, R_ZERO, 16u32),
                r_word(OPCODE_ALU_REGISTER, FUNCT3_101, FUNCT7_0000000, R_T2, R_T0, R_T1),
            ]);
    }
    let _st = cpu.load_and_run(inst_list.as_slice(), SELF_CHECK_STEPS);
    cpu.get_register(R_T0) == 0x2460000 && cpu.get_register(R_T1) == 0x010 && cpu.get_register(R_T2) == 0x246
}

fn test_sra(cpu: &mut RiscvCpu) -> (ok: bool)
    requires
        old(cpu).wf(),
    ensures
        final(cpu).wf(),
        ok == sra_check(),
{
    let inst_list = [
        inst_lui(R_T0, 0x80000),
        inst_addi(R_T0, R_T0, 1),
        inst_addi(R_T1, R_ZERO, 16),
        inst_sra(R_T2, R_T0, R_T1),
    ];
    proof {
        assert(inst_list@.map_values(|inst: Instruction| bits_of(inst)) =~= seq![
                u_word(OPCODE_LUI, R_T0, 0x80000u32),
                i_word(OPCODE_ALU_AND_SHIFT_IMM, FUNCT3_000, R_T0, R_T0, 1u32),
                i_word(OPCODE_ALU_AND_SHIFT_IMM, FUNCT3_000, R_T1, R_ZERO, 16u32),
                r_word(OPCODE_ALU_REGISTER, FUNCT3_101, FUNCT7_0100000, R_T2, R_T0, R_T1),
            ]);
    }
    let _st = cpu.load_and_run(inst_list.as_slice(), SELF_CHECK_STEPS);
    cpu.get_register(R_T0) == 0x80000001 && cpu.get_register(R_T1) == 0x010 && cpu.get_register(R_T2) == 0xffff8000
}

fn test_or(cpu: &mut RiscvCpu) -> (ok: bool)
    requires
        old(cpu).wf(),
    ensures
        final(cpu).wf(),
        ok == or_check(),
{
    let inst_list = [
        inst_addi(R_T0, R_ZERO, 291),
        inst_addi(R_T1, R_ZERO, 582),
        inst_or(R_T2, R_T0, R_T1),
    ];
    proof {
        assert(inst_list@.map_values(|inst: Instruction| bits_of(inst)) =~= seq![
                i_word(OPCODE_ALU_AND_SHIFT_IMM, FUNCT3_000, R_T0, R_ZERO, 291u32),
                i_word(OPCODE_ALU_AND_SHIFT_IMM, FUNCT3_000, R_T1, R_ZERO, 582u32),
                r_word(OPCODE_ALU_REGISTER, FUNCT3_110, FUNCT7_0000000, R_T2, R_T0, R_T1),
            ]);
    }
    let _st = cpu.load_and_run(inst_list.as_slice(), SELF_CHECK_STEPS);
    cpu.get_register(R_T0) == 0x123 && cpu.get_register(R_T1) == 0x246 && cpu.get_register(R_T2) == 0x367
}

fn test_and(cpu: &mut RiscvCpu) -> (ok: bool)
    requires
        old(cpu).wf(),
    ensures
        final(cpu).wf(),
        ok == and_check(),
{
    let inst_list = [
        inst_addi(R_T0, R_ZERO, 291),
        inst_addi(R_T1, R_ZERO, 582),
        inst_and(R_T2, R_T0, R_T1),
    ];
    proof {
        assert(inst_list@.map_values(|inst: Instruction| bits_of(inst)) =~= seq![
                i_word(OPCODE_ALU_AND_SHIFT_IMM, FUNCT3_000, R_T0, R_ZERO, 291u32),
                i_word(OPCODE_ALU_AND_SHIFT_IMM, FUNCT3_000, R_T1, R_ZERO, 582u32),
                r_word(OPCODE_ALU_REGISTER, FUNCT3_111, FUNCT7_0000000, R_T2, R_T0, R_T1),
            ]);
    }
    let _st = cpu.load_and_run(inst_list.as_slice(), SELF_CHECK_STEPS);
    cpu.get_register(R_T0) == 0x123 && cpu.get_register(R_T1) == 0x246 && cpu.get_register(R_T2) == 0x002
}

/// Whether every instruction-level self-check's expected outcome holds
/// of the mathematical machine.
pub open spec fn tests_inst_check() -> bool {
    lui_check() && auipc_check() && jal_check() && jalr_check() && beq_check() && bne_check() && blt_check() && bge_check() && bltu_check() && bgeu_check() && lbsb_check() && lhsh_check() && lwsw_check() && lbu_check() && lhu_check() && addi_check() && slti_check() && sltiu_check() && xori_check() && ori_check() && andi_check() && slli_check() && srli_check() && srai_check() && add_check() && sub_check() && sll_check() && slt_check() && sltu_check() && xor_check() && srl_check() && sra_check() && or_check() && and_check()
}

/// Run every instruction-level self-check and report whether all of
/// them held; the flag provably equals [`tests_inst_check`].
pub fn tests_inst(cpu: &mut RiscvCpu) -> (ok: bool)
    requires
        old(cpu).wf(),
    ensures
        final(cpu).wf(),
        ok == tests_inst_check(),
{
    let ok = true;
    let ok = test_lui(cpu) && ok;
    let ok = test_auipc(cpu) && ok;
    let ok = test_jal(cpu) && ok;
    let ok = test_jalr(cpu) && ok;
    let ok = test_beq(cpu) && ok;
    let ok = test_bne(cpu) && ok;
    let ok = test_blt(cpu) && ok;
    let ok = test_bge(cpu) && ok;
    let ok = test_bltu(cpu) && ok;
    let ok = test_bgeu(cpu) && ok;
    let ok = test_lbsb(cpu) && ok;
    let ok = test_lhsh(cpu) && ok;
    let ok = test_lwsw(cpu) && ok;
    let ok = test_lbu(cpu) && ok;
    let ok = test_lhu(cpu) && ok;
    let ok = test_addi(cpu) && ok;
    let ok = test_slti(cpu) && ok;
    let ok = test_sltiu(cpu) && ok;
    let ok = test_xori(cpu) && ok;
    let ok = test_ori(cpu) && ok;
    let ok = test_andi(cpu) && ok;
    let ok = test_slli(cpu) && ok;
    let ok = test_srli(cpu) && ok;
    let ok = test_srai(cpu) && ok;
    let ok = test_add(cpu) && ok;
    let ok = test_sub(cpu) && ok;
    let ok = test_sll(cpu) && ok;
    let ok = test_slt(cpu) && ok;
    let ok = test_sltu(cpu) && ok;
    let ok = test_xor(cpu) && ok;
    let ok = test_srl(cpu) && ok;
    let ok = test_sra(cpu) && ok;
    let ok = test_or(cpu) && ok;
    let ok = test_and(cpu) && ok;
    ok
}

} // verus!

verus! {

use crate::cpu::{
    lemma_program_mem_fetch,
    step,
    step4,
    with_reg,
    with_mem as cpu_with_mem,
    word_at,
    zero_reg0,
    CpuView,
    Fault,
    RunStatus,
    HALT_SENTINEL,
};
use crate::imm_enc_dec::sext;
use crate::instructions::{
    lemma_b_word_decodes,
    lemma_i_word_decodes,
    lemma_j_word_decodes,
    lemma_r_word_decodes,
    lemma_s_word_decodes,
    lemma_shift_word_decodes,
    lemma_u_word_decodes,
};

/// A value below a field's width passes through the field's mask
/// unchanged.
proof fn lemma_small_field_masks()
    by (bit_vector)
    ensures
        forall|x: u32| x < 128 ==> #[trigger] (x & 0x7F) == x,
        forall|x: u32| x < 32 ==> #[trigger] (x & 0x1F) == x,
        forall|x: u32| x < 8 ==> #[trigger] (x & 0x7) == x,
{
}

/// The concrete bit-level values the scenario proofs below rest on.
proof fn lemma_scenario_ground_facts()
    by (bit_vector)
    ensures
        0xDEADC0DEu32 & 0x7F == 0x5E,
        0x12345u32 << 12u32 == 0x1234_5000u32,
        0x80000u32 << 12u32 == 0x8000_0000u32,
        ((-127i32) as u32) == 0xFFFF_FF81u32,
        ((0xFFFF_FF81u32) as u8) == 0x81u8,
        ((0x81u8) as u32) == 0x81u32,
        sext(0x81u32, 8) == 0xFFFF_FF81u32,
        ((-4i32) as u32) == 0xFFFF_FFFCu32,
        0x123u32 ^ 0x246u32 == 0x365u32,
        (((0x8000_0001u32 as i32) >> 16u32) as u32) == 0xFFFF_8000u32,
{
}

/// The lui scenario holds of the mathematical machine: load upper
/// immediate composes with an add-immediate result.
pub proof fn lemma_lui_scenario()
    ensures
        lui_check(),
{
    lemma_small_field_masks();
    lemma_scenario_ground_facts();
    let words = seq![
        i_word(OPCODE_ALU_AND_SHIFT_IMM, FUNCT3_000, R_T0, R_ZERO, 291u32),
        u_word(OPCODE_LUI, R_T1, 0x12345u32),
        r_word(OPCODE_ALU_REGISTER, FUNCT3_000, FUNCT7_0000000, R_T2, R_T0, R_T1),
    ];
    lemma_i_word_decodes(OPCODE_ALU_AND_SHIFT_IMM, FUNCT3_000, R_T0, R_ZERO, 291);
    lemma_u_word_decodes(OPCODE_LUI, R_T1, 0x12345);
    lemma_r_word_decodes(OPCODE_ALU_REGISTER, FUNCT3_000, FUNCT7_0000000, R_T2, R_T0, R_T1);
    lemma_program_mem_fetch(words, 0);
    lemma_program_mem_fetch(words, 1);
    lemma_program_mem_fetch(words, 2);
    lemma_program_mem_fetch(words, 3);
    let s0 = cpu_with_mem(reset_state(), program_mem(words));
    let n = SELF_CHECK_STEPS as nat;
    let s1 = zero_reg0(s0);
    assert(word_at(s1.mem, s1.pc as int) == words[0] && words[0] != HALT_SENTINEL);
    let s2 = step4(with_reg(s1, R_T0, 291));
    assert(step(s1, words[0]) == Ok::<CpuView, Fault>(s2));
    assert(run_spec(s0, n) == run_spec(s2, (n - 1) as nat));
    let s3 = zero_reg0(s2);
    assert(word_at(s3.mem, s3.pc as int) == words[1] && words[1] != HALT_SENTINEL);
    let s4 = step4(with_reg(s3, R_T1, 0x1234_5000));
    assert(step(s3, words[1]) == Ok::<CpuView, Fault>(s4));
    assert(run_spec(s2, (n - 1) as nat) == run_spec(s4, (n - 2) as nat));
    let s5 = zero_reg0(s4);
    assert(word_at(s5.mem, s5.pc as int) == words[2] && words[2] != HALT_SENTINEL);
    let s6 = step4(with_reg(s5, R_T2, 0x1234_5123));
    assert(step(s5, words[2]) == Ok::<CpuView, Fault>(s6));
    assert(run_spec(s4, (n - 2) as nat) == run_spec(s6, (n - 3) as nat));
    let s7 = zero_reg0(s6);
    assert(word_at(s7.mem, s7.pc as int) == HALT_SENTINEL);
    assert(run_spec(s6, (n - 3) as nat) == (s7, RunStatus::Halted));
}

} // verus!

verus! {

/// The jal scenario holds of the mathematical machine: the link register
/// captures the return address and the jump skips one instruction.
pub proof fn lemma_jal_scenario()
    ensures
        jal_check(),
{
    lemma_small_field_masks();
    lemma_scenario_ground_facts();
    let words = seq![
        i_word(OPCODE_ALU_AND_SHIFT_IMM, FUNCT3_000, R_T0, R_ZERO, 582u32),
        i_word(OPCODE_ALU_AND_SHIFT_IMM, FUNCT3_000, R_T1, R_T0, 291u32),
        j_word(OPCODE_JAL, R_T2, 8u32),
        r_word(OPCODE_ALU_REGISTER, FUNCT3_000, FUNCT7_0000000, R_T2, R_T0, R_T1),
        r_word(OPCODE_ALU_REGISTER, FUNCT3_000, FUNCT7_0000000, R_T3, R_T2, R_T1),
        i_word(OPCODE_ALU_AND_SHIFT_IMM, FUNCT3_000, R_T3, R_T3, 873u32),
    ];
    lemma_i_word_decodes(OPCODE_ALU_AND_SHIFT_IMM, FUNCT3_000, R_T0, R_ZERO, 582);
    lemma_i_word_decodes(OPCODE_ALU_AND_SHIFT_IMM, FUNCT3_000, R_T1, R_T0, 291);
    lemma_j_word_decodes(OPCODE_JAL, R_T2, 8);
    lemma_r_word_decodes(OPCODE_ALU_REGISTER, FUNCT3_000, FUNCT7_0000000, R_T2, R_T0, R_T1);
    lemma_r_word_decodes(OPCODE_ALU_REGISTER, FUNCT3_000, FUNCT7_0000000, R_T3, R_T2, R_T1);
    lemma_i_word_decodes(OPCODE_ALU_AND_SHIFT_IMM, FUNCT3_000, R_T3, R_T3, 873);
    lemma_program_mem_fetch(words, 0);
    lemma_program_mem_fetch(words, 1);
    lemma_program_mem_fetch(words, 2);
    lemma_program_mem_fetch(words, 4);
    lemma_program_mem_fetch(words, 5);
    lemma_program_mem_fetch(words, 6);
    let s0 = cpu_with_mem(reset_state(), program_mem(words));
    let n = SELF_CHECK_STEPS as nat;
    let s1 = zero_reg0(s0);
    assert(word_at(s1.mem, s1.pc as int) == words[0] && words[0] != HALT_SENTINEL);
    let s2 = step4(with_reg(s1, R_T0, 582));
    assert(step(s1, words[0]) == Ok::<CpuView, Fault>(s2));
    assert(run_spec(s0, n) == run_spec(s2, (n - 1) as nat));
    let s3 = zero_reg0(s2);
    assert(word_at(s3.mem, s3.pc as int) == words[1] && words[1] != HALT_SENTINEL);
    let s4 = step4(with_reg(s3, R_T1, 873));
    assert(step(s3, words[1]) == Ok::<CpuView, Fault>(s4));
    assert(run_spec(s2, (n - 1) as nat) == run_spec(s4, (n - 2) as nat));
    // the jump: link is 12, the target is 16, past one instruction
    let s5 = zero_reg0(s4);
    assert(word_at(s5.mem, s5.pc as int) == words[2] && words[2] != HALT_SENTINEL);
    let s6 = crate::cpu::with_pc(with_reg(s5, R_T2, 12), 16);
    assert(step(s5, words[2]) == Ok::<CpuView, Fault>(s6));
    assert(run_spec(s4, (n - 2) as nat) == run_spec(s6, (n - 3) as nat));
    let s7 = zero_reg0(s6);
    assert(word_at(s7.mem, s7.pc as int) == words[4] && words[4] != HALT_SENTINEL);
    let s8 = step4(with_reg(s7, R_T3, 885));
    assert(step(s7, words[4]) == Ok::<CpuView, Fault>(s8));
    assert(run_spec(s6, (n - 3) as nat) == run_spec(s8, (n - 4) as nat));
    let s9 = zero_reg0(s8);
    assert(word_at(s9.mem, s9.pc as int) == words[5] && words[5] != HALT_SENTINEL);
    let s10 = step4(with_reg(s9, R_T3, 1758));
    assert(step(s9, words[5]) == Ok::<CpuView, Fault>(s10));
    assert(run_spec(s8, (n - 4) as nat) == run_spec(s10, (n - 5) as nat));
    let s11 = zero_reg0(s10);
    assert(word_at(s11.mem, s11.pc as int) == HALT_SENTINEL);
    assert(run_spec(s10, (n - 5) as nat) == (s11, RunStatus::Halted));
}

/// The byte store/load scenario holds of the mathematical machine: a
/// stored byte loads back sign-extended.
pub proof fn lemma_lbsb_scenario()
    ensures
        lbsb_check(),
{
    lemma_small_field_masks();
    lemma_scenario_ground_facts();
    let words = seq![
        i_word(OPCODE_ALU_AND_SHIFT_IMM, FUNCT3_000, R_T0, R_ZERO, 12u32),
        i_word(OPCODE_ALU_AND_SHIFT_IMM, FUNCT3_000, R_T1, R_ZERO, ((-127i32) as u32)),
        s_word(OPCODE_STORE, FUNCT3_000, R_T0, R_T1, 8u32),
        i_word(OPCODE_LOAD, FUNCT3_000, R_T2, R_T0, 8u32),
    ];
    lemma_i_word_decodes(OPCODE_ALU_AND_SHIFT_IMM, FUNCT3_000, R_T0, R_ZERO, 12);
    lemma_i_word_decodes(OPCODE_ALU_AND_SHIFT_IMM, FUNCT3_000, R_T1, R_ZERO, -127i32);
    lemma_s_word_decodes(OPCODE_STORE, FUNCT3_000, R_T0, R_T1, 8i32);
    lemma_i_word_decodes(OPCODE_LOAD, FUNCT3_000, R_T2, R_T0, 8);
    lemma_program_mem_fetch(words, 0);
    lemma_program_mem_fetch(words, 1);
    lemma_program_mem_fetch(words, 2);
    lemma_program_mem_fetch(words, 3);
    lemma_program_mem_fetch(words, 4);
    let s0 = cpu_with_mem(reset_state(), program_mem(words));
    let n = SELF_CHECK_STEPS as nat;
    let s1 = zero_reg0(s0);
    assert(word_at(s1.mem, s1.pc as int) == words[0] && words[0] != HALT_SENTINEL);
    let s2 = step4(with_reg(s1, R_T0, 12));
    assert(step(s1, words[0]) == Ok::<CpuView, Fault>(s2));
    assert(run_spec(s0, n) == run_spec(s2, (n - 1) as nat));
    let s3 = zero_reg0(s2);
    assert(word_at(s3.mem, s3.pc as int) == words[1] && words[1] != HALT_SENTINEL);
    let s4 = step4(with_reg(s3, R_T1, 0xFFFF_FF81));
    assert(step(s3, words[1]) == Ok::<CpuView, Fault>(s4));
    assert(run_spec(s2, (n - 1) as nat) == run_spec(s4, (n - 2) as nat));
    // the store writes the low byte of t1 at address 20
    let s5 = zero_reg0(s4);
    assert(word_at(s5.mem, s5.pc as int) == words[2] && words[2] != HALT_SENTINEL);
    let s6 = step4(cpu_with_mem(s5, s5.mem.update(20, 0x81u8)));
    assert(step(s5, words[2]) == Ok::<CpuView, Fault>(s6));
    assert(run_spec(s4, (n - 2) as nat) == run_spec(s6, (n - 3) as nat));
    // the load at address 20 sign-extends the byte back
    let s7 = zero_reg0(s6);
    assert(word_at(s7.mem, s7.pc as int) == words[3] && words[3] != HALT_SENTINEL);
    assert(s7.mem[20] == 0x81u8);
    let s8 = step4(with_reg(s7, R_T2, 0xFFFF_FF81));
    assert(step(s7, words[3]) == Ok::<CpuView, Fault>(s8));
    assert(run_spec(s6, (n - 3) as nat) == run_spec(s8, (n - 4) as nat));
    let s9 = zero_reg0(s8);
    assert(word_at(s9.mem, s9.pc as int) == HALT_SENTINEL);
    assert(run_spec(s8, (n - 4) as nat) == (s9, RunStatus::Halted));
}

/// The arithmetic-shift scenario holds of the mathematical machine: a
/// negative value shifted right arithmetically keeps its sign.
pub proof fn lemma_srai_scenario()
    ensures
        srai_check(),
{
    lemma_small_field_masks();
    lemma_scenario_ground_facts();
    let words = seq![
        u_word(OPCODE_LUI, R_T0, 0x80000u32),
        i_word(OPCODE_ALU_AND_SHIFT_IMM, FUNCT3_000, R_T0, R_T0, 1u32),
        shift_word(OPCODE_ALU_AND_SHIFT_IMM, FUNCT3_101, FUNCT7_0100000, R_T1, R_T0, 16u32),
    ];
    lemma_u_word_decodes(OPCODE_LUI, R_T0, 0x80000);
    lemma_i_word_decodes(OPCODE_ALU_AND_SHIFT_IMM, FUNCT3_000, R_T0, R_T0, 1);
    lemma_shift_word_decodes(OPCODE_ALU_AND_SHIFT_IMM, FUNCT3_101, FUNCT7_0100000, R_T1, R_T0, 16);
    lemma_program_mem_fetch(words, 0);
    lemma_program_mem_fetch(words, 1);
    lemma_program_mem_fetch(words, 2);
    lemma_program_mem_fetch(words, 3);
    let s0 = cpu_with_mem(reset_state(), program_mem(words));
    let n = SELF_CHECK_STEPS as nat;
    let s1 = zero_reg0(s0);
    assert(word_at(s1.mem, s1.pc as int) == words[0] && words[0] != HALT_SENTINEL);
    let s2 = step4(with_reg(s1, R_T0, 0x8000_0000));
    assert(step(s1, words[0]) == Ok::<CpuView, Fault>(s2));
    assert(run_spec(s0, n) == run_spec(s2, (n - 1) as nat));
    let s3 = zero_reg0(s2);
    assert(word_at(s3.mem, s3.pc as int) == words[1] && words[1] != HALT_SENTINEL);
    let s4 = step4(with_reg(s3, R_T0, 0x8000_0001));
    assert(step(s3, words[1]) == Ok::<CpuView, Fault>(s4));
    assert(run_spec(s2, (n - 1) as nat) == run_spec(s4, (n - 2) as nat));
    let s5 = zero_reg0(s4);
    assert(word_at(s5.mem, s5.pc as int) == words[2] && words[2] != HALT_SENTINEL);
    let s6 = step4(with_reg(s5, R_T1, 0xFFFF_8000));
    assert(step(s5, words[2]) == Ok::<CpuView, Fault>(s6));
    assert(run_spec(s4, (n - 2) as nat) == run_spec(s6, (n - 3) as nat));
    let s7 = zero_reg0(s6);
    assert(word_at(s7.mem, s7.pc as int) == HALT_SENTINEL);
    assert(run_spec(s6, (n - 3) as nat) == (s7, RunStatus::Halted));
}

/// The unsigned-branch scenario holds of the mathematical machine: the
/// loop repeats until the accumulating register passes the bound in the
/// unsigned order.
pub proof fn lemma_bgeu_scenario()
    ensures
        bgeu_check(),
{
    lemma_small_field_masks();
    lemma_scenario_ground_facts();
    let words = seq![
        i_word(OPCODE_ALU_AND_SHIFT_IMM, FUNCT3_000, R_T0, R_ZERO, 1606u32),
        i_word(OPCODE_ALU_AND_SHIFT_IMM, FUNCT3_000, R_T1, R_T1, 1315u32),
        b_word(OPCODE_BRANCH, FUNCT3_111, R_T0, R_T1, ((-4i32) as u32)),
        r_word(OPCODE_ALU_REGISTER, FUNCT3_000, FUNCT7_0000000, R_T2, R_T0, R_T1),
    ];
    lemma_i_word_decodes(OPCODE_ALU_AND_SHIFT_IMM, FUNCT3_000, R_T0, R_ZERO, 1606);
    lemma_i_word_decodes(OPCODE_ALU_AND_SHIFT_IMM, FUNCT3_000, R_T1, R_T1, 1315);
    lemma_b_word_decodes(OPCODE_BRANCH, FUNCT3_111, R_T0, R_T1, (-4) as i32);
    lemma_r_word_decodes(OPCODE_ALU_REGISTER, FUNCT3_000, FUNCT7_0000000, R_T2, R_T0, R_T1);
    lemma_program_mem_fetch(words, 0);
    lemma_program_mem_fetch(words, 1);
    lemma_program_mem_fetch(words, 2);
    lemma_program_mem_fetch(words, 3);
    lemma_program_mem_fetch(words, 4);
    let s0 = cpu_with_mem(reset_state(), program_mem(words));
    let n = SELF_CHECK_STEPS as nat;
    let s1 = zero_reg0(s0);
    assert(word_at(s1.mem, s1.pc as int) == words[0] && words[0] != HALT_SENTINEL);
    let s2 = step4(with_reg(s1, R_T0, 1606));
    assert(step(s1, words[0]) == Ok::<CpuView, Fault>(s2));
    assert(run_spec(s0, n) == run_spec(s2, (n - 1) as nat));
    let s3 = zero_reg0(s2);
    assert(word_at(s3.mem, s3.pc as int) == words[1] && words[1] != HALT_SENTINEL);
    let s4 = step4(with_reg(s3, R_T1, 1315));
    assert(step(s3, words[1]) == Ok::<CpuView, Fault>(s4));
    assert(run_spec(s2, (n - 1) as nat) == run_spec(s4, (n - 2) as nat));
    // 1606 >= 1315 unsigned: the branch takes, back to the addi
    let s5 = zero_reg0(s4);
    assert(word_at(s5.mem, s5.pc as int) == words[2] && words[2] != HALT_SENTINEL);
    let s6 = crate::cpu::with_pc(s5, 4);
    assert(step(s5, words[2]) == Ok::<CpuView, Fault>(s6));
    assert(run_spec(s4, (n - 2) as nat) == run_spec(s6, (n - 3) as nat));
    let s7 = zero_reg0(s6);
    assert(word_at(s7.mem, s7.pc as int) == words[1] && words[1] != HALT_SENTINEL);
    let s8 = step4(with_reg(s7, R_T1, 2630));
    assert(step(s7, words[1]) == Ok::<CpuView, Fault>(s8));
    assert(run_spec(s6, (n - 3) as nat) == run_spec(s8, (n - 4) as nat));
    // 1606 < 2630 unsigned: the branch falls through
    let s9 = zero_reg0(s8);
    assert(word_at(s9.mem, s9.pc as int) == words[2] && words[2] != HALT_SENTINEL);
    let s10 = step4(s9);
    assert(step(s9, words[2]) == Ok::<CpuView, Fault>(s10));
    assert(run_spec(s8, (n - 4) as nat) == run_spec(s10, (n - 5) as nat));
    let s11 = zero_reg0(s10);
    assert(word_at(s11.mem, s11.pc as int) == words[3] && words[3] != HALT_SENTINEL);
    let s12 = step4(with_reg(s11, R_T2, 4236));
    assert(step(s11, words[3]) == Ok::<CpuView, Fault>(s12));
    assert(run_spec(s10, (n - 5) as nat) == run_spec(s12, (n - 6) as nat));
    let s13 = zero_reg0(s12);
    assert(word_at(s13.mem, s13.pc as int) == HALT_SENTINEL);
    assert(run_spec(s12, (n - 6) as nat) == (s13, RunStatus::Halted));
}

/// The xori scenario holds of the mathematical machine.
pub proof fn lemma_xori_scenario()
    ensures
        xori_check(),
{
    lemma_small_field_masks();
    lemma_scenario_ground_facts();
    let words = seq![
        i_word(OPCODE_ALU_AND_SHIFT_IMM, FUNCT3_000, R_T0, R_ZERO, 291u32),
        i_word(OPCODE_ALU_AND_SHIFT_IMM, FUNCT3_100, R_T1, R_T0, 582u32),
    ];
    lemma_i_word_decodes(OPCODE_ALU_AND_SHIFT_IMM, FUNCT3_000, R_T0, R_ZERO, 291);
    lemma_i_word_decodes(OPCODE_ALU_AND_SHIFT_IMM, FUNCT3_100, R_T1, R_T0, 582);
    lemma_program_mem_fetch(words, 0);
    lemma_program_mem_fetch(words, 1);
    lemma_program_mem_fetch(words, 2);
    let s0 = cpu_with_mem(reset_state(), program_mem(words));
    let n = SELF_CHECK_STEPS as nat;
    let s1 = zero_reg0(s0);
    assert(word_at(s1.mem, s1.pc as int) == words[0] && words[0] != HALT_SENTINEL);
    let s2 = step4(with_reg(s1, R_T0, 291));
    assert(step(s1, words[0]) == Ok::<CpuView, Fault>(s2));
    assert(run_spec(s0, n) == run_spec(s2, (n - 1) as nat));
    let s3 = zero_reg0(s2);
    assert(word_at(s3.mem, s3.pc as int) == words[1] && words[1] != HALT_SENTINEL);
    let s4 = step4(with_reg(s3, R_T1, 0x365));
    assert(step(s3, words[1]) == Ok::<CpuView, Fault>(s4));
    assert(run_spec(s2, (n - 1) as nat) == run_spec(s4, (n - 2) as nat));
    let s5 = zero_reg0(s4);
    assert(word_at(s5.mem, s5.pc as int) == HALT_SENTINEL);
    assert(run_spec(s4, (n - 2) as nat) == (s5, RunStatus::Halted));
}

} // verus!
