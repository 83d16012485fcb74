//! End-to-end interpreter checks: whole programs run from reset, with
//! the final architectural state compared against hand-computed values.

use rv32i_emu::cpu::{Fault, RiscvCpu, RunStatus, MEMORY_SIZE, STACK_POINTER};
use rv32i_emu::inst_defs::{
    inst_add, inst_addi, inst_bgeu, inst_csrrc, inst_csrrs, inst_csrrw, inst_csrrwi, inst_ebreak,
    inst_ecall, inst_jal, inst_jalr, inst_lb, inst_lui, inst_lw, inst_sb, inst_sra, inst_sw,
    inst_xori,
};
use rv32i_emu::types::{R_T0, R_T1, R_T2, R_T3, R_ZERO};

const STEPS: u64 = 10_000;

#[test]
fn fresh_cpu_is_all_zero() {
    let cpu = RiscvCpu::new();
    assert_eq!(cpu.program_counter, 0);
    assert_eq!(cpu.registers.len(), 32);
    assert_eq!(cpu.csrs.len(), 4096);
    assert_eq!(cpu.memory.len(), MEMORY_SIZE);
    for i in 0..32 {
        assert_eq!(cpu.get_register(i), 0);
    }
}

#[test]
fn reset_arms_stack_pointer() {
    let mut cpu = RiscvCpu::new();
    cpu.set_register(7, 99);
    cpu.program_counter = 64;
    cpu.reset();
    assert_eq!(cpu.program_counter, 0);
    assert_eq!(cpu.get_register(2), STACK_POINTER);
    assert_eq!(cpu.get_register(7), 0);
}

#[test]
fn scenario_lui_add() {
    let mut cpu = RiscvCpu::new();
    let prog = [
        inst_addi(R_T0, R_ZERO, 291),
        inst_lui(R_T1, 0x12345),
        inst_add(R_T2, R_T0, R_T1),
    ];
    let st = cpu.load_and_run(&prog, STEPS);
    assert_eq!(st, RunStatus::Halted);
    assert_eq!(cpu.get_register(R_T0), 0x0000_0123);
    assert_eq!(cpu.get_register(R_T1), 0x1234_5000);
    assert_eq!(cpu.get_register(R_T2), 0x1234_5123);
}

#[test]
fn scenario_jal_skips_one() {
    let mut cpu = RiscvCpu::new();
    let prog = [
        inst_addi(R_T0, R_ZERO, 582),
        inst_addi(R_T1, R_T0, 291),
        inst_jal(R_T2, 8),
        inst_add(R_T2, R_T0, R_T1),
        inst_add(R_T3, R_T2, R_T1),
        inst_addi(R_T3, R_T3, 873),
    ];
    let st = cpu.load_and_run(&prog, STEPS);
    assert_eq!(st, RunStatus::Halted);
    assert_eq!(cpu.get_register(R_T0), 0x246);
    assert_eq!(cpu.get_register(R_T1), 0x369);
    assert_eq!(cpu.get_register(R_T2), 0x00C);
    assert_eq!(cpu.get_register(R_T3), 0x6DE);
}

#[test]
fn scenario_byte_store_sign_extends() {
    let mut cpu = RiscvCpu::new();
    let prog = [
        inst_addi(R_T0, R_ZERO, 12),
        inst_addi(R_T1, R_ZERO, -127),
        inst_sb(R_T0, R_T1, 8),
        inst_lb(R_T2, R_T0, 8),
    ];
    let st = cpu.load_and_run(&prog, STEPS);
    assert_eq!(st, RunStatus::Halted);
    assert_eq!(cpu.get_register(R_T2), 0xFFFF_FF81);
}

#[test]
fn scenario_arithmetic_shift_preserves_sign() {
    let mut cpu = RiscvCpu::new();
    let prog = [
        inst_lui(R_T0, 0x80000),
        inst_addi(R_T0, R_T0, 1),
        inst_addi(R_T1, R_ZERO, 16),
        inst_sra(R_T2, R_T0, R_T1),
    ];
    let st = cpu.load_and_run(&prog, STEPS);
    assert_eq!(st, RunStatus::Halted);
    assert_eq!(cpu.get_register(R_T0), 0x8000_0001);
    assert_eq!(cpu.get_register(R_T2), 0xFFFF_8000);
}

#[test]
fn scenario_unsigned_branch_loops_until_past() {
    let mut cpu = RiscvCpu::new();
    let prog = [
        inst_addi(R_T0, R_ZERO, 1606),
        inst_addi(R_T1, R_T1, 1315),
        inst_bgeu(R_T0, R_T1, -4),
        inst_add(R_T2, R_T0, R_T1),
    ];
    let st = cpu.load_and_run(&prog, STEPS);
    assert_eq!(st, RunStatus::Halted);
    assert_eq!(cpu.get_register(R_T0), 0x646);
    assert_eq!(cpu.get_register(R_T1), 0xA46);
    assert_eq!(cpu.get_register(R_T2), 0x108C);
}

#[test]
fn scenario_xori() {
    let mut cpu = RiscvCpu::new();
    let prog = [inst_addi(R_T0, R_ZERO, 291), inst_xori(R_T1, R_T0, 582)];
    let st = cpu.load_and_run(&prog, STEPS);
    assert_eq!(st, RunStatus::Halted);
    assert_eq!(cpu.get_register(R_T1), 0x365);
}

#[test]
fn register_zero_reads_zero_after_write() {
    let mut cpu = RiscvCpu::new();
    // try hard to put something into x0
    let prog = [inst_addi(R_ZERO, R_ZERO, 291), inst_lui(R_ZERO, 0x7FFFF)];
    let st = cpu.load_and_run(&prog, STEPS);
    assert_eq!(st, RunStatus::Halted);
    assert_eq!(cpu.get_register(R_ZERO), 0);
}

#[test]
fn pc_advances_by_four_per_plain_instruction() {
    let mut cpu = RiscvCpu::new();
    let prog = [
        inst_addi(R_T0, R_ZERO, 1),
        inst_addi(R_T1, R_T0, 2),
        inst_add(R_T2, R_T0, R_T1),
    ];
    let st = cpu.load_and_run(&prog, STEPS);
    assert_eq!(st, RunStatus::Halted);
    // three instructions, then the fetch of the sentinel at 12
    assert_eq!(cpu.program_counter, 12);
}

#[test]
fn jalr_lands_on_even_address() {
    let mut cpu = RiscvCpu::new();
    let prog = [
        inst_addi(R_T0, R_ZERO, 9),
        inst_jalr(R_T1, R_T0, 0),
        inst_addi(R_T2, R_ZERO, 7),
    ];
    // the jalr target 9 has its low bit cleared, landing on the third
    // instruction at address 8
    let st = cpu.load_and_run(&prog, STEPS);
    assert_eq!(st, RunStatus::Halted);
    assert_eq!(cpu.program_counter & 1, 0);
    assert_eq!(cpu.get_register(R_T1), 8);
    assert_eq!(cpu.get_register(R_T2), 7);
}

#[test]
fn csr_instructions_exchange_values() {
    let mut cpu = RiscvCpu::new();
    let prog = [
        inst_addi(R_T0, R_ZERO, 5),
        inst_csrrw(R_ZERO, R_T0, 7),
        inst_csrrs(R_T1, R_ZERO, 7),
        inst_addi(R_T2, R_ZERO, 3),
        inst_csrrc(R_T3, R_T2, 7),
    ];
    let st = cpu.load_and_run(&prog, STEPS);
    assert_eq!(st, RunStatus::Halted);
    assert_eq!(cpu.get_register(R_T1), 5);
    assert_eq!(cpu.get_register(R_T3), 5);
    assert_eq!(cpu.csrs[7], 4);
}

#[test]
fn csr_immediate_form_uses_field_as_literal() {
    let mut cpu = RiscvCpu::new();
    let prog = [inst_csrrwi(R_T0, 21, 9), inst_csrrs(R_T1, R_ZERO, 9)];
    let st = cpu.load_and_run(&prog, STEPS);
    assert_eq!(st, RunStatus::Halted);
    assert_eq!(cpu.get_register(R_T0), 0);
    assert_eq!(cpu.get_register(R_T1), 21);
}

#[test]
fn ecall_and_ebreak_advance() {
    let mut cpu = RiscvCpu::new();
    let prog = [inst_ecall(), inst_ebreak(), inst_addi(R_T0, R_ZERO, 1)];
    let st = cpu.load_and_run(&prog, STEPS);
    assert_eq!(st, RunStatus::Halted);
    assert_eq!(cpu.get_register(R_T0), 1);
}

#[test]
fn unknown_opcode_faults() {
    let mut cpu = RiscvCpu::new();
    cpu.load_from_u8(&[0x07, 0x00, 0x00, 0x00]);
    let st = cpu.run(STEPS);
    assert_eq!(st, RunStatus::Faulted(Fault::UnknownInstruction));
}

#[test]
fn out_of_bounds_load_faults() {
    let mut cpu = RiscvCpu::new();
    let prog = [inst_lui(R_T0, 0x80000), inst_lw(R_T1, R_T0, 0)];
    let st = cpu.load_and_run(&prog, STEPS);
    assert_eq!(st, RunStatus::Faulted(Fault::MemoryOutOfBounds));
}

#[test]
fn out_of_bounds_store_faults() {
    let mut cpu = RiscvCpu::new();
    let prog = [inst_lui(R_T0, 0x80000), inst_sw(R_T0, R_T1, 0)];
    let st = cpu.load_and_run(&prog, STEPS);
    assert_eq!(st, RunStatus::Faulted(Fault::MemoryOutOfBounds));
}

#[test]
fn tight_loop_runs_out_of_steps() {
    let mut cpu = RiscvCpu::new();
    let prog = [inst_jal(R_ZERO, 0)];
    let st = cpu.load_and_run(&prog, 10);
    assert_eq!(st, RunStatus::OutOfSteps);
}

#[test]
fn load_from_u8_places_image_and_sentinel() {
    let mut cpu = RiscvCpu::new();
    let word = inst_addi(R_T0, R_ZERO, 44).get_bits();
    let bytes = word.to_le_bytes();
    cpu.load_from_u8(&bytes);
    assert_eq!(&cpu.memory[0..4], &bytes);
    assert_eq!(&cpu.memory[4..8], &[0xDE, 0xC0, 0xAD, 0xDE]);
    let st = cpu.run(STEPS);
    assert_eq!(st, RunStatus::Halted);
    assert_eq!(cpu.get_register(R_T0), 44);
}

#[test]
fn little_endian_word_in_memory() {
    let mut cpu = RiscvCpu::new();
    let prog = [
        inst_lui(R_T1, 0x12345),
        inst_addi(R_T1, R_T1, 0x678),
        inst_addi(R_T0, R_ZERO, 64),
        inst_sw(R_T0, R_T1, 0),
    ];
    let st = cpu.load_and_run(&prog, STEPS);
    assert_eq!(st, RunStatus::Halted);
    assert_eq!(&cpu.memory[64..68], &[0x78, 0x56, 0x34, 0x12]);
}

#[test]
fn empty_image_halts_immediately() {
    let mut cpu = RiscvCpu::new();
    cpu.load_from_u8(&[]);
    let st = cpu.run(STEPS);
    assert_eq!(st, RunStatus::Halted);
    assert_eq!(cpu.program_counter, 0);
}

#[test]
fn largest_image_fits_with_sentinel() {
    let mut cpu = RiscvCpu::new();
    let image = vec![0u8; MEMORY_SIZE - 4];
    cpu.load_from_u8(&image);
    assert_eq!(
        &cpu.memory[MEMORY_SIZE - 4..],
        &[0xDE, 0xC0, 0xAD, 0xDE]
    );
}

#[test]
fn sltiu_sign_extends_then_compares_unsigned() {
    // the immediate -1 sign-extends to 0xFFFFFFFF before the unsigned
    // comparison, so even a value above the raw 12-bit field is below it
    let mut cpu = RiscvCpu::new();
    let prog = [
        inst_lui(R_T0, 0x10),
        rv32i_emu::inst_defs::inst_sltiu(R_T1, R_T0, -1),
    ];
    let st = cpu.load_and_run(&prog, STEPS);
    assert_eq!(st, RunStatus::Halted);
    assert_eq!(cpu.get_register(R_T0), 0x10000);
    assert_eq!(cpu.get_register(R_T1), 1);
}
