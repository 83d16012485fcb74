//! Run the library's own self-check suites.

use rv32i_emu::cpu::RiscvCpu;
use rv32i_emu::tests_imm::{tests_imm, tests_inst_imm};
use rv32i_emu::tests_inst::tests_inst;

#[test]
fn immediate_codec_self_checks() {
    tests_imm();
    tests_inst_imm();
}

#[test]
fn instruction_self_checks_all_pass() {
    let mut cpu = RiscvCpu::new();
    assert!(tests_inst(&mut cpu));
}
