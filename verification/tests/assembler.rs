//! Assembler checks: tokenization, label resolution, register aliases,
//! numeric literals, and the stop/skip error behaviour.

use rv32i_emu::assembler::{assemble, check_valid_hex_or_decimal, hex_or_decimal_from_string};
use rv32i_emu::cpu::{RiscvCpu, RunStatus};
use rv32i_emu::inst_defs::{
    inst_add, inst_addi, inst_bne, inst_csrrs, inst_csrrw, inst_csrrwi, inst_ebreak, inst_ecall,
    inst_jal, inst_lui, inst_lw, inst_sw, inst_srai,
};
use rv32i_emu::types::{R_FP, R_T0, R_T1, R_T2, R_ZERO};

fn chars(s: &str) -> Vec<char> {
    s.chars().collect()
}

#[test]
fn assembles_simple_program() {
    let words = assemble("addi t0, zero, 291\nlui t1, 0x12345\nadd t2, t0, t1\n");
    assert_eq!(
        words,
        vec![
            inst_addi(R_T0, R_ZERO, 291).get_bits(),
            inst_lui(R_T1, 0x12345).get_bits(),
            inst_add(R_T2, R_T0, R_T1).get_bits(),
        ]
    );
}

#[test]
fn comments_and_blank_lines_are_ignored() {
    let words = assemble("# leading comment\n\naddi t0, zero, 1 # trailing\n\n# done\n");
    assert_eq!(words, vec![inst_addi(R_T0, R_ZERO, 1).get_bits()]);
}

#[test]
fn tabs_and_commas_separate_tokens() {
    let words = assemble("addi\tt0,zero,5");
    assert_eq!(words, vec![inst_addi(R_T0, R_ZERO, 5).get_bits()]);
}

#[test]
fn label_resolves_backward() {
    let words = assemble("start:\naddi t0, t0, 1\nbne t0, t1, start\n");
    assert_eq!(
        words,
        vec![
            inst_addi(R_T0, R_T0, 1).get_bits(),
            inst_bne(R_T0, R_T1, -4).get_bits(),
        ]
    );
}

#[test]
fn label_resolves_forward() {
    let words = assemble("jal t0, end\naddi t1, zero, 1\nend:\naddi t2, zero, 2\n");
    assert_eq!(
        words,
        vec![
            inst_jal(R_T0, 8).get_bits(),
            inst_addi(R_T1, R_ZERO, 1).get_bits(),
            inst_addi(R_T2, R_ZERO, 2).get_bits(),
        ]
    );
}

#[test]
fn register_aliases_agree() {
    let a = assemble("addi fp, zero, 7");
    let b = assemble("addi s0, zero, 7");
    let c = assemble("addi x8, zero, 7");
    assert_eq!(a, b);
    assert_eq!(b, c);
    assert_eq!(a, vec![inst_addi(R_FP, R_ZERO, 7).get_bits()]);
}

#[test]
fn numeric_literal_forms() {
    let words = assemble("addi t0, zero, -1\naddi t1, zero, +5\naddi t2, zero, 0x7FF\n");
    assert_eq!(
        words,
        vec![
            inst_addi(R_T0, R_ZERO, -1).get_bits(),
            inst_addi(R_T1, R_ZERO, 5).get_bits(),
            inst_addi(R_T2, R_ZERO, 0x7FF).get_bits(),
        ]
    );
}

#[test]
fn unknown_leading_token_is_skipped() {
    let words = assemble("nop\naddi t0, zero, 1\n");
    assert_eq!(words, vec![inst_addi(R_T0, R_ZERO, 1).get_bits()]);
}

#[test]
fn bad_register_stops_assembly() {
    let words = assemble("addi t0, zero, 1\naddi q9, zero, 2\naddi t1, zero, 3\n");
    assert_eq!(words, vec![inst_addi(R_T0, R_ZERO, 1).get_bits()]);
}

#[test]
fn bad_immediate_stops_assembly() {
    let words = assemble("addi t0, zero, 1\naddi t1, zero, banana\n");
    assert_eq!(words, vec![inst_addi(R_T0, R_ZERO, 1).get_bits()]);
}

#[test]
fn missing_operands_stop_assembly() {
    let words = assemble("addi t0, zero, 1\nlui t1");
    assert_eq!(words, vec![inst_addi(R_T0, R_ZERO, 1).get_bits()]);
}

#[test]
fn system_mnemonics_assemble() {
    let words = assemble("ecall\nebreak\ncsrrw t0, t1, 7\ncsrrs t1, zero, 7\ncsrrwi t2, 21, 9\n");
    assert_eq!(
        words,
        vec![
            inst_ecall().get_bits(),
            inst_ebreak().get_bits(),
            inst_csrrw(R_T0, R_T1, 7).get_bits(),
            inst_csrrs(R_T1, R_ZERO, 7).get_bits(),
            inst_csrrwi(R_T2, 21, 9).get_bits(),
        ]
    );
}

#[test]
fn memory_and_shift_mnemonics_assemble() {
    let words = assemble("sw t0, t1, 16\nlw t2, t0, 16\nsrai t1, t2, 4\n");
    assert_eq!(
        words,
        vec![
            inst_sw(R_T0, R_T1, 16).get_bits(),
            inst_lw(R_T2, R_T0, 16).get_bits(),
            inst_srai(R_T1, R_T2, 4).get_bits(),
        ]
    );
}

#[test]
fn assembled_program_runs() {
    let words = assemble(
        "start:\naddi t0, zero, 1606\naddi t1, t1, 1315\nbgeu t0, t1, -4\nadd t2, t0, t1\n",
    );
    let mut bytes: Vec<u8> = Vec::new();
    for w in &words {
        bytes.extend_from_slice(&w.to_le_bytes());
    }
    let mut cpu = RiscvCpu::new();
    cpu.load_from_u8(&bytes);
    let st = cpu.run(10_000);
    assert_eq!(st, RunStatus::Halted);
    assert_eq!(cpu.get_register(R_T2), 0x108C);
}

#[test]
fn number_validity_check() {
    assert!(check_valid_hex_or_decimal(&chars("123")));
    assert!(check_valid_hex_or_decimal(&chars("-123")));
    assert!(check_valid_hex_or_decimal(&chars("+123")));
    assert!(check_valid_hex_or_decimal(&chars("0x1F")));
    assert!(check_valid_hex_or_decimal(&chars("0XAB")));
    assert!(check_valid_hex_or_decimal(&chars("-0xff")));
    assert!(!check_valid_hex_or_decimal(&chars("")));
    assert!(!check_valid_hex_or_decimal(&chars("-")));
    assert!(!check_valid_hex_or_decimal(&chars("12a")));
    assert!(!check_valid_hex_or_decimal(&chars("0xZZ")));
    assert!(!check_valid_hex_or_decimal(&chars("zero")));
}

#[test]
fn number_parsing() {
    assert_eq!(hex_or_decimal_from_string(&chars("291")), 291);
    assert_eq!(hex_or_decimal_from_string(&chars("-127")), (-127i32) as u32);
    assert_eq!(hex_or_decimal_from_string(&chars("+44")), 44);
    assert_eq!(hex_or_decimal_from_string(&chars("0x123")), 0x123);
    assert_eq!(hex_or_decimal_from_string(&chars("0XaB")), 0xAB);
    assert_eq!(hex_or_decimal_from_string(&chars("-0x10")), (-16i32) as u32);
    assert_eq!(hex_or_decimal_from_string(&chars("")), 0);
    assert_eq!(hex_or_decimal_from_string(&chars("4294967295")), u32::MAX);
}

#[test]
fn empty_source_assembles_to_nothing() {
    assert_eq!(assemble(""), Vec::<u32>::new());
    assert_eq!(assemble("# only a comment\n"), Vec::<u32>::new());
}
