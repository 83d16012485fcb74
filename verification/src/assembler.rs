//! The textual assembler front-end: tokenize a restricted RISC-V assembly
//! dialect, resolve labels over two passes, and emit instruction words
//! through the verified constructors.
//!
//! Comments run from `#` to end of line; tokens split on spaces, commas
//! and tabs; a token ending in `:` declares a label whose byte address is
//! four times the number of mnemonics before it. Malformed operands stop
//! assembly; an unknown leading token is skipped.

use vstd::prelude::*;

verus! {

use vstd::assert_by_contradiction;
use vstd::string::StrSliceExecFns;
use crate::inst_defs::{
    inst_add,
    inst_addi,
    inst_and,
    inst_andi,
    inst_auipc,
    inst_beq,
    inst_bge,
    inst_bgeu,
    inst_blt,
    inst_bltu,
    inst_bne,
    inst_csrrc,
    inst_csrrci,
    inst_csrrs,
    inst_csrrsi,
    inst_csrrw,
    inst_csrrwi,
    inst_ebreak,
    inst_ecall,
    inst_jal,
    inst_jalr,
    inst_lb,
    inst_lbu,
    inst_lh,
    inst_lhu,
    inst_lui,
    inst_lw,
    inst_or,
    inst_ori,
    inst_sb,
    inst_sh,
    inst_sll,
    inst_slli,
    inst_slt,
    inst_slti,
    inst_sltiu,
    inst_sltu,
    inst_sra,
    inst_srai,
    inst_srl,
    inst_srli,
    inst_sub,
    inst_sw,
    inst_xor,
    inst_xori,
};

/// A decimal digit.
pub open spec fn dec_digit(c: char) -> bool {
    48 <= c as u32 <= 57
}

/// A hexadecimal digit, either case.
pub open spec fn hex_digit(c: char) -> bool {
    dec_digit(c) || (97 <= c as u32 <= 102) || (65 <= c as u32 <= 70)
}

/// The numeric value of a digit character; zero for anything else.
pub open spec fn digit_val(c: char) -> nat {
    if dec_digit(c) {
        (c as u32 - 48) as nat
    } else if 97 <= c as u32 <= 102 {
        (c as u32 - 87) as nat
    } else if 65 <= c as u32 <= 70 {
        (c as u32 - 55) as nat
    } else {
        0
    }
}

/// The unbounded value of a digit string read in the given radix.
pub open spec fn radix_val(s: Seq<char>, radix: nat) -> nat
    decreases s.len(),
{
    if s.len() == 0 {
        0
    } else {
        radix_val(s.drop_last(), radix) * radix + digit_val(s.last())
    }
}

/// Whether a token is a well-formed numeric literal: an optional sign,
/// then decimal digits, or a `0x`/`0X` prefix and hexadecimal digits.
pub open spec fn valid_number(s: Seq<char>) -> bool {
    if s.len() == 0 {
        false
    } else {
        let start = if s[0] == '+' || s[0] == '-' {
            1int
        } else {
            0int
        };
        let eff_len = if s[0] == '-' {
            s.len() - 1
        } else {
            s.len() as int
        };
        if eff_len >= 1 {
            if eff_len > 2 && s.len() - start >= 2 && s[start] == '0' && (s[start + 1] == 'x' || s[
                start + 1] == 'X') {
                forall|i: int| start + 2 <= i < s.len() ==> hex_digit(s[i])
            } else {
                forall|i: int| start <= i < s.len() ==> dec_digit(s[i])
            }
        } else {
            false
        }
    }
}

/// The 32-bit value a numeric token denotes: the digits' value modulo
/// 2^32, negated in two's complement under a leading minus sign.
pub open spec fn number_value(s: Seq<char>) -> u32 {
    if s.len() == 0 {
        0
    } else {
        let neg = s[0] == '-';
        let start = if s[0] == '+' || s[0] == '-' {
            1int
        } else {
            0int
        };
        let eff_len = if neg {
            s.len() - 1
        } else {
            s.len() as int
        };
        let mag = if eff_len >= 1 {
            if eff_len > 2 && s.len() - start >= 2 && s[start] == '0' && (s[start + 1] == 'x' || s[
                start + 1] == 'X') {
                radix_val(s.subrange(start + 2, s.len() as int), 16)
            } else {
                radix_val(s.subrange(start, s.len() as int), 10)
            }
        } else {
            0
        };
        let m32 = (mag % 0x1_0000_0000) as u32;
        if neg {
            (0u32).wrapping_sub(m32)
        } else {
            m32
        }
    }
}

/// Whether `tok` is a well-formed numeric literal.
pub fn check_valid_hex_or_decimal(tok: &Vec<char>) -> (r: bool)
    ensures
        r == valid_number(tok@),
{
    let len = tok.len();
    if len == 0 {
        return false;
    }
    let c0 = tok[0];
    let neg = c0 == '-';
    let has_sign = neg || c0 == '+';
    let start: usize = if has_sign {
        1
    } else {
        0
    };
    let eff_len = if neg {
        len - 1
    } else {
        len
    };
    if eff_len < 1 {
        return false;
    }
    let is_hex = eff_len > 2 && len - start >= 2 && tok[start] == '0' && (tok[start + 1] == 'x'
        || tok[start + 1] == 'X');
    let dstart: usize = if is_hex {
        start + 2
    } else {
        start
    };
    let mut all_ok = true;
    let mut i = dstart;
    while i < len
        invariant
            dstart <= i <= len,
            len == tok@.len(),
            start <= dstart <= len,
            all_ok == (forall|j: int|
                dstart <= j < i ==> (if is_hex {
                    hex_digit(tok@[j])
                } else {
                    dec_digit(tok@[j])
                })),
        decreases len - i,
    {
        let v = tok[i] as u32;
        let is_dec_d = 48 <= v && v <= 57;
        let ok = if is_hex {
            is_dec_d || (97 <= v && v <= 102) || (65 <= v && v <= 70)
        } else {
            is_dec_d
        };
        if !ok {
            all_ok = false;
        }
        i = i + 1;
    }
    proof {
        assert(all_ok ==> valid_number(tok@));
        if !all_ok {
            if is_hex {
                let jj = choose|j: int|
                    dstart <= j < len && #[trigger] hex_digit(tok@[j]) == false;
                assert_by_contradiction!(!valid_number(tok@), {
                    assert(hex_digit(tok@[jj]));
                });
            } else {
                let jj = choose|j: int|
                    dstart <= j < len && #[trigger] dec_digit(tok@[j]) == false;
                assert_by_contradiction!(!valid_number(tok@), {
                    assert(dec_digit(tok@[jj]));
                });
            }
        }
    }
    all_ok
}

/// The numeric value of a digit character.
fn digit_value(c: char) -> (r: u32)
    ensures
        r as nat == digit_val(c),
        r < 16,
{
    let v = c as u32;
    if 48 <= v && v <= 57 {
        v - 48
    } else if 97 <= v && v <= 102 {
        v - 87
    } else if 65 <= v && v <= 70 {
        v - 55
    } else {
        0
    }
}

/// One step of modular accumulation: extending the digit string keeps the
/// running value correct modulo 2^32.
proof fn lemma_wrap_step(a: nat, radix: nat, d: nat)
    requires
        d < 16,
        1 <= radix <= 16,
    ensures
        ((a % 0x1_0000_0000) * radix + d) % 0x1_0000_0000 == (a * radix + d) % 0x1_0000_0000,
{
    let m = 0x1_0000_0000int;
    vstd::arithmetic::div_mod::lemma_mul_mod_noop_left(a as int, radix as int, m);
    vstd::arithmetic::div_mod::lemma_add_mod_noop(((a as int) % m) * (radix as int), d as int, m);
    vstd::arithmetic::div_mod::lemma_add_mod_noop((a as int) * (radix as int), d as int, m);
    vstd::arithmetic::div_mod::lemma_mod_twice(d as int, m);
    vstd::arithmetic::div_mod::lemma_mod_twice((a as int) * (radix as int), m);
}

/// Read a numeric token: an optional sign, then decimal or `0x`-prefixed
/// hexadecimal digits. Overlong literals wrap modulo 2^32.
pub fn hex_or_decimal_from_string(tok: &Vec<char>) -> (r: u32)
    ensures
        r == number_value(tok@),
{
    let len = tok.len();
    if len == 0 {
        return 0;
    }
    let c0 = tok[0];
    let neg = c0 == '-';
    let has_sign = neg || c0 == '+';
    let start: usize = if has_sign {
        1
    } else {
        0
    };
    let eff_len = if neg {
        len - 1
    } else {
        len
    };
    let mut result: u32 = 0;
    if eff_len >= 1 {
        let is_hex = eff_len > 2 && len - start >= 2 && tok[start] == '0' && (tok[start + 1] == 'x'
            || tok[start + 1] == 'X');
        let radix: u32 = if is_hex {
            16
        } else {
            10
        };
        let dstart: usize = if is_hex {
            start + 2
        } else {
            start
        };
        let mut i = dstart;
        while i < len
            invariant
                dstart <= i <= len,
                len == tok@.len(),
                dstart <= len,
                1 <= radix <= 16,
                result as nat == radix_val(tok@.subrange(dstart as int, i as int), radix as nat)
                    % 0x1_0000_0000,
            decreases len - i,
        {
            let d = digit_value(tok[i]);
            let ghost prefix = tok@.subrange(dstart as int, i as int);
            let ghost a = radix_val(prefix, radix as nat);
            result = result.wrapping_mul(radix).wrapping_add(d);
            proof {
                assert(tok@.subrange(dstart as int, i + 1).drop_last() =~= prefix);
                assert(radix_val(tok@.subrange(dstart as int, i + 1), radix as nat) == a * (
                radix as nat) + digit_val(tok@[i as int]));
                lemma_wrap_step(a, radix as nat, digit_val(tok@[i as int]));
            }
            i = i + 1;
        }
    }
    if neg {
        (0u32).wrapping_sub(result)
    } else {
        result
    }
}

} // verus!

verus! {

/// Whether the token spells exactly the given word.
fn tok_is(tok: &Vec<char>, kw: &str) -> (r: bool)
    ensures
        r == (tok@ == kw@),
{
    let n = kw.unicode_len();
    if tok.len() != n {
        return false;
    }
    let mut i: usize = 0;
    while i < n
        invariant
            i <= n,
            n == kw@.len(),
            tok@.len() == n,
            forall|j: int| 0 <= j < i ==> tok@[j] == kw@[j],
        decreases n - i,
    {
        if tok[i] != kw.get_char(i) {
            return false;
        }
        i = i + 1;
    }
    proof {
        assert(tok@ =~= kw@);
    }
    true
}

/// Whether two tokens spell the same word.
fn toks_eq(a: &Vec<char>, b: &Vec<char>) -> (r: bool)
    ensures
        r == (a@ == b@),
{
    let n = b.len();
    if a.len() != n {
        return false;
    }
    let mut i: usize = 0;
    while i < n
        invariant
            i <= n,
            n == b@.len(),
            a@.len() == n,
            forall|j: int| 0 <= j < i ==> a@[j] == b@[j],
        decreases n - i,
    {
        if a[i] != b[i] {
            return false;
        }
        i = i + 1;
    }
    proof {
        assert(a@ =~= b@);
    }
    true
}

/// A fresh copy of a token.
fn copy_tok(t: &Vec<char>) -> (r: Vec<char>)
    ensures
        r@ == t@,
{
    let mut r: Vec<char> = Vec::new();
    let mut i: usize = 0;
    while i < t.len()
        invariant
            i <= t@.len(),
            r@ == t@.subrange(0, i as int),
        decreases t@.len() - i,
    {
        r.push(t[i]);
        i = i + 1;
    }
    proof {
        assert(t@.subrange(0, t@.len() as int) =~= t@);
    }
    r
}

} // verus!

verus! {

/// Which mnemonic a token names: its position in the keyword table, in
/// opcode-group order.
pub open spec fn keyword_index_spec(t: Seq<char>) -> Option<usize> {
    if t == "lui"@ {
        Some(0usize)
    } else if t == "auipc"@ {
        Some(1usize)
    } else if t == "jal"@ {
        Some(2usize)
    } else if t == "jalr"@ {
        Some(3usize)
    } else if t == "beq"@ {
        Some(4usize)
    } else if t == "bne"@ {
        Some(5usize)
    } else if t == "blt"@ {
        Some(6usize)
    } else if t == "bge"@ {
        Some(7usize)
    } else if t == "bltu"@ {
        Some(8usize)
    } else if t == "bgeu"@ {
        Some(9usize)
    } else if t == "lb"@ {
        Some(10usize)
    } else if t == "lh"@ {
        Some(11usize)
    } else if t == "lw"@ {
        Some(12usize)
    } else if t == "lbu"@ {
        Some(13usize)
    } else if t == "lhu"@ {
        Some(14usize)
    } else if t == "sb"@ {
        Some(15usize)
    } else if t == "sh"@ {
        Some(16usize)
    } else if t == "sw"@ {
        Some(17usize)
    } else if t == "addi"@ {
        Some(18usize)
    } else if t == "slti"@ {
        Some(19usize)
    } else if t == "sltiu"@ {
        Some(20usize)
    } else if t == "xori"@ {
        Some(21usize)
    } else if t == "ori"@ {
        Some(22usize)
    } else if t == "andi"@ {
        Some(23usize)
    } else if t == "slli"@ {
        Some(24usize)
    } else if t == "srli"@ {
        Some(25usize)
    } else if t == "srai"@ {
        Some(26usize)
    } else if t == "add"@ {
        Some(27usize)
    } else if t == "sub"@ {
        Some(28usize)
    } else if t == "sll"@ {
        Some(29usize)
    } else if t == "slt"@ {
        Some(30usize)
    } else if t == "sltu"@ {
        Some(31usize)
    } else if t == "xor"@ {
        Some(32usize)
    } else if t == "srl"@ {
        Some(33usize)
    } else if t == "sra"@ {
        Some(34usize)
    } else if t == "or"@ {
        Some(35usize)
    } else if t == "and"@ {
        Some(36usize)
    } else if t == "ecall"@ {
        Some(37usize)
    } else if t == "ebreak"@ {
        Some(38usize)
    } else if t == "csrrw"@ {
        Some(39usize)
    } else if t == "csrrs"@ {
        Some(40usize)
    } else if t == "csrrc"@ {
        Some(41usize)
    } else if t == "csrrwi"@ {
        Some(42usize)
    } else if t == "csrrsi"@ {
        Some(43usize)
    } else if t == "csrrci"@ {
        Some(44usize)
    } else {
        None
    }
}

/// The canonical 5-bit index a register name denotes, by ABI name or
/// numeric form; `fp` aliases `s0`.
pub open spec fn register_index_spec(t: Seq<char>) -> Option<u32> {
    if t == "zero"@ {
        Some(0u32)
    } else if t == "ra"@ {
        Some(1u32)
    } else if t == "sp"@ {
        Some(2u32)
    } else if t == "gp"@ {
        Some(3u32)
    } else if t == "tp"@ {
        Some(4u32)
    } else if t == "fp"@ {
        Some(8u32)
    } else if t == "a0"@ {
        Some(10u32)
    } else if t == "a1"@ {
        Some(11u32)
    } else if t == "a2"@ {
        Some(12u32)
    } else if t == "a3"@ {
        Some(13u32)
    } else if t == "a4"@ {
        Some(14u32)
    } else if t == "a5"@ {
        Some(15u32)
    } else if t == "a6"@ {
        Some(16u32)
    } else if t == "a7"@ {
        Some(17u32)
    } else if t == "s0"@ {
        Some(8u32)
    } else if t == "s1"@ {
        Some(9u32)
    } else if t == "s2"@ {
        Some(18u32)
    } else if t == "s3"@ {
        Some(19u32)
    } else if t == "s4"@ {
        Some(20u32)
    } else if t == "s5"@ {
        Some(21u32)
    } else if t == "s6"@ {
        Some(22u32)
    } else if t == "s7"@ {
        Some(23u32)
    } else if t == "s8"@ {
        Some(24u32)
    } else if t == "s9"@ {
        Some(25u32)
    } else if t == "s10"@ {
        Some(26u32)
    } else if t == "s11"@ {
        Some(27u32)
    } else if t == "t0"@ {
        Some(5u32)
    } else if t == "t1"@ {
        Some(6u32)
    } else if t == "t2"@ {
        Some(7u32)
    } else if t == "t3"@ {
        Some(28u32)
    } else if t == "t4"@ {
        Some(29u32)
    } else if t == "t5"@ {
        Some(30u32)
    } else if t == "t6"@ {
        Some(31u32)
    } else if t == "x0"@ {
        Some(0u32)
    } else if t == "x1"@ {
        Some(1u32)
    } else if t == "x2"@ {
        Some(2u32)
    } else if t == "x3"@ {
        Some(3u32)
    } else if t == "x4"@ {
        Some(4u32)
    } else if t == "x5"@ {
        Some(5u32)
    } else if t == "x6"@ {
        Some(6u32)
    } else if t == "x7"@ {
        Some(7u32)
    } else if t == "x8"@ {
        Some(8u32)
    } else if t == "x9"@ {
        Some(9u32)
    } else if t == "x10"@ {
        Some(10u32)
    } else if t == "x11"@ {
        Some(11u32)
    } else if t == "x12"@ {
        Some(12u32)
    } else if t == "x13"@ {
        Some(13u32)
    } else if t == "x14"@ {
        Some(14u32)
    } else if t == "x15"@ {
        Some(15u32)
    } else if t == "x16"@ {
        Some(16u32)
    } else if t == "x17"@ {
        Some(17u32)
    } else if t == "x18"@ {
        Some(18u32)
    } else if t == "x19"@ {
        Some(19u32)
    } else if t == "x20"@ {
        Some(20u32)
    } else if t == "x21"@ {
        Some(21u32)
    } else if t == "x22"@ {
        Some(22u32)
    } else if t == "x23"@ {
        Some(23u32)
    } else if t == "x24"@ {
        Some(24u32)
    } else if t == "x25"@ {
        Some(25u32)
    } else if t == "x26"@ {
        Some(26u32)
    } else if t == "x27"@ {
        Some(27u32)
    } else if t == "x28"@ {
        Some(28u32)
    } else if t == "x29"@ {
        Some(29u32)
    } else if t == "x30"@ {
        Some(30u32)
    } else if t == "x31"@ {
        Some(31u32)
    } else {
        None
    }
}

} // verus!

verus! {

/// The position of a mnemonic in the keyword table, in opcode-group
/// order.
fn keyword_index(tok: &Vec<char>) -> (r: Option<usize>)
    ensures
        r == keyword_index_spec(tok@),
        r matches Some(k) ==> k < 45,
{
    if tok_is(tok, "lui") {
        Some(0)
    } else if tok_is(tok, "auipc") {
        Some(1)
    } else if tok_is(tok, "jal") {
        Some(2)
    } else if tok_is(tok, "jalr") {
        Some(3)
    } else if tok_is(tok, "beq") {
        Some(4)
    } else if tok_is(tok, "bne") {
        Some(5)
    } else if tok_is(tok, "blt") {
        Some(6)
    } else if tok_is(tok, "bge") {
        Some(7)
    } else if tok_is(tok, "bltu") {
        Some(8)
    } else if tok_is(tok, "bgeu") {
        Some(9)
    } else if tok_is(tok, "lb") {
        Some(10)
    } else if tok_is(tok, "lh") {
        Some(11)
    } else if tok_is(tok, "lw") {
        Some(12)
    } else if tok_is(tok, "lbu") {
        Some(13)
    } else if tok_is(tok, "lhu") {
        Some(14)
    } else if tok_is(tok, "sb") {
        Some(15)
    } else if tok_is(tok, "sh") {
        Some(16)
    } else if tok_is(tok, "sw") {
        Some(17)
    } else if tok_is(tok, "addi") {
        Some(18)
    } else if tok_is(tok, "slti") {
        Some(19)
    } else if tok_is(tok, "sltiu") {
        Some(20)
    } else if tok_is(tok, "xori") {
        Some(21)
    } else if tok_is(tok, "ori") {
        Some(22)
    } else if tok_is(tok, "andi") {
        Some(23)
    } else if tok_is(tok, "slli") {
        Some(24)
    } else if tok_is(tok, "srli") {
        Some(25)
    } else if tok_is(tok, "srai") {
        Some(26)
    } else if tok_is(tok, "add") {
        Some(27)
    } else if tok_is(tok, "sub") {
        Some(28)
    } else if tok_is(tok, "sll") {
        Some(29)
    } else if tok_is(tok, "slt") {
        Some(30)
    } else if tok_is(tok, "sltu") {
        Some(31)
    } else if tok_is(tok, "xor") {
        Some(32)
    } else if tok_is(tok, "srl") {
        Some(33)
    } else if tok_is(tok, "sra") {
        Some(34)
    } else if tok_is(tok, "or") {
        Some(35)
    } else if tok_is(tok, "and") {
        Some(36)
    } else if tok_is(tok, "ecall") {
        Some(37)
    } else if tok_is(tok, "ebreak") {
        Some(38)
    } else if tok_is(tok, "csrrw") {
        Some(39)
    } else if tok_is(tok, "csrrs") {
        Some(40)
    } else if tok_is(tok, "csrrc") {
        Some(41)
    } else if tok_is(tok, "csrrwi") {
        Some(42)
    } else if tok_is(tok, "csrrsi") {
        Some(43)
    } else if tok_is(tok, "csrrci") {
        Some(44)
    } else {
        None
    }
}

/// The canonical 5-bit index of a register name, by ABI name or numeric
/// form; `fp` aliases `s0`.
fn register_index(tok: &Vec<char>) -> (r: Option<u32>)
    ensures
        r == register_index_spec(tok@),
        r matches Some(i) ==> i < 32,
{
    if tok_is(tok, "zero") {
        Some(0)
    } else if tok_is(tok, "ra") {
        Some(1)
    } else if tok_is(tok, "sp") {
        Some(2)
    } else if tok_is(tok, "gp") {
        Some(3)
    } else if tok_is(tok, "tp") {
        Some(4)
    } else if tok_is(tok, "fp") {
        Some(8)
    } else if tok_is(tok, "a0") {
        Some(10)
    } else if tok_is(tok, "a1") {
        Some(11)
    } else if tok_is(tok, "a2") {
        Some(12)
    } else if tok_is(tok, "a3") {
        Some(13)
    } else if tok_is(tok, "a4") {
        Some(14)
    } else if tok_is(tok, "a5") {
        Some(15)
    } else if tok_is(tok, "a6") {
        Some(16)
    } else if tok_is(tok, "a7") {
        Some(17)
    } else if tok_is(tok, "s0") {
        Some(8)
    } else if tok_is(tok, "s1") {
        Some(9)
    } else if tok_is(tok, "s2") {
        Some(18)
    } else if tok_is(tok, "s3") {
        Some(19)
    } else if tok_is(tok, "s4") {
        Some(20)
    } else if tok_is(tok, "s5") {
        Some(21)
    } else if tok_is(tok, "s6") {
        Some(22)
    } else if tok_is(tok, "s7") {
        Some(23)
    } else if tok_is(tok, "s8") {
        Some(24)
    } else if tok_is(tok, "s9") {
        Some(25)
    } else if tok_is(tok, "s10") {
        Some(26)
    } else if tok_is(tok, "s11") {
        Some(27)
    } else if tok_is(tok, "t0") {
        Some(5)
    } else if tok_is(tok, "t1") {
        Some(6)
    } else if tok_is(tok, "t2") {
        Some(7)
    } else if tok_is(tok, "t3") {
        Some(28)
    } else if tok_is(tok, "t4") {
        Some(29)
    } else if tok_is(tok, "t5") {
        Some(30)
    } else if tok_is(tok, "t6") {
        Some(31)
    } else if tok_is(tok, "x0") {
        Some(0)
    } else if tok_is(tok, "x1") {
        Some(1)
    } else if tok_is(tok, "x2") {
        Some(2)
    } else if tok_is(tok, "x3") {
        Some(3)
    } else if tok_is(tok, "x4") {
        Some(4)
    } else if tok_is(tok, "x5") {
        Some(5)
    } else if tok_is(tok, "x6") {
        Some(6)
    } else if tok_is(tok, "x7") {
        Some(7)
    } else if tok_is(tok, "x8") {
        Some(8)
    } else if tok_is(tok, "x9") {
        Some(9)
    } else if tok_is(tok, "x10") {
        Some(10)
    } else if tok_is(tok, "x11") {
        Some(11)
    } else if tok_is(tok, "x12") {
        Some(12)
    } else if tok_is(tok, "x13") {
        Some(13)
    } else if tok_is(tok, "x14") {
        Some(14)
    } else if tok_is(tok, "x15") {
        Some(15)
    } else if tok_is(tok, "x16") {
        Some(16)
    } else if tok_is(tok, "x17") {
        Some(17)
    } else if tok_is(tok, "x18") {
        Some(18)
    } else if tok_is(tok, "x19") {
        Some(19)
    } else if tok_is(tok, "x20") {
        Some(20)
    } else if tok_is(tok, "x21") {
        Some(21)
    } else if tok_is(tok, "x22") {
        Some(22)
    } else if tok_is(tok, "x23") {
        Some(23)
    } else if tok_is(tok, "x24") {
        Some(24)
    } else if tok_is(tok, "x25") {
        Some(25)
    } else if tok_is(tok, "x26") {
        Some(26)
    } else if tok_is(tok, "x27") {
        Some(27)
    } else if tok_is(tok, "x28") {
        Some(28)
    } else if tok_is(tok, "x29") {
        Some(29)
    } else if tok_is(tok, "x30") {
        Some(30)
    } else if tok_is(tok, "x31") {
        Some(31)
    } else {
        None
    }
}

} // verus!

verus! {

/// Whether a character separates tokens.
pub open spec fn separator(c: char) -> bool {
    c == ' ' || c == ',' || c == '\t' || c == '\n' || c == '\r'
}

/// One character of tokenizer progress over the state: the tokens
/// gathered so far, the token being built, and whether the scan stands
/// inside a comment.
pub open spec fn tok_step(toks: Seq<Seq<char>>, cur: Seq<char>, in_comment: bool, c: char) -> (
    Seq<Seq<char>>,
    Seq<char>,
    bool,
) {
    if in_comment {
        (toks, cur, c != '\n')
    } else if c == '#' {
        (
            if cur.len() > 0 {
                toks.push(cur)
            } else {
                toks
            },
            Seq::empty(),
            true,
        )
    } else if separator(c) {
        (
            if cur.len() > 0 {
                toks.push(cur)
            } else {
                toks
            },
            Seq::empty(),
            false,
        )
    } else {
        (toks, cur.push(c), false)
    }
}

/// The tokenizer state after scanning the first `i` characters of `s`.
pub open spec fn tok_scan(s: Seq<char>, i: int) -> (Seq<Seq<char>>, Seq<char>, bool)
    decreases i,
{
    if i <= 0 {
        (Seq::empty(), Seq::empty(), false)
    } else {
        let st = tok_scan(s, i - 1);
        tok_step(st.0, st.1, st.2, s[i - 1])
    }
}

/// The tokens of a source text: scan every character, then flush
/// whatever token was still being built.
pub open spec fn tokens_of(s: Seq<char>) -> Seq<Seq<char>> {
    let st = tok_scan(s, s.len() as int);
    if st.1.len() > 0 {
        st.0.push(st.1)
    } else {
        st.0
    }
}

/// Split assembly text into tokens: comments run from `#` to end of
/// line, and spaces, commas, tabs and line breaks separate tokens.
fn tokenize(insts: &str) -> (r: Vec<Vec<char>>)
    ensures
        r.deep_view() == tokens_of(insts@),
{
    let n = insts.unicode_len();
    let mut tokens: Vec<Vec<char>> = Vec::new();
    let mut cur: Vec<char> = Vec::new();
    let mut in_comment = false;
    let mut i: usize = 0;
    proof {
        assert(tokens.deep_view() =~~= tok_scan(insts@, 0).0);
    }
    while i < n
        invariant
            n == insts@.len(),
            i <= n,
            tokens.deep_view() == tok_scan(insts@, i as int).0,
            cur@ == tok_scan(insts@, i as int).1,
            in_comment == tok_scan(insts@, i as int).2,
        decreases n - i,
    {
        let ghost prev = tokens.deep_view();
        let c = insts.get_char(i);
        if in_comment {
            if c == '\n' {
                in_comment = false;
            }
        } else if c == '#' {
            if cur.len() > 0 {
                tokens.push(cur);
                cur = Vec::new();
                proof {
                    assert(tokens.deep_view() =~~= prev.push(tok_scan(insts@, i as int).1));
                }
            }
            in_comment = true;
        } else if c == ' ' || c == ',' || c == '\t' || c == '\n' || c == '\r' {
            if cur.len() > 0 {
                tokens.push(cur);
                cur = Vec::new();
                proof {
                    assert(tokens.deep_view() =~~= prev.push(tok_scan(insts@, i as int).1));
                }
            }
        } else {
            cur.push(c);
        }
        i = i + 1;
    }
    if cur.len() > 0 {
        let ghost prev = tokens.deep_view();
        tokens.push(cur);
        proof {
            assert(tokens.deep_view() =~~= prev.push(tok_scan(insts@, n as int).1));
        }
    }
    tokens
}

/// Whether a token declares a label.
pub open spec fn is_label_tok(t: Seq<char>) -> bool {
    t.len() > 0 && t[t.len() - 1] == ':'
}

/// The label-pass state after the first `i` tokens: the labels gathered
/// so far, each with its byte address, and the running address (four
/// bytes per mnemonic seen).
pub open spec fn labels_scan(toks: Seq<Seq<char>>, i: int) -> (Seq<(Seq<char>, u32)>, u32)
    decreases i,
{
    if i <= 0 {
        (Seq::empty(), 0u32)
    } else {
        let st = labels_scan(toks, i - 1);
        let t = toks[i - 1];
        if is_label_tok(t) {
            (st.0.push((t.subrange(0, t.len() - 1), st.1)), st.1)
        } else if keyword_index_spec(t) is Some {
            (st.0, st.1.wrapping_add(4))
        } else {
            st
        }
    }
}

/// The label table of a token stream.
pub open spec fn labels_of(toks: Seq<Seq<char>>) -> Seq<(Seq<char>, u32)> {
    labels_scan(toks, toks.len() as int).0
}

/// The name-and-address view of an executable label table.
pub open spec fn labels_view(v: Seq<(Vec<char>, u32)>) -> Seq<(Seq<char>, u32)> {
    v.map_values(|p: (Vec<char>, u32)| (p.0@, p.1))
}

/// The address of the first label of the given name, if one was
/// declared.
pub open spec fn find_label_spec(labels: Seq<(Seq<char>, u32)>, t: Seq<char>) -> Option<u32>
    decreases labels.len(),
{
    if labels.len() == 0 {
        None
    } else if labels[0].0 == t {
        Some(labels[0].1)
    } else {
        find_label_spec(labels.drop_first(), t)
    }
}

/// The token stream with label declarations removed.
pub open spec fn non_label_toks(toks: Seq<Seq<char>>) -> Seq<Seq<char>>
    decreases toks.len(),
{
    if toks.len() == 0 {
        Seq::empty()
    } else if is_label_tok(toks.last()) {
        non_label_toks(toks.drop_last())
    } else {
        non_label_toks(toks.drop_last()).push(toks.last())
    }
}

/// A token's place in the deep view of the token list is the view of the
/// token there.
proof fn lemma_tok_view(toks: &Vec<Vec<char>>, i: int)
    requires
        0 <= i < toks@.len(),
    ensures
        toks.deep_view().len() == toks@.len(),
        toks.deep_view()[i] == toks@[i]@,
{
    assert(toks.deep_view()[i] =~= toks@[i]@);
}

/// Casting an unsigned word to signed and back gives the word.
proof fn lemma_u32_cast_round_trip(x: u32)
    ensures
        ((x as i32) as u32) == x,
{
    assert(((x as i32) as u32) == x) by (bit_vector);
}

/// Whether a token declares a label.
fn is_label(t: &Vec<char>) -> (r: bool)
    ensures
        r == is_label_tok(t@),
{
    let tlen = t.len();
    tlen > 0 && t[tlen - 1] == ':'
}

/// First pass: each label's byte address is four times the number of
/// mnemonics before it.
fn collect_labels(tokens: &Vec<Vec<char>>) -> (r: Vec<(Vec<char>, u32)>)
    ensures
        labels_view(r@) == labels_of(tokens.deep_view()),
{
    let ghost dv = tokens.deep_view();
    let mut labels: Vec<(Vec<char>, u32)> = Vec::new();
    let mut addr: u32 = 0;
    let mut i: usize = 0;
    proof {
        assert(labels_view(labels@) =~= labels_scan(dv, 0).0);
    }
    while i < tokens.len()
        invariant
            i <= tokens@.len(),
            dv == tokens.deep_view(),
            dv.len() == tokens@.len(),
            labels_view(labels@) == labels_scan(dv, i as int).0,
            addr == labels_scan(dv, i as int).1,
        decreases tokens@.len() - i,
    {
        proof {
            lemma_tok_view(tokens, i as int);
        }
        let ghost prev = labels_view(labels@);
        let t = &tokens[i];
        if is_label(t) {
            let tlen = t.len();
            let mut name: Vec<char> = Vec::new();
            let mut j: usize = 0;
            while j < tlen - 1
                invariant
                    tlen == t@.len(),
                    tlen > 0,
                    j <= tlen - 1,
                    name@ == t@.subrange(0, j as int),
                decreases tlen - 1 - j,
            {
                name.push(t[j]);
                proof {
                    assert(name@ =~= t@.subrange(0, j + 1));
                }
                j = j + 1;
            }
            labels.push((name, addr));
            proof {
                assert(labels_view(labels@) =~= prev.push((t@.subrange(0, t@.len() - 1), addr)));
            }
        } else if keyword_index(t).is_some() {
            addr = addr.wrapping_add(4);
        }
        i = i + 1;
    }
    labels
}

/// The address of a label, if it was declared; the first declaration of
/// a name wins.
fn find_label(labels: &Vec<(Vec<char>, u32)>, tok: &Vec<char>) -> (r: Option<u32>)
    ensures
        r == find_label_spec(labels_view(labels@), tok@),
{
    let ghost lv = labels_view(labels@);
    let mut i: usize = 0;
    proof {
        assert(lv.skip(0) =~= lv);
    }
    while i < labels.len()
        invariant
            i <= labels@.len(),
            lv == labels_view(labels@),
            lv.len() == labels@.len(),
            find_label_spec(lv, tok@) == find_label_spec(lv.skip(i as int), tok@),
        decreases labels@.len() - i,
    {
        if toks_eq(&labels[i].0, tok) {
            return Some(labels[i].1);
        }
        proof {
            assert(lv.skip(i as int).drop_first() =~= lv.skip(i as int + 1));
        }
        i = i + 1;
    }
    proof {
        assert(lv.skip(labels@.len() as int) =~= Seq::<(Seq<char>, u32)>::empty());
    }
    None
}

} // verus!

verus! {

use crate::instructions::{b_word, i_word, j_word, r_word, s_word, shift_word, u_word};
use crate::types::{
    FUNCT3_000,
    FUNCT3_001,
    FUNCT3_010,
    FUNCT3_011,
    FUNCT3_100,
    FUNCT3_101,
    FUNCT3_110,
    FUNCT3_111,
    FUNCT7_0000000,
    FUNCT7_0100000,
    OPCODE_ALU_AND_SHIFT_IMM,
    OPCODE_ALU_REGISTER,
    OPCODE_AUIPC,
    OPCODE_BRANCH,
    OPCODE_E_AND_SYSTEM,
    OPCODE_JAL,
    OPCODE_JALR,
    OPCODE_LOAD,
    OPCODE_LUI,
    OPCODE_STORE,
};

/// What the second pass emits from token position `idx` on, having
/// already emitted `emitted`: each mnemonic takes its operands from the
/// following tokens and appends the word its constructor builds; a
/// missing or malformed operand stops with what was emitted; a token
/// that is no mnemonic is skipped. A label operand of jal or a branch
/// resolves to its address minus the emitting instruction's address.
pub open spec fn assemble_loop(
    toks: Seq<Seq<char>>,
    labels: Seq<(Seq<char>, u32)>,
    idx: int,
    emitted: Seq<u32>,
) -> Seq<u32>
    decreases toks.len() - idx,
{
    if idx < 0 || idx >= toks.len() {
        emitted
    } else {
        match keyword_index_spec(toks[idx]) {
            None => assemble_loop(toks, labels, idx + 1, emitted),
            Some(k) => {
                if k <= 1 {
                    if toks.len() - idx < 3 {
                        emitted
                    } else {
                        match register_index_spec(toks[idx + 1]) {
                            None => emitted,
                            Some(rd) => {
                                if !valid_number(toks[idx + 2]) {
                                    emitted
                                } else {
                                    let imm = number_value(toks[idx + 2]);
                                    let w = if k == 0 {
                                        u_word(OPCODE_LUI, rd, imm)
                                    } else {
                                        u_word(OPCODE_AUIPC, rd, imm)
                                    };
                                    assemble_loop(toks, labels, idx + 3, emitted.push(w))
                                }
                            },
                        }
                    }
                } else if k == 2 {
                    if toks.len() - idx < 3 {
                        emitted
                    } else {
                        match register_index_spec(toks[idx + 1]) {
                            None => emitted,
                            Some(rd) => {
                                match find_label_spec(labels, toks[idx + 2]) {
                                    Some(a) => {
                                        let imm = a.wrapping_sub(
                                            (emitted.len() as u32).wrapping_mul(4),
                                        );
                                        assemble_loop(
                                            toks,
                                            labels,
                                            idx + 3,
                                            emitted.push(j_word(OPCODE_JAL, rd, imm)),
                                        )
                                    },
                                    None => {
                                        if !valid_number(toks[idx + 2]) {
                                            emitted
                                        } else {
                                            let imm = number_value(toks[idx + 2]);
                                            assemble_loop(
                                                toks,
                                                labels,
                                                idx + 3,
                                                emitted.push(j_word(OPCODE_JAL, rd, imm)),
                                            )
                                        }
                                    },
                                }
                            },
                        }
                    }
                } else if k <= 9 {
                    if toks.len() - idx < 4 {
                        emitted
                    } else {
                        match (register_index_spec(toks[idx + 1]), register_index_spec(
                            toks[idx + 2],
                        )) {
                            (Some(rs1), Some(rs2)) => {
                                let f3 = if k == 4 {
                                    FUNCT3_000
                                } else if k == 5 {
                                    FUNCT3_001
                                } else if k == 6 {
                                    FUNCT3_100
                                } else if k == 7 {
                                    FUNCT3_101
                                } else if k == 8 {
                                    FUNCT3_110
                                } else {
                                    FUNCT3_111
                                };
                                match find_label_spec(labels, toks[idx + 3]) {
                                    Some(a) => {
                                        let imm = a.wrapping_sub(
                                            (emitted.len() as u32).wrapping_mul(4),
                                        );
                                        assemble_loop(
                                            toks,
                                            labels,
                                            idx + 4,
                                            emitted.push(b_word(OPCODE_BRANCH, f3, rs1, rs2, imm)),
                                        )
                                    },
                                    None => {
                                        if !valid_number(toks[idx + 3]) {
                                            emitted
                                        } else {
                                            let imm = number_value(toks[idx + 3]);
                                            assemble_loop(
                                                toks,
                                                labels,
                                                idx + 4,
                                                emitted.push(
                                                    b_word(OPCODE_BRANCH, f3, rs1, rs2, imm),
                                                ),
                                            )
                                        }
                                    },
                                }
                            },
                            _ => emitted,
                        }
                    }
                } else if k <= 14 || k == 3 || (18 <= k && k <= 23) {
                    if toks.len() - idx < 4 {
                        emitted
                    } else {
                        match (register_index_spec(toks[idx + 1]), register_index_spec(
                            toks[idx + 2],
                        )) {
                            (Some(rd), Some(rs1)) => {
                                if !valid_number(toks[idx + 3]) {
                                    emitted
                                } else {
                                    let imm = number_value(toks[idx + 3]);
                                    let w = if k == 3 {
                                        i_word(OPCODE_JALR, FUNCT3_000, rd, rs1, imm)
                                    } else if k == 10 {
                                        i_word(OPCODE_LOAD, FUNCT3_000, rd, rs1, imm)
                                    } else if k == 11 {
                                        i_word(OPCODE_LOAD, FUNCT3_001, rd, rs1, imm)
                                    } else if k == 12 {
                                        i_word(OPCODE_LOAD, FUNCT3_010, rd, rs1, imm)
                                    } else if k == 13 {
                                        i_word(OPCODE_LOAD, FUNCT3_100, rd, rs1, imm)
                                    } else if k == 14 {
                                        i_word(OPCODE_LOAD, FUNCT3_101, rd, rs1, imm)
                                    } else if k == 18 {
                                        i_word(OPCODE_ALU_AND_SHIFT_IMM, FUNCT3_000, rd, rs1, imm)
                                    } else if k == 19 {
                                        i_word(OPCODE_ALU_AND_SHIFT_IMM, FUNCT3_010, rd, rs1, imm)
                                    } else if k == 20 {
                                        i_word(OPCODE_ALU_AND_SHIFT_IMM, FUNCT3_011, rd, rs1, imm)
                                    } else if k == 21 {
                                        i_word(OPCODE_ALU_AND_SHIFT_IMM, FUNCT3_100, rd, rs1, imm)
                                    } else if k == 22 {
                                        i_word(OPCODE_ALU_AND_SHIFT_IMM, FUNCT3_110, rd, rs1, imm)
                                    } else {
                                        i_word(OPCODE_ALU_AND_SHIFT_IMM, FUNCT3_111, rd, rs1, imm)
                                    };
                                    assemble_loop(toks, labels, idx + 4, emitted.push(w))
                                }
                            },
                            _ => emitted,
                        }
                    }
                } else if k <= 17 {
                    if toks.len() - idx < 4 {
                        emitted
                    } else {
                        match (register_index_spec(toks[idx + 1]), register_index_spec(
                            toks[idx + 2],
                        )) {
                            (Some(rs1), Some(rs2)) => {
                                if !valid_number(toks[idx + 3]) {
                                    emitted
                                } else {
                                    let imm = number_value(toks[idx + 3]);
                                    let w = if k == 15 {
                                        s_word(OPCODE_STORE, FUNCT3_000, rs1, rs2, imm)
                                    } else if k == 16 {
                                        s_word(OPCODE_STORE, FUNCT3_001, rs1, rs2, imm)
                                    } else {
                                        s_word(OPCODE_STORE, FUNCT3_010, rs1, rs2, imm)
                                    };
                                    assemble_loop(toks, labels, idx + 4, emitted.push(w))
                                }
                            },
                            _ => emitted,
                        }
                    }
                } else if k <= 26 {
                    if toks.len() - idx < 4 {
                        emitted
                    } else {
                        match (register_index_spec(toks[idx + 1]), register_index_spec(
                            toks[idx + 2],
                        )) {
                            (Some(rd), Some(rs1)) => {
                                if !valid_number(toks[idx + 3]) {
                                    emitted
                                } else {
                                    let sh = number_value(toks[idx + 3]);
                                    let w = if k == 24 {
                                        shift_word(
                                            OPCODE_ALU_AND_SHIFT_IMM,
                                            FUNCT3_001,
                                            FUNCT7_0000000,
                                            rd,
                                            rs1,
                                            sh,
                                        )
                                    } else if k == 25 {
                                        shift_word(
                                            OPCODE_ALU_AND_SHIFT_IMM,
                                            FUNCT3_101,
                                            FUNCT7_0000000,
                                            rd,
                                            rs1,
                                            sh,
                                        )
                                    } else {
                                        shift_word(
                                            OPCODE_ALU_AND_SHIFT_IMM,
                                            FUNCT3_101,
                                            FUNCT7_0100000,
                                            rd,
                                            rs1,
                                            sh,
                                        )
                                    };
                                    assemble_loop(toks, labels, idx + 4, emitted.push(w))
                                }
                            },
                            _ => emitted,
                        }
                    }
                } else if k <= 36 {
                    if toks.len() - idx < 4 {
                        emitted
                    } else {
                        match (register_index_spec(toks[idx + 1]), register_index_spec(
                            toks[idx + 2],
                        ), register_index_spec(toks[idx + 3])) {
                            (Some(rd), Some(rs1), Some(rs2)) => {
                                let w = if k == 27 {
                                    r_word(OPCODE_ALU_REGISTER, FUNCT3_000, FUNCT7_0000000, rd, rs1, rs2)
                                } else if k == 28 {
                                    r_word(OPCODE_ALU_REGISTER, FUNCT3_000, FUNCT7_0100000, rd, rs1, rs2)
                                } else if k == 29 {
                                    r_word(OPCODE_ALU_REGISTER, FUNCT3_001, FUNCT7_0000000, rd, rs1, rs2)
                                } else if k == 30 {
                                    r_word(OPCODE_ALU_REGISTER, FUNCT3_010, FUNCT7_0000000, rd, rs1, rs2)
                                } else if k == 31 {
                                    r_word(OPCODE_ALU_REGISTER, FUNCT3_011, FUNCT7_0000000, rd, rs1, rs2)
                                } else if k == 32 {
                                    r_word(OPCODE_ALU_REGISTER, FUNCT3_100, FUNCT7_0000000, rd, rs1, rs2)
                                } else if k == 33 {
                                    r_word(OPCODE_ALU_REGISTER, FUNCT3_101, FUNCT7_0000000, rd, rs1, rs2)
                                } else if k == 34 {
                                    r_word(OPCODE_ALU_REGISTER, FUNCT3_101, FUNCT7_0100000, rd, rs1, rs2)
                                } else if k == 35 {
                                    r_word(OPCODE_ALU_REGISTER, FUNCT3_110, FUNCT7_0000000, rd, rs1, rs2)
                                } else {
                                    r_word(OPCODE_ALU_REGISTER, FUNCT3_111, FUNCT7_0000000, rd, rs1, rs2)
                                };
                                assemble_loop(toks, labels, idx + 4, emitted.push(w))
                            },
                            _ => emitted,
                        }
                    }
                } else if k <= 38 {
                    let w = if k == 37 {
                        i_word(OPCODE_E_AND_SYSTEM, 0, 0, 0, 0)
                    } else {
                        i_word(OPCODE_E_AND_SYSTEM, 0, 0, 0, 1)
                    };
                    assemble_loop(toks, labels, idx + 1, emitted.push(w))
                } else if k <= 41 {
                    if toks.len() - idx < 4 {
                        emitted
                    } else {
                        match (register_index_spec(toks[idx + 1]), register_index_spec(
                            toks[idx + 2],
                        )) {
                            (Some(rd), Some(rs1)) => {
                                if !valid_number(toks[idx + 3]) {
                                    emitted
                                } else {
                                    let imm = number_value(toks[idx + 3]);
                                    let w = if k == 39 {
                                        i_word(OPCODE_E_AND_SYSTEM, FUNCT3_001, rd, rs1, imm)
                                    } else if k == 40 {
                                        i_word(OPCODE_E_AND_SYSTEM, FUNCT3_010, rd, rs1, imm)
                                    } else {
                                        i_word(OPCODE_E_AND_SYSTEM, FUNCT3_011, rd, rs1, imm)
                                    };
                                    assemble_loop(toks, labels, idx + 4, emitted.push(w))
                                }
                            },
                            _ => emitted,
                        }
                    }
                } else {
                    if toks.len() - idx < 4 {
                        emitted
                    } else {
                        match register_index_spec(toks[idx + 1]) {
                            None => emitted,
                            Some(rd) => {
                                if !valid_number(toks[idx + 2]) {
                                    emitted
                                } else if !valid_number(toks[idx + 3]) {
                                    emitted
                                } else {
                                    let zimm = number_value(toks[idx + 2]);
                                    let imm = number_value(toks[idx + 3]);
                                    let w = if k == 42 {
                                        i_word(OPCODE_E_AND_SYSTEM, FUNCT3_101, rd, zimm, imm)
                                    } else if k == 43 {
                                        i_word(OPCODE_E_AND_SYSTEM, FUNCT3_110, rd, zimm, imm)
                                    } else {
                                        i_word(OPCODE_E_AND_SYSTEM, FUNCT3_111, rd, zimm, imm)
                                    };
                                    assemble_loop(toks, labels, idx + 4, emitted.push(w))
                                }
                            },
                        }
                    }
                }
            },
        }
    }
}

/// The words a source text assembles to.
pub open spec fn assemble_spec(s: Seq<char>) -> Seq<u32> {
    assemble_loop(
        non_label_toks(tokens_of(s)),
        labels_of(tokens_of(s)),
        0,
        Seq::empty(),
    )
}

} // verus!

verus! {

/// Assemble a source text into instruction words: exactly the words of
/// [`assemble_spec`]. A mnemonic with a malformed or missing operand
/// stops assembly, returning the words emitted so far; a stray token
/// that is no mnemonic is skipped. A label operand of a branch or jump
/// resolves to the label's address relative to the instruction being
/// emitted.
#[verifier::loop_isolation(false)]
#[verifier::rlimit(100)]
pub fn assemble(insts: &str) -> (r: Vec<u32>)
    ensures
        r@ == assemble_spec(insts@),
{
    let tokens = tokenize(insts);
    let labels = collect_labels(&tokens);
    let ghost all_toks = tokens.deep_view();
    let mut toks: Vec<Vec<char>> = Vec::new();
    let mut i: usize = 0;
    proof {
        assert(all_toks.subrange(0, 0) =~= Seq::<Seq<char>>::empty());
        assert(toks.deep_view() =~~= non_label_toks(all_toks.subrange(0, 0)));
    }
    while i < tokens.len()
        invariant
            i <= tokens@.len(),
            toks.deep_view() == non_label_toks(all_toks.subrange(0, i as int)),
        decreases tokens@.len() - i,
    {
        proof {
            lemma_tok_view(&tokens, i as int);
            assert(all_toks.subrange(0, i + 1).drop_last() =~= all_toks.subrange(0, i as int));
        }
        let ghost prev = toks.deep_view();
        let t = &tokens[i];
        if !is_label(t) {
            toks.push(copy_tok(t));
            proof {
                assert(toks.deep_view() =~~= prev.push(all_toks[i as int]));
            }
        }
        i = i + 1;
    }
    proof {
        assert(all_toks.subrange(0, tokens@.len() as int) =~= all_toks);
    }
    let ghost toksv = toks.deep_view();
    let ghost labelsv = labels_view(labels@);
    let ghost target = assemble_loop(toksv, labelsv, 0, Seq::empty());
    proof {
        assert(target == assemble_spec(insts@));
    }
    let mut compiled: Vec<u32> = Vec::new();
    proof {
        assert(compiled@ =~= Seq::<u32>::empty());
    }
    let mut idx: usize = 0;
    while idx < toks.len()
        invariant
            idx <= toks@.len(),
            assemble_loop(toksv, labelsv, idx as int, compiled@) == target,
        decreases toks@.len() - idx,
    {
        proof {
            lemma_tok_view(&toks, idx as int);
        }
        let k_opt = keyword_index(&toks[idx]);
        if k_opt.is_none() {
            // not a mnemonic: skip it
            idx = idx + 1;
            continue;
        }
        let k = k_opt.unwrap();
        if k <= 1 {
            // lui auipc: rd imm
            if toks.len() - idx < 3 {
                return compiled;
            }
            proof {
                lemma_tok_view(&toks, idx as int + 1);
                lemma_tok_view(&toks, idx as int + 2);
            }
            let rd_opt = register_index(&toks[idx + 1]);
            if rd_opt.is_none() {
                return compiled;
            }
            if !check_valid_hex_or_decimal(&toks[idx + 2]) {
                return compiled;
            }
            let rd = rd_opt.unwrap();
            let imm = hex_or_decimal_from_string(&toks[idx + 2]);
            let inst = if k == 0 {
                inst_lui(rd, imm)
            } else {
                inst_auipc(rd, imm)
            };
            compiled.push(inst.get_bits());
            idx = idx + 3;
        } else if k == 2 {
            // jal: rd imm/label
            if toks.len() - idx < 3 {
                return compiled;
            }
            proof {
                lemma_tok_view(&toks, idx as int + 1);
                lemma_tok_view(&toks, idx as int + 2);
            }
            let rd_opt = register_index(&toks[idx + 1]);
            if rd_opt.is_none() {
                return compiled;
            }
            let rd = rd_opt.unwrap();
            let imm: u32;
            match find_label(&labels, &toks[idx + 2]) {
                Some(a) => {
                    let ptr = (compiled.len() as u32).wrapping_mul(4);
                    imm = a.wrapping_sub(ptr);
                },
                None => {
                    if !check_valid_hex_or_decimal(&toks[idx + 2]) {
                        return compiled;
                    }
                    imm = hex_or_decimal_from_string(&toks[idx + 2]);
                },
            }
            proof {
                lemma_u32_cast_round_trip(imm);
            }
            let inst = inst_jal(rd, imm as i32);
            compiled.push(inst.get_bits());
            idx = idx + 3;
        } else if k <= 9 {
            // beq bne blt bge bltu bgeu: rs1 rs2 imm/label
            if toks.len() - idx < 4 {
                return compiled;
            }
            proof {
                lemma_tok_view(&toks, idx as int + 1);
                lemma_tok_view(&toks, idx as int + 2);
                lemma_tok_view(&toks, idx as int + 3);
            }
            let rs1_opt = register_index(&toks[idx + 1]);
            let rs2_opt = register_index(&toks[idx + 2]);
            if rs1_opt.is_none() || rs2_opt.is_none() {
                return compiled;
            }
            let rs1 = rs1_opt.unwrap();
            let rs2 = rs2_opt.unwrap();
            let imm: u32;
            match find_label(&labels, &toks[idx + 3]) {
                Some(a) => {
                    let ptr = (compiled.len() as u32).wrapping_mul(4);
                    imm = a.wrapping_sub(ptr);
                },
                None => {
                    if !check_valid_hex_or_decimal(&toks[idx + 3]) {
                        return compiled;
                    }
                    imm = hex_or_decimal_from_string(&toks[idx + 3]);
                },
            }
            proof {
                lemma_u32_cast_round_trip(imm);
            }
            let s = imm as i32;
            let inst = if k == 4 {
                inst_beq(rs1, rs2, s)
            } else if k == 5 {
                inst_bne(rs1, rs2, s)
            } else if k == 6 {
                inst_blt(rs1, rs2, s)
            } else if k == 7 {
                inst_bge(rs1, rs2, s)
            } else if k == 8 {
                inst_bltu(rs1, rs2, s)
            } else {
                inst_bgeu(rs1, rs2, s)
            };
            compiled.push(inst.get_bits());
            idx = idx + 4;
        } else if k <= 14 || k == 3 || (18 <= k && k <= 23) {
            // jalr and the loads and ALU immediates: rd rs1 imm
            if toks.len() - idx < 4 {
                return compiled;
            }
            proof {
                lemma_tok_view(&toks, idx as int + 1);
                lemma_tok_view(&toks, idx as int + 2);
                lemma_tok_view(&toks, idx as int + 3);
            }
            let rd_opt = register_index(&toks[idx + 1]);
            let rs1_opt = register_index(&toks[idx + 2]);
            if rd_opt.is_none() || rs1_opt.is_none() {
                return compiled;
            }
            if !check_valid_hex_or_decimal(&toks[idx + 3]) {
                return compiled;
            }
            let rd = rd_opt.unwrap();
            let rs1 = rs1_opt.unwrap();
            let imm = hex_or_decimal_from_string(&toks[idx + 3]);
            proof {
                lemma_u32_cast_round_trip(imm);
            }
            let s = imm as i32;
            let inst = if k == 3 {
                inst_jalr(rd, rs1, s)
            } else if k == 10 {
                inst_lb(rd, rs1, s)
            } else if k == 11 {
                inst_lh(rd, rs1, s)
            } else if k == 12 {
                inst_lw(rd, rs1, s)
            } else if k == 13 {
                inst_lbu(rd, rs1, s)
            } else if k == 14 {
                inst_lhu(rd, rs1, s)
            } else if k == 18 {
                inst_addi(rd, rs1, s)
            } else if k == 19 {
                inst_slti(rd, rs1, s)
            } else if k == 20 {
                inst_sltiu(rd, rs1, s)
            } else if k == 21 {
                inst_xori(rd, rs1, s)
            } else if k == 22 {
                inst_ori(rd, rs1, s)
            } else {
                inst_andi(rd, rs1, s)
            };
            compiled.push(inst.get_bits());
            idx = idx + 4;
        } else if k <= 17 {
            // sb sh sw: rs1 rs2 imm
            if toks.len() - idx < 4 {
                return compiled;
            }
            proof {
                lemma_tok_view(&toks, idx as int + 1);
                lemma_tok_view(&toks, idx as int + 2);
                lemma_tok_view(&toks, idx as int + 3);
            }
            let rs1_opt = register_index(&toks[idx + 1]);
            let rs2_opt = register_index(&toks[idx + 2]);
            if rs1_opt.is_none() || rs2_opt.is_none() {
                return compiled;
            }
            if !check_valid_hex_or_decimal(&toks[idx + 3]) {
                return compiled;
            }
            let rs1 = rs1_opt.unwrap();
            let rs2 = rs2_opt.unwrap();
            let imm = hex_or_decimal_from_string(&toks[idx + 3]);
            proof {
                lemma_u32_cast_round_trip(imm);
            }
            let s = imm as i32;
            let inst = if k == 15 {
                inst_sb(rs1, rs2, s)
            } else if k == 16 {
                inst_sh(rs1, rs2, s)
            } else {
                inst_sw(rs1, rs2, s)
            };
            compiled.push(inst.get_bits());
            idx = idx + 4;
        } else if k <= 26 {
            // slli srli srai: rd rs1 shamt
            if toks.len() - idx < 4 {
                return compiled;
            }
            proof {
                lemma_tok_view(&toks, idx as int + 1);
                lemma_tok_view(&toks, idx as int + 2);
                lemma_tok_view(&toks, idx as int + 3);
            }
            let rd_opt = register_index(&toks[idx + 1]);
            let rs1_opt = register_index(&toks[idx + 2]);
            if rd_opt.is_none() || rs1_opt.is_none() {
                return compiled;
            }
            if !check_valid_hex_or_decimal(&toks[idx + 3]) {
                return compiled;
            }
            let rd = rd_opt.unwrap();
            let rs1 = rs1_opt.unwrap();
            let shamt = hex_or_decimal_from_string(&toks[idx + 3]);
            let inst = if k == 24 {
                inst_slli(rd, rs1, shamt)
            } else if k == 25 {
                inst_srli(rd, rs1, shamt)
            } else {
                inst_srai(rd, rs1, shamt)
            };
            compiled.push(inst.get_bits());
            idx = idx + 4;
        } else if k <= 36 {
            // add sub sll slt sltu xor srl sra or and: rd rs1 rs2
            if toks.len() - idx < 4 {
                return compiled;
            }
            proof {
                lemma_tok_view(&toks, idx as int + 1);
                lemma_tok_view(&toks, idx as int + 2);
                lemma_tok_view(&toks, idx as int + 3);
            }
            let rd_opt = register_index(&toks[idx + 1]);
            let rs1_opt = register_index(&toks[idx + 2]);
            let rs2_opt = register_index(&toks[idx + 3]);
            if rd_opt.is_none() || rs1_opt.is_none() || rs2_opt.is_none() {
                return compiled;
            }
            let rd = rd_opt.unwrap();
            let rs1 = rs1_opt.unwrap();
            let rs2 = rs2_opt.unwrap();
            let inst = if k == 27 {
                inst_add(rd, rs1, rs2)
            } else if k == 28 {
                inst_sub(rd, rs1, rs2)
            } else if k == 29 {
                inst_sll(rd, rs1, rs2)
            } else if k == 30 {
                inst_slt(rd, rs1, rs2)
            } else if k == 31 {
                inst_sltu(rd, rs1, rs2)
            } else if k == 32 {
                inst_xor(rd, rs1, rs2)
            } else if k == 33 {
                inst_srl(rd, rs1, rs2)
            } else if k == 34 {
                inst_sra(rd, rs1, rs2)
            } else if k == 35 {
                inst_or(rd, rs1, rs2)
            } else {
                inst_and(rd, rs1, rs2)
            };
            compiled.push(inst.get_bits());
            idx = idx + 4;
        } else if k <= 38 {
            // ecall ebreak
            let inst = if k == 37 {
                inst_ecall()
            } else {
                inst_ebreak()
            };
            compiled.push(inst.get_bits());
            idx = idx + 1;
        } else if k <= 41 {
            // csrrw csrrs csrrc: rd rs1 csr
            if toks.len() - idx < 4 {
                return compiled;
            }
            proof {
                lemma_tok_view(&toks, idx as int + 1);
                lemma_tok_view(&toks, idx as int + 2);
                lemma_tok_view(&toks, idx as int + 3);
            }
            let rd_opt = register_index(&toks[idx + 1]);
            let rs1_opt = register_index(&toks[idx + 2]);
            if rd_opt.is_none() || rs1_opt.is_none() {
                return compiled;
            }
            if !check_valid_hex_or_decimal(&toks[idx + 3]) {
                return compiled;
            }
            let rd = rd_opt.unwrap();
            let rs1 = rs1_opt.unwrap();
            let imm = hex_or_decimal_from_string(&toks[idx + 3]);
            proof {
                lemma_u32_cast_round_trip(imm);
            }
            let s = imm as i32;
            let inst = if k == 39 {
                inst_csrrw(rd, rs1, s)
            } else if k == 40 {
                inst_csrrs(rd, rs1, s)
            } else {
                inst_csrrc(rd, rs1, s)
            };
            compiled.push(inst.get_bits());
            idx = idx + 4;
        } else {
            // csrrwi csrrsi csrrci: rd zimm csr
            if toks.len() - idx < 4 {
                return compiled;
            }
            proof {
                lemma_tok_view(&toks, idx as int + 1);
                lemma_tok_view(&toks, idx as int + 2);
                lemma_tok_view(&toks, idx as int + 3);
            }
            let rd_opt = register_index(&toks[idx + 1]);
            if rd_opt.is_none() {
                return compiled;
            }
            if !check_valid_hex_or_decimal(&toks[idx + 2]) {
                return compiled;
            }
            if !check_valid_hex_or_decimal(&toks[idx + 3]) {
                return compiled;
            }
            let rd = rd_opt.unwrap();
            let zimm = hex_or_decimal_from_string(&toks[idx + 2]);
            let imm = hex_or_decimal_from_string(&toks[idx + 3]);
            proof {
                lemma_u32_cast_round_trip(imm);
            }
            let inst = if k == 42 {
                inst_csrrwi(rd, zimm, imm as i32)
            } else if k == 43 {
                inst_csrrsi(rd, zimm, imm as i32)
            } else {
                inst_csrrci(rd, zimm, imm as i32)
            };
            compiled.push(inst.get_bits());
            idx = idx + 4;
        }
    }
    compiled
}

} // verus!
