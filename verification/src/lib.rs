//! A verified emulator for the RV32I base integer instruction set, with a
//! companion textual assembler.
//!
//! The crate is organised around two tightly coupled pieces: the instruction
//! codec (bit-level encoders and decoders for the R, I, S, B, U, J and
//! shift-immediate formats) and the interpreter (a fetch/decode/execute loop
//! over a simulated 32-bit register machine with byte-addressed memory).

pub mod assembler;
pub mod cpu;
pub mod imm_enc_dec;
pub mod inst_defs;
pub mod instructions;
pub mod tests_imm;
pub mod tests_inst;
pub mod types;
