//! The interpreter: a simulated 32-bit register machine with byte-addressed
//! little-endian memory, driven by a fetch/decode/dispatch/execute loop.
//!
//! The machine's whole behaviour is pinned down by the specification-level
//! transition function [`step`]: executing one instruction word either
//! yields the next processor state or a [`Fault`], and the executable
//! handlers are proved to agree with it exactly. The fetch loop [`run`]
//! likewise agrees with the recursive [`run_spec`].

use vstd::prelude::*;

verus! {

use crate::imm_enc_dec::{
    b_dec_spec,
    i_dec_spec,
    j_dec_spec,
    s_dec_spec,
    sext,
    shift_dec_spec,
    sign_extend,
    u_dec_spec,
};
use crate::instructions::{
    Instruction,
    _B,
    _I,
    _Op,
    _R,
    _S,
    _Shift,
    _U,
    _J,
    bits_of,
    funct3_of,
    funct7_of,
    imm11_0_of,
    opcode_of,
    rd_of,
    rs1_of,
    rs2_of,
};
use crate::types::{
    FUNCT3_000,
    FUNCT3_001,
    FUNCT3_010,
    FUNCT3_011,
    FUNCT3_100,
    FUNCT3_101,
    FUNCT3_110,
    FUNCT3_111,
    FUNCT7_0000000,
    FUNCT7_0100000,
    IMM11_0_000000000000,
    IMM11_0_000000000001,
    OPCODE_ALU_AND_SHIFT_IMM,
    OPCODE_ALU_REGISTER,
    OPCODE_AUIPC,
    OPCODE_BRANCH,
    OPCODE_E_AND_SYSTEM,
    OPCODE_JAL,
    OPCODE_JALR,
    OPCODE_LOAD,
    OPCODE_LUI,
    OPCODE_STORE,
};

/// Size of the simulated memory in bytes.
pub const MEMORY_SIZE: usize = 0xFFFFF;

/// The value the stack pointer (register 2) is armed with on reset.
pub const STACK_POINTER: u32 = 0xF8000;

/// Reading this word during fetch terminates a run.
pub const HALT_SENTINEL: u32 = 0xDEADC0DE;

/// A fatal runtime condition: the interpreter stops and reports it.
#[derive(Clone, Copy, Debug, PartialEq, Eq, Structural)]
pub enum Fault {
    /// A load, store or fetch touched an address beyond the end of memory.
    MemoryOutOfBounds,
    /// An opcode, funct3, funct7 or system-immediate combination outside
    /// the implemented RV32I subset.
    UnknownInstruction,
}

/// How a bounded run ended.
#[derive(Clone, Copy, Debug, PartialEq, Eq, Structural)]
pub enum RunStatus {
    /// The halt sentinel was fetched.
    Halted,
    /// A fatal condition was raised.
    Faulted(Fault),
    /// The step budget ran out before the program halted.
    OutOfSteps,
}

/// The mathematical image of the processor: register file, control/status
/// registers, memory and program counter.
#[verifier::ext_equal]
pub ghost struct CpuView {
    pub csrs: Seq<u64>,
    pub mem: Seq<u8>,
    pub regs: Seq<u32>,
    pub pc: u32,
}

/// The fixed shape of a well-formed processor: 32 general registers, 4096
/// control/status registers, and the full byte memory.
pub open spec fn cpu_wf(s: CpuView) -> bool {
    &&& s.regs.len() == 32
    &&& s.csrs.len() == 4096
    &&& s.mem.len() == MEMORY_SIZE
}

/// The 32-bit little-endian word at byte address `a`.
pub open spec fn word_at(mem: Seq<u8>, a: int) -> u32
    recommends
        0 <= a,
        a + 4 <= mem.len(),
{
    (mem[a] as u32) | ((mem[a + 1] as u32) << 8) | ((mem[a + 2] as u32) << 16) | ((mem[a + 3]
        as u32) << 24)
}

/// The 16-bit little-endian value at byte address `a`.
pub open spec fn half_at(mem: Seq<u8>, a: int) -> u16
    recommends
        0 <= a,
        a + 2 <= mem.len(),
{
    (mem[a] as u16) | ((mem[a + 1] as u16) << 8)
}

/// `mem` with the 32-bit word `v` stored little-endian at address `a`.
pub open spec fn put_word(mem: Seq<u8>, a: int, v: u32) -> Seq<u8>
    recommends
        0 <= a,
        a + 4 <= mem.len(),
{
    mem.update(a, (v & 0xFF) as u8).update(a + 1, ((v >> 8) & 0xFF) as u8).update(
        a + 2,
        ((v >> 16) & 0xFF) as u8,
    ).update(a + 3, ((v >> 24) & 0xFF) as u8)
}

/// `mem` with the 16-bit value `v` stored little-endian at address `a`.
pub open spec fn put_half(mem: Seq<u8>, a: int, v: u16) -> Seq<u8>
    recommends
        0 <= a,
        a + 2 <= mem.len(),
{
    mem.update(a, (v & 0xFF) as u8).update(a + 1, ((v >> 8) & 0xFF) as u8)
}

/// `s` with register `rd` set to `v`.
pub open spec fn with_reg(s: CpuView, rd: u32, v: u32) -> CpuView
    recommends
        rd < 32,
{
    CpuView { regs: s.regs.update(rd as int, v), ..s }
}

/// `s` with the program counter set to `pc`.
pub open spec fn with_pc(s: CpuView, pc: u32) -> CpuView {
    CpuView { pc, ..s }
}

/// `s` with control/status register `idx` set to `v`.
pub open spec fn with_csr(s: CpuView, idx: u32, v: u64) -> CpuView
    recommends
        idx < 4096,
{
    CpuView { csrs: s.csrs.update(idx as int, v), ..s }
}

/// `s` with memory replaced by `mem`.
pub open spec fn with_mem(s: CpuView, mem: Seq<u8>) -> CpuView {
    CpuView { mem, ..s }
}

/// The state after reset: everything zero but the stack pointer.
pub open spec fn reset_state() -> CpuView {
    CpuView {
        pc: 0,
        csrs: Seq::new(4096, |i: int| 0u64),
        mem: Seq::new(MEMORY_SIZE as nat, |i: int| 0u8),
        regs: Seq::new(32, |i: int| 0u32).update(2, STACK_POINTER),
    }
}

/// The state a freshly constructed processor is in: everything zero.
pub open spec fn zero_state() -> CpuView {
    CpuView {
        pc: 0,
        csrs: Seq::new(4096, |i: int| 0u64),
        mem: Seq::new(MEMORY_SIZE as nat, |i: int| 0u8),
        regs: Seq::new(32, |i: int| 0u32),
    }
}

/// The memory holding program image `img` at address 0 and zeros above it.
pub open spec fn image_mem(img: Seq<u8>) -> Seq<u8> {
    Seq::new(
        MEMORY_SIZE as nat,
        |i: int|
            if i < img.len() {
                img[i]
            } else {
                0u8
            },
    )
}

/// The simulated processor.
pub struct RiscvCpu {
    pub csrs: Vec<u64>,
    pub memory: Vec<u8>,
    pub registers: Vec<u32>,
    pub program_counter: u32,
}

impl View for RiscvCpu {
    type V = CpuView;

    open spec fn view(&self) -> CpuView {
        CpuView {
            csrs: self.csrs@,
            mem: self.memory@,
            regs: self.registers@,
            pc: self.program_counter,
        }
    }
}

impl RiscvCpu {
    pub open spec fn wf(&self) -> bool {
        cpu_wf(self@)
    }

    /// A fresh processor with every register, every control/status
    /// register and every memory byte zero.
    pub fn new() -> (cpu: RiscvCpu)
        ensures
            cpu@ == zero_state(),
            cpu.wf(),
    {
        let mut csrs: Vec<u64> = Vec::new();
        let mut memory: Vec<u8> = Vec::new();
        let mut registers: Vec<u32> = Vec::new();
        let mut i: usize = 0;
        while i < 4096
            invariant
                i <= 4096,
                csrs@.len() == i,
                forall|j: int| 0 <= j < i ==> csrs@[j] == 0u64,
            decreases 4096 - i,
        {
            csrs.push(0);
            i = i + 1;
        }
        let mut i: usize = 0;
        while i < MEMORY_SIZE
            invariant
                i <= MEMORY_SIZE,
                memory@.len() == i,
                forall|j: int| 0 <= j < i ==> memory@[j] == 0u8,
            decreases MEMORY_SIZE - i,
        {
            memory.push(0);
            i = i + 1;
        }
        let mut i: usize = 0;
        while i < 32
            invariant
                i <= 32,
                registers@.len() == i,
                forall|j: int| 0 <= j < i ==> registers@[j] == 0u32,
            decreases 32 - i,
        {
            registers.push(0);
            i = i + 1;
        }
        let cpu = RiscvCpu { csrs, memory, registers, program_counter: 0 };
        proof {
            assert(cpu@.csrs =~= zero_state().csrs);
            assert(cpu@.mem =~= zero_state().mem);
            assert(cpu@.regs =~= zero_state().regs);
            assert(cpu@ =~= zero_state());
        }
        cpu
    }

    /// Zero all state and arm the stack pointer.
    pub fn reset(&mut self)
        requires
            old(self).wf(),
        ensures
            final(self)@ == reset_state(),
            final(self).wf(),
    {
        self.program_counter = 0;
        let mut i: usize = 0;
        while i < 4096
            invariant
                i <= 4096,
                self.csrs@.len() == 4096,
                self.memory@ == old(self).memory@,
                self.registers@ == old(self).registers@,
                self.program_counter == 0,
                forall|j: int| 0 <= j < i ==> self.csrs@[j] == 0u64,
            decreases 4096 - i,
        {
            self.csrs[i] = 0;
            i = i + 1;
        }
        let mut i: usize = 0;
        while i < MEMORY_SIZE
            invariant
                i <= MEMORY_SIZE,
                self.csrs@.len() == 4096,
                forall|j: int| 0 <= j < 4096 ==> self.csrs@[j] == 0u64,
                self.memory@.len() == MEMORY_SIZE,
                self.registers@ == old(self).registers@,
                self.program_counter == 0,
                forall|j: int| 0 <= j < i ==> self.memory@[j] == 0u8,
            decreases MEMORY_SIZE - i,
        {
            self.memory[i] = 0;
            i = i + 1;
        }
        let mut i: usize = 0;
        while i < 32
            invariant
                i <= 32,
                self.csrs@.len() == 4096,
                forall|j: int| 0 <= j < 4096 ==> self.csrs@[j] == 0u64,
                self.memory@.len() == MEMORY_SIZE,
                forall|j: int| 0 <= j < MEMORY_SIZE ==> self.memory@[j] == 0u8,
                self.registers@.len() == 32,
                self.program_counter == 0,
                forall|j: int| 0 <= j < i ==> self.registers@[j] == 0u32,
            decreases 32 - i,
        {
            self.registers[i] = 0;
            i = i + 1;
        }
        self.set_register(2, STACK_POINTER);
        proof {
            assert(self@.csrs =~= reset_state().csrs);
            assert(self@.mem =~= reset_state().mem);
            assert(self@.regs =~= reset_state().regs);
            assert(self@ =~= reset_state());
        }
    }

    /// Little-endian 16-bit store at `address`.
    pub fn write_u16_memory(&mut self, address: usize, value: u16)
        requires
            old(self).wf(),
            address + 2 <= MEMORY_SIZE,
        ensures
            final(self)@ == with_mem(old(self)@, put_half(old(self)@.mem, address as int, value)),
            final(self).wf(),
    {
        self.memory[address] = (value & 0xFF) as u8;
        self.memory[address + 1] = ((value >> 8) & 0xFF) as u8;
    }

    /// Little-endian 16-bit load at `address`.
    pub fn read_u16_memory(&self, address: usize) -> (r: u16)
        requires
            self.wf(),
            address + 2 <= MEMORY_SIZE,
        ensures
            r == half_at(self@.mem, address as int),
    {
        (self.memory[address] as u16) | ((self.memory[address + 1] as u16) << 8)
    }

    /// Little-endian 32-bit store at `address`.
    pub fn write_u32_memory(&mut self, address: usize, value: u32)
        requires
            old(self).wf(),
            address + 4 <= MEMORY_SIZE,
        ensures
            final(self)@ == with_mem(old(self)@, put_word(old(self)@.mem, address as int, value)),
            final(self).wf(),
    {
        self.memory[address] = (value & 0xFF) as u8;
        self.memory[address + 1] = ((value >> 8) & 0xFF) as u8;
        self.memory[address + 2] = ((value >> 16) & 0xFF) as u8;
        self.memory[address + 3] = ((value >> 24) & 0xFF) as u8;
    }

    /// Little-endian 32-bit load at `address`.
    pub fn read_u32_memory(&self, address: usize) -> (r: u32)
        requires
            self.wf(),
            address + 4 <= MEMORY_SIZE,
        ensures
            r == word_at(self@.mem, address as int),
    {
        (self.memory[address] as u32) | ((self.memory[address + 1] as u32) << 8) | ((self.memory[
            address + 2] as u32) << 16) | ((self.memory[address + 3] as u32) << 24)
    }

    /// Reset, copy a program image to address 0, and write the halt
    /// sentinel just past it.
    pub fn load_from_u8(&mut self, inst_list: &[u8])
        requires
            old(self).wf(),
            inst_list@.len() + 4 <= MEMORY_SIZE,
        ensures
            final(self).wf(),
            final(self)@ == with_mem(
                reset_state(),
                put_word(image_mem(inst_list@), inst_list@.len() as int, HALT_SENTINEL),
            ),
    {
        self.reset();
        let mut i: usize = 0;
        while i < inst_list.len()
            invariant
                old(self).wf(),
                inst_list@.len() + 4 <= MEMORY_SIZE,
                i <= inst_list@.len(),
                self.wf(),
                self@.pc == reset_state().pc,
                self@.csrs == reset_state().csrs,
                self@.regs == reset_state().regs,
                forall|j: int| 0 <= j < i ==> self@.mem[j] == inst_list@[j],
                forall|j: int| i <= j < MEMORY_SIZE ==> self@.mem[j] == 0u8,
            decreases inst_list@.len() - i,
        {
            self.memory[i] = inst_list[i];
            i = i + 1;
        }
        self.write_u32_memory(inst_list.len(), HALT_SENTINEL);
        proof {
            let img = inst_list@;
            let n = img.len() as int;
            assert(self@.mem =~= put_word(image_mem(img), n, HALT_SENTINEL));
        }
    }

    /// Read general register `index`.
    pub fn get_register(&self, index: u32) -> (r: u32)
        requires
            self.wf(),
            index < 32,
        ensures
            r == self@.regs[index as int],
    {
        self.registers[index as usize]
    }

    /// Write general register `index`. Register 0 is not special here: the
    /// fetch loop re-zeroes it before every instruction.
    pub fn set_register(&mut self, index: u32, value: u32)
        requires
            old(self).wf(),
            index < 32,
        ensures
            final(self)@ == with_reg(old(self)@, index, value),
            final(self).wf(),
    {
        self.registers[index as usize] = value;
    }
}

} // verus!

verus! {

/// `s` with the program counter advanced past one instruction.
pub open spec fn step4(s: CpuView) -> CpuView {
    with_pc(s, s.pc.wrapping_add(4))
}

/// One conditional branch: compare the two source registers, then either
/// jump PC-relative by the B-format immediate or fall through.
pub open spec fn step_branch(s: CpuView, bits: u32) -> Result<CpuView, Fault>
    recommends
        cpu_wf(s),
{
    let f3 = funct3_of(bits);
    let a = s.regs[rs1_of(bits) as int];
    let b = s.regs[rs2_of(bits) as int];
    let taken = if f3 == FUNCT3_000 {
        a == b
    } else if f3 == FUNCT3_001 {
        a != b
    } else if f3 == FUNCT3_100 {
        (a as i32) < (b as i32)
    } else if f3 == FUNCT3_101 {
        (a as i32) >= (b as i32)
    } else if f3 == FUNCT3_110 {
        a < b
    } else {
        a >= b
    };
    if f3 == FUNCT3_010 || f3 == FUNCT3_011 {
        Err(Fault::UnknownInstruction)
    } else if taken {
        Ok(with_pc(s, s.pc.wrapping_add(b_dec_spec(bits))))
    } else {
        Ok(with_pc(s, s.pc.wrapping_add(4)))
    }
}

/// One load: add the sign-extended I-format immediate to rs1, read 1, 2 or
/// 4 bytes little-endian, and sign- or zero-extend into rd.
pub open spec fn step_load(s: CpuView, bits: u32) -> Result<CpuView, Fault>
    recommends
        cpu_wf(s),
{
    let f3 = funct3_of(bits);
    let rd = rd_of(bits);
    let addr = s.regs[rs1_of(bits) as int].wrapping_add(i_dec_spec(bits)) as int;
    if f3 == FUNCT3_000 {
        if addr + 1 <= s.mem.len() {
            Ok(step4(with_reg(s, rd, sext(s.mem[addr] as u32, 8))))
        } else {
            Err(Fault::MemoryOutOfBounds)
        }
    } else if f3 == FUNCT3_001 {
        if addr + 2 <= s.mem.len() {
            Ok(step4(with_reg(s, rd, sext(half_at(s.mem, addr) as u32, 16))))
        } else {
            Err(Fault::MemoryOutOfBounds)
        }
    } else if f3 == FUNCT3_010 {
        if addr + 4 <= s.mem.len() {
            Ok(step4(with_reg(s, rd, word_at(s.mem, addr))))
        } else {
            Err(Fault::MemoryOutOfBounds)
        }
    } else if f3 == FUNCT3_100 {
        if addr + 1 <= s.mem.len() {
            Ok(step4(with_reg(s, rd, s.mem[addr] as u32)))
        } else {
            Err(Fault::MemoryOutOfBounds)
        }
    } else if f3 == FUNCT3_101 {
        if addr + 2 <= s.mem.len() {
            Ok(step4(with_reg(s, rd, half_at(s.mem, addr) as u32)))
        } else {
            Err(Fault::MemoryOutOfBounds)
        }
    } else {
        Err(Fault::UnknownInstruction)
    }
}

/// One store: add the sign-extended S-format immediate to rs1 and write
/// the low 1, 2 or 4 bytes of rs2 little-endian.
pub open spec fn step_store(s: CpuView, bits: u32) -> Result<CpuView, Fault>
    recommends
        cpu_wf(s),
{
    let f3 = funct3_of(bits);
    let v = s.regs[rs2_of(bits) as int];
    let addr = s.regs[rs1_of(bits) as int].wrapping_add(s_dec_spec(bits)) as int;
    if f3 == FUNCT3_000 {
        if addr + 1 <= s.mem.len() {
            Ok(step4(with_mem(s, s.mem.update(addr, v as u8))))
        } else {
            Err(Fault::MemoryOutOfBounds)
        }
    } else if f3 == FUNCT3_001 {
        if addr + 2 <= s.mem.len() {
            Ok(step4(with_mem(s, put_half(s.mem, addr, v as u16))))
        } else {
            Err(Fault::MemoryOutOfBounds)
        }
    } else if f3 == FUNCT3_010 {
        if addr + 4 <= s.mem.len() {
            Ok(step4(with_mem(s, put_word(s.mem, addr, v))))
        } else {
            Err(Fault::MemoryOutOfBounds)
        }
    } else {
        Err(Fault::UnknownInstruction)
    }
}

/// One register/immediate ALU or shift-immediate instruction.
pub open spec fn step_alu_imm(s: CpuView, bits: u32) -> Result<CpuView, Fault>
    recommends
        cpu_wf(s),
{
    let f3 = funct3_of(bits);
    let rd = rd_of(bits);
    let a = s.regs[rs1_of(bits) as int];
    let imm = i_dec_spec(bits);
    if f3 == FUNCT3_000 {
        Ok(step4(with_reg(s, rd, a.wrapping_add(imm))))
    } else if f3 == FUNCT3_001 {
        Ok(step4(with_reg(s, rd, a.wrapping_shl(shift_dec_spec(bits)))))
    } else if f3 == FUNCT3_010 {
        Ok(
            step4(
                with_reg(
                    s,
                    rd,
                    if (a as i32) < (imm as i32) {
                        1u32
                    } else {
                        0u32
                    },
                ),
            ),
        )
    } else if f3 == FUNCT3_011 {
        Ok(
            step4(
                with_reg(
                    s,
                    rd,
                    if a < imm {
                        1u32
                    } else {
                        0u32
                    },
                ),
            ),
        )
    } else if f3 == FUNCT3_100 {
        Ok(step4(with_reg(s, rd, a ^ imm)))
    } else if f3 == FUNCT3_101 {
        let f7 = funct7_of(bits);
        let sh = shift_dec_spec(bits);
        if f7 == FUNCT7_0000000 {
            Ok(step4(with_reg(s, rd, a.wrapping_shr(sh))))
        } else if f7 == FUNCT7_0100000 {
            Ok(step4(with_reg(s, rd, ((a as i32).wrapping_shr(sh)) as u32)))
        } else {
            Err(Fault::UnknownInstruction)
        }
    } else if f3 == FUNCT3_110 {
        Ok(step4(with_reg(s, rd, a | imm)))
    } else {
        Ok(step4(with_reg(s, rd, a & imm)))
    }
}

/// One register/register ALU instruction.
pub open spec fn step_alu_reg(s: CpuView, bits: u32) -> Result<CpuView, Fault>
    recommends
        cpu_wf(s),
{
    let f3 = funct3_of(bits);
    let f7 = funct7_of(bits);
    let rd = rd_of(bits);
    let a = s.regs[rs1_of(bits) as int];
    let b = s.regs[rs2_of(bits) as int];
    if f3 == FUNCT3_000 {
        if f7 == FUNCT7_0000000 {
            Ok(step4(with_reg(s, rd, a.wrapping_add(b))))
        } else if f7 == FUNCT7_0100000 {
            Ok(step4(with_reg(s, rd, a.wrapping_sub(b))))
        } else {
            Err(Fault::UnknownInstruction)
        }
    } else if f3 == FUNCT3_001 {
        Ok(step4(with_reg(s, rd, a.wrapping_shl(b))))
    } else if f3 == FUNCT3_010 {
        Ok(
            step4(
                with_reg(
                    s,
                    rd,
                    if (a as i32) < (b as i32) {
                        1u32
                    } else {
                        0u32
                    },
                ),
            ),
        )
    } else if f3 == FUNCT3_011 {
        Ok(
            step4(
                with_reg(
                    s,
                    rd,
                    if a < b {
                        1u32
                    } else {
                        0u32
                    },
                ),
            ),
        )
    } else if f3 == FUNCT3_100 {
        Ok(step4(with_reg(s, rd, a ^ b)))
    } else if f3 == FUNCT3_101 {
        if f7 == FUNCT7_0000000 {
            Ok(step4(with_reg(s, rd, a.wrapping_shr(b))))
        } else if f7 == FUNCT7_0100000 {
            Ok(step4(with_reg(s, rd, ((a as i32).wrapping_shr(b)) as u32)))
        } else {
            Err(Fault::UnknownInstruction)
        }
    } else if f3 == FUNCT3_110 {
        Ok(step4(with_reg(s, rd, a | b)))
    } else {
        Ok(step4(with_reg(s, rd, a & b)))
    }
}

/// One system instruction: ecall and ebreak advance the program counter
/// and nothing more; the csr group exchanges values with the
/// control/status register addressed by the I-format immediate field.
pub open spec fn step_system(s: CpuView, bits: u32) -> Result<CpuView, Fault>
    recommends
        cpu_wf(s),
{
    let f3 = funct3_of(bits);
    let idx = imm11_0_of(bits);
    let rd = rd_of(bits);
    let zimm = rs1_of(bits);
    let oldcsr = s.csrs[idx as int];
    if f3 == FUNCT3_000 {
        if idx == IMM11_0_000000000000 {
            Ok(step4(s))
        } else if idx == IMM11_0_000000000001 {
            Ok(step4(s))
        } else {
            Err(Fault::UnknownInstruction)
        }
    } else if f3 == FUNCT3_001 {
        Ok(step4(with_reg(with_csr(s, idx, s.regs[zimm as int] as u64), rd, oldcsr as u32)))
    } else if f3 == FUNCT3_010 {
        Ok(
            step4(
                with_reg(with_csr(s, idx, oldcsr | (s.regs[zimm as int] as u64)), rd, oldcsr as u32),
            ),
        )
    } else if f3 == FUNCT3_011 {
        Ok(
            step4(
                with_reg(
                    with_csr(s, idx, oldcsr & !(s.regs[zimm as int] as u64)),
                    rd,
                    oldcsr as u32,
                ),
            ),
        )
    } else if f3 == FUNCT3_101 {
        Ok(step4(with_reg(with_csr(s, idx, zimm as u64), rd, oldcsr as u32)))
    } else if f3 == FUNCT3_110 {
        Ok(step4(with_reg(with_csr(s, idx, oldcsr | (zimm as u64)), rd, oldcsr as u32)))
    } else if f3 == FUNCT3_111 {
        Ok(step4(with_reg(with_csr(s, idx, oldcsr & !(zimm as u64)), rd, oldcsr as u32)))
    } else {
        Err(Fault::UnknownInstruction)
    }
}

/// The whole transition function: what executing the instruction word
/// `bits` in state `s` does, or the fault it raises.
pub open spec fn step(s: CpuView, bits: u32) -> Result<CpuView, Fault>
    recommends
        cpu_wf(s),
{
    let op = opcode_of(bits);
    if op == OPCODE_LUI {
        Ok(step4(with_reg(s, rd_of(bits), u_dec_spec(bits))))
    } else if op == OPCODE_AUIPC {
        Ok(step4(with_reg(s, rd_of(bits), s.pc.wrapping_add(u_dec_spec(bits)))))
    } else if op == OPCODE_JAL {
        Ok(with_pc(with_reg(s, rd_of(bits), s.pc.wrapping_add(4)), s.pc.wrapping_add(j_dec_spec(bits))))
    } else if op == OPCODE_JALR {
        let t = s.regs[rs1_of(bits) as int].wrapping_add(i_dec_spec(bits));
        Ok(with_reg(with_pc(s, t & 0xFFFF_FFFE), rd_of(bits), s.pc.wrapping_add(4)))
    } else if op == OPCODE_BRANCH {
        step_branch(s, bits)
    } else if op == OPCODE_LOAD {
        step_load(s, bits)
    } else if op == OPCODE_STORE {
        step_store(s, bits)
    } else if op == OPCODE_ALU_AND_SHIFT_IMM {
        step_alu_imm(s, bits)
    } else if op == OPCODE_ALU_REGISTER {
        step_alu_reg(s, bits)
    } else if op == OPCODE_E_AND_SYSTEM {
        step_system(s, bits)
    } else {
        Err(Fault::UnknownInstruction)
    }
}

} // verus!

verus! {

impl RiscvCpu {
    /// Execute one conditional branch instruction word.
    pub fn execute_opcode_branch(&mut self, bits: u32) -> (r: Result<(), Fault>)
        requires
            old(self).wf(),
        ensures
            final(self).wf(),
            (match r {
                Ok(_) => step_branch(old(self)@, bits) == Ok::<CpuView, Fault>(final(self)@),
                Err(f) => step_branch(old(self)@, bits) == Err::<CpuView, Fault>(f) && final(self)@ == old(self)@,
            }),
    {
        let inst_b = _B(bits);
        let funct3 = inst_b.funct3();
        if funct3 == FUNCT3_010 || funct3 == FUNCT3_011 {
            return Err(Fault::UnknownInstruction);
        }
        let a = self.get_register(inst_b.rs1());
        let b = self.get_register(inst_b.rs2());
        let taken = if funct3 == FUNCT3_000 {
            a == b
        } else if funct3 == FUNCT3_001 {
            a != b
        } else if funct3 == FUNCT3_100 {
            (a as i32) < (b as i32)
        } else if funct3 == FUNCT3_101 {
            (a as i32) >= (b as i32)
        } else if funct3 == FUNCT3_110 {
            a < b
        } else {
            a >= b
        };
        if taken {
            self.program_counter = self.program_counter.wrapping_add(inst_b.imm_dec() as u32);
        } else {
            self.program_counter = self.program_counter.wrapping_add(4);
        }
        Ok(())
    }

    /// Execute one load instruction word.
    pub fn execute_opcode_load(&mut self, bits: u32) -> (r: Result<(), Fault>)
        requires
            old(self).wf(),
        ensures
            final(self).wf(),
            (match r {
                Ok(_) => step_load(old(self)@, bits) == Ok::<CpuView, Fault>(final(self)@),
                Err(f) => step_load(old(self)@, bits) == Err::<CpuView, Fault>(f) && final(self)@
                    == old(self)@,
            }),
    {
        let inst_i = _I(bits);
        let funct3 = inst_i.funct3();
        let address = self.get_register(inst_i.rs1()).wrapping_add(inst_i.imm_dec() as u32);
        if funct3 == FUNCT3_000 {
            // lb
            if (address as u64) + 1 > MEMORY_SIZE as u64 {
                return Err(Fault::MemoryOutOfBounds);
            }
            let value = self.memory[address as usize];
            self.set_register(inst_i.rd(), sign_extend(value as u32, 8) as u32);
            self.program_counter = self.program_counter.wrapping_add(4);
            Ok(())
        } else if funct3 == FUNCT3_001 {
            // lh
            if (address as u64) + 2 > MEMORY_SIZE as u64 {
                return Err(Fault::MemoryOutOfBounds);
            }
            let value = self.read_u16_memory(address as usize);
            self.set_register(inst_i.rd(), sign_extend(value as u32, 16) as u32);
            self.program_counter = self.program_counter.wrapping_add(4);
            Ok(())
        } else if funct3 == FUNCT3_010 {
            // lw
            if (address as u64) + 4 > MEMORY_SIZE as u64 {
                return Err(Fault::MemoryOutOfBounds);
            }
            let value = self.read_u32_memory(address as usize);
            self.set_register(inst_i.rd(), value);
            self.program_counter = self.program_counter.wrapping_add(4);
            Ok(())
        } else if funct3 == FUNCT3_100 {
            // lbu
            if (address as u64) + 1 > MEMORY_SIZE as u64 {
                return Err(Fault::MemoryOutOfBounds);
            }
            let value = self.memory[address as usize];
            self.set_register(inst_i.rd(), value as u32);
            self.program_counter = self.program_counter.wrapping_add(4);
            Ok(())
        } else if funct3 == FUNCT3_101 {
            // lhu
            if (address as u64) + 2 > MEMORY_SIZE as u64 {
                return Err(Fault::MemoryOutOfBounds);
            }
            let value = self.read_u16_memory(address as usize);
            self.set_register(inst_i.rd(), value as u32);
            self.program_counter = self.program_counter.wrapping_add(4);
            Ok(())
        } else {
            Err(Fault::UnknownInstruction)
        }
    }

    /// Execute one store instruction word.
    pub fn execute_opcode_store(&mut self, bits: u32) -> (r: Result<(), Fault>)
        requires
            old(self).wf(),
        ensures
            final(self).wf(),
            (match r {
                Ok(_) => step_store(old(self)@, bits) == Ok::<CpuView, Fault>(final(self)@),
                Err(f) => step_store(old(self)@, bits) == Err::<CpuView, Fault>(f) && final(self)@
                    == old(self)@,
            }),
    {
        let inst_s = _S(bits);
        let funct3 = inst_s.funct3();
        let address = self.get_register(inst_s.rs1()).wrapping_add(inst_s.imm_dec() as u32);
        let value = self.get_register(inst_s.rs2());
        if funct3 == FUNCT3_000 {
            // sb
            if (address as u64) + 1 > MEMORY_SIZE as u64 {
                return Err(Fault::MemoryOutOfBounds);
            }
            self.memory[address as usize] = value as u8;
            self.program_counter = self.program_counter.wrapping_add(4);
            Ok(())
        } else if funct3 == FUNCT3_001 {
            // sh
            if (address as u64) + 2 > MEMORY_SIZE as u64 {
                return Err(Fault::MemoryOutOfBounds);
            }
            self.write_u16_memory(address as usize, value as u16);
            self.program_counter = self.program_counter.wrapping_add(4);
            Ok(())
        } else if funct3 == FUNCT3_010 {
            // sw
            if (address as u64) + 4 > MEMORY_SIZE as u64 {
                return Err(Fault::MemoryOutOfBounds);
            }
            self.write_u32_memory(address as usize, value);
            self.program_counter = self.program_counter.wrapping_add(4);
            Ok(())
        } else {
            Err(Fault::UnknownInstruction)
        }
    }

    /// Execute one register/immediate ALU or shift-immediate instruction
    /// word.
    pub fn execute_opcode_alu_and_shift_imm(&mut self, bits: u32) -> (r: Result<(), Fault>)
        requires
            old(self).wf(),
        ensures
            final(self).wf(),
            (match r {
                Ok(_) => step_alu_imm(old(self)@, bits) == Ok::<CpuView, Fault>(final(self)@),
                Err(f) => step_alu_imm(old(self)@, bits) == Err::<CpuView, Fault>(f) && final(self)@ == old(self)@,
            }),
    {
        let inst_i = _I(bits);
        let funct3 = inst_i.funct3();
        let a = self.get_register(inst_i.rs1());
        let rd = inst_i.rd();
        if funct3 == FUNCT3_000 {
            // addi
            self.set_register(rd, a.wrapping_add(inst_i.imm_dec() as u32));
        } else if funct3 == FUNCT3_001 {
            // slli
            let inst_shift = _Shift(bits);
            self.set_register(rd, a.wrapping_shl(inst_shift.imm_dec()));
        } else if funct3 == FUNCT3_010 {
            // slti
            if (a as i32) < inst_i.imm_dec() {
                self.set_register(rd, 1);
            } else {
                self.set_register(rd, 0);
            }
        } else if funct3 == FUNCT3_011 {
            // sltiu: the immediate is sign-extended, then compared unsigned
            if a < (inst_i.imm_dec() as u32) {
                self.set_register(rd, 1);
            } else {
                self.set_register(rd, 0);
            }
        } else if funct3 == FUNCT3_100 {
            // xori
            self.set_register(rd, a ^ (inst_i.imm_dec() as u32));
        } else if funct3 == FUNCT3_101 {
            // srli srai
            let inst_shift = _Shift(bits);
            let funct7 = inst_shift.funct7();
            if funct7 == FUNCT7_0000000 {
                self.set_register(rd, a.wrapping_shr(inst_shift.imm_dec()));
            } else if funct7 == FUNCT7_0100000 {
                self.set_register(rd, (a as i32).wrapping_shr(inst_shift.imm_dec()) as u32);
            } else {
                return Err(Fault::UnknownInstruction);
            }
        } else if funct3 == FUNCT3_110 {
            // ori
            self.set_register(rd, a | (inst_i.imm_dec() as u32));
        } else {
            // andi
            self.set_register(rd, a & (inst_i.imm_dec() as u32));
        }
        self.program_counter = self.program_counter.wrapping_add(4);
        Ok(())
    }

    /// Execute one register/register ALU instruction word.
    pub fn execute_opcode_alu_register(&mut self, bits: u32) -> (r: Result<(), Fault>)
        requires
            old(self).wf(),
        ensures
            final(self).wf(),
            (match r {
                Ok(_) => step_alu_reg(old(self)@, bits) == Ok::<CpuView, Fault>(final(self)@),
                Err(f) => step_alu_reg(old(self)@, bits) == Err::<CpuView, Fault>(f) && final(self)@ == old(self)@,
            }),
    {
        let inst_r = _R(bits);
        let funct3 = inst_r.funct3();
        let a = self.get_register(inst_r.rs1());
        let b = self.get_register(inst_r.rs2());
        let rd = inst_r.rd();
        if funct3 == FUNCT3_000 {
            // add sub
            let funct7 = inst_r.funct7();
            if funct7 == FUNCT7_0000000 {
                self.set_register(rd, a.wrapping_add(b));
            } else if funct7 == FUNCT7_0100000 {
                self.set_register(rd, a.wrapping_sub(b));
            } else {
                return Err(Fault::UnknownInstruction);
            }
        } else if funct3 == FUNCT3_001 {
            // sll
            self.set_register(rd, a.wrapping_shl(b));
        } else if funct3 == FUNCT3_010 {
            // slt
            if (a as i32) < (b as i32) {
                self.set_register(rd, 1);
            } else {
                self.set_register(rd, 0);
            }
        } else if funct3 == FUNCT3_011 {
            // sltu
            if a < b {
                self.set_register(rd, 1);
            } else {
                self.set_register(rd, 0);
            }
        } else if funct3 == FUNCT3_100 {
            // xor
            self.set_register(rd, a ^ b);
        } else if funct3 == FUNCT3_101 {
            // srl sra
            let funct7 = inst_r.funct7();
            if funct7 == FUNCT7_0000000 {
                self.set_register(rd, a.wrapping_shr(b));
            } else if funct7 == FUNCT7_0100000 {
                self.set_register(rd, (a as i32).wrapping_shr(b) as u32);
            } else {
                return Err(Fault::UnknownInstruction);
            }
        } else if funct3 == FUNCT3_110 {
            // or
            self.set_register(rd, a | b);
        } else {
            // and
            self.set_register(rd, a & b);
        }
        self.program_counter = self.program_counter.wrapping_add(4);
        Ok(())
    }

    /// Execute one system instruction word. Printing a register dump on
    /// ebreak is presentation, not architecture, and is left to the
    /// caller.
    pub fn execute_opcode_e_and_system(&mut self, bits: u32) -> (r: Result<(), Fault>)
        requires
            old(self).wf(),
        ensures
            final(self).wf(),
            (match r {
                Ok(_) => step_system(old(self)@, bits) == Ok::<CpuView, Fault>(final(self)@),
                Err(f) => step_system(old(self)@, bits) == Err::<CpuView, Fault>(f) && final(self)@ == old(self)@,
            }),
    {
        let inst_i = _I(bits);
        let funct3 = inst_i.funct3();
        let idx = inst_i.imm11_0();
        let rd = inst_i.rd();
        if funct3 == FUNCT3_000 {
            // ecall ebreak
            if idx == IMM11_0_000000000000 || idx == IMM11_0_000000000001 {
                self.program_counter = self.program_counter.wrapping_add(4);
                Ok(())
            } else {
                Err(Fault::UnknownInstruction)
            }
        } else if funct3 == FUNCT3_001 {
            // csrrw
            let oldcsr = self.csrs[idx as usize];
            let mask = self.get_register(inst_i.rs1());
            self.csrs[idx as usize] = mask as u64;
            self.set_register(rd, oldcsr as u32);
            self.program_counter = self.program_counter.wrapping_add(4);
            Ok(())
        } else if funct3 == FUNCT3_010 {
            // csrrs
            let oldcsr = self.csrs[idx as usize];
            let mask = self.get_register(inst_i.rs1());
            self.csrs[idx as usize] = oldcsr | (mask as u64);
            self.set_register(rd, oldcsr as u32);
            self.program_counter = self.program_counter.wrapping_add(4);
            Ok(())
        } else if funct3 == FUNCT3_011 {
            // csrrc
            let oldcsr = self.csrs[idx as usize];
            let mask = self.get_register(inst_i.rs1());
            self.csrs[idx as usize] = oldcsr & !(mask as u64);
            self.set_register(rd, oldcsr as u32);
            self.program_counter = self.program_counter.wrapping_add(4);
            Ok(())
        } else if funct3 == FUNCT3_101 {
            // csrrwi
            let oldcsr = self.csrs[idx as usize];
            let zimm = inst_i.rs1();
            self.csrs[idx as usize] = zimm as u64;
            self.set_register(rd, oldcsr as u32);
            self.program_counter = self.program_counter.wrapping_add(4);
            Ok(())
        } else if funct3 == FUNCT3_110 {
            // csrrsi
            let oldcsr = self.csrs[idx as usize];
            let zimm = inst_i.rs1();
            self.csrs[idx as usize] = oldcsr | (zimm as u64);
            self.set_register(rd, oldcsr as u32);
            self.program_counter = self.program_counter.wrapping_add(4);
            Ok(())
        } else if funct3 == FUNCT3_111 {
            // csrrci
            let oldcsr = self.csrs[idx as usize];
            let zimm = inst_i.rs1();
            self.csrs[idx as usize] = oldcsr & !(zimm as u64);
            self.set_register(rd, oldcsr as u32);
            self.program_counter = self.program_counter.wrapping_add(4);
            Ok(())
        } else {
            Err(Fault::UnknownInstruction)
        }
    }

    /// Decode the opcode of `bits` and execute the instruction: the
    /// executable form of the transition function [`step`].
    pub fn execute_inst(&mut self, bits: u32) -> (r: Result<(), Fault>)
        requires
            old(self).wf(),
        ensures
            final(self).wf(),
            (match r {
                Ok(_) => step(old(self)@, bits) == Ok::<CpuView, Fault>(final(self)@),
                Err(f) => step(old(self)@, bits) == Err::<CpuView, Fault>(f) && final(self)@ == old(self)@,
            }),
    {
        let opcode = _Op(bits).opcode();
        if opcode == OPCODE_LUI {
            let inst_u = _U(bits);
            self.set_register(inst_u.rd(), inst_u.imm_dec());
            self.program_counter = self.program_counter.wrapping_add(4);
            Ok(())
        } else if opcode == OPCODE_AUIPC {
            let inst_u = _U(bits);
            let v = self.program_counter.wrapping_add(inst_u.imm_dec());
            self.set_register(inst_u.rd(), v);
            self.program_counter = self.program_counter.wrapping_add(4);
            Ok(())
        } else if opcode == OPCODE_JAL {
            let inst_j = _J(bits);
            let link = self.program_counter.wrapping_add(4);
            let offset = inst_j.imm_dec();
            self.set_register(inst_j.rd(), link);
            self.program_counter = self.program_counter.wrapping_add(offset as u32);
            Ok(())
        } else if opcode == OPCODE_JALR {
            let inst_i = _I(bits);
            let oldpc = self.program_counter.wrapping_add(4);
            let target = self.get_register(inst_i.rs1()).wrapping_add(inst_i.imm_dec() as u32);
            self.program_counter = target & 0xFFFF_FFFE;
            self.set_register(inst_i.rd(), oldpc);
            Ok(())
        } else if opcode == OPCODE_BRANCH {
            self.execute_opcode_branch(bits)
        } else if opcode == OPCODE_LOAD {
            self.execute_opcode_load(bits)
        } else if opcode == OPCODE_STORE {
            self.execute_opcode_store(bits)
        } else if opcode == OPCODE_ALU_AND_SHIFT_IMM {
            self.execute_opcode_alu_and_shift_imm(bits)
        } else if opcode == OPCODE_ALU_REGISTER {
            self.execute_opcode_alu_register(bits)
        } else if opcode == OPCODE_E_AND_SYSTEM {
            self.execute_opcode_e_and_system(bits)
        } else {
            Err(Fault::UnknownInstruction)
        }
    }
}

} // verus!

verus! {

/// `s` with register 0 forced back to zero, as the fetch loop does at the
/// top of every cycle.
pub open spec fn zero_reg0(s: CpuView) -> CpuView {
    with_reg(s, 0, 0)
}

/// The fetch loop as a function: from state `s`, zero register 0, fetch
/// the word at the program counter, stop on the halt sentinel or a fault,
/// and otherwise execute and recurse, for at most `fuel` instructions.
pub open spec fn run_spec(s: CpuView, fuel: nat) -> (CpuView, RunStatus)
    recommends
        cpu_wf(s),
    decreases fuel,
{
    let s1 = zero_reg0(s);
    if s1.pc as int + 4 > s1.mem.len() {
        (s1, RunStatus::Faulted(Fault::MemoryOutOfBounds))
    } else {
        let bits = word_at(s1.mem, s1.pc as int);
        if bits == HALT_SENTINEL {
            (s1, RunStatus::Halted)
        } else if fuel == 0 {
            (s1, RunStatus::OutOfSteps)
        } else {
            match step(s1, bits) {
                Ok(s2) => run_spec(s2, (fuel - 1) as nat),
                Err(f) => (s1, RunStatus::Faulted(f)),
            }
        }
    }
}

impl RiscvCpu {
    /// Drive the fetch/execute loop until the halt sentinel is fetched, a
    /// fatal condition is raised, or `max_steps` instructions have been
    /// executed; the step budget is what lets the loop provably terminate.
    #[verifier::loop_isolation(false)]
    pub fn run(&mut self, max_steps: u64) -> (r: RunStatus)
        requires
            old(self).wf(),
        ensures
            final(self).wf(),
            run_spec(old(self)@, max_steps as nat) == (final(self)@, r),
    {
        let ghost s0 = self@;
        let mut steps_left: u64 = max_steps;
        loop
            invariant
                self.wf(),
                steps_left <= max_steps,
                run_spec(s0, max_steps as nat) == run_spec(self@, steps_left as nat),
            decreases steps_left,
        {
            self.set_register(0, 0);
            let pc = self.program_counter;
            if (pc as u64) + 4 > MEMORY_SIZE as u64 {
                return RunStatus::Faulted(Fault::MemoryOutOfBounds);
            }
            let bits = self.read_u32_memory(pc as usize);
            if bits == HALT_SENTINEL {
                return RunStatus::Halted;
            }
            if steps_left == 0 {
                return RunStatus::OutOfSteps;
            }
            steps_left = steps_left - 1;
            match self.execute_inst(bits) {
                Ok(_) => {},
                Err(f) => {
                    return RunStatus::Faulted(f);
                },
            }
        }
    }
}

/// Executing one instruction cannot change the shape of the machine: the
/// register file, control/status file and memory keep their sizes.
pub proof fn lemma_step_preserves_wf(s: CpuView, bits: u32)
    requires
        cpu_wf(s),
    ensures
        step(s, bits) matches Ok(s2) ==> cpu_wf(s2),
{
    crate::instructions::lemma_field_bounds(bits);
}

/// Register 0 reads as zero at every instruction boundary: whatever state
/// a run starts from and however long it runs, the state it stops in has
/// register 0 equal to zero.
pub proof fn lemma_reg0_after_run(s: CpuView, fuel: nat)
    requires
        cpu_wf(s),
    ensures
        cpu_wf(run_spec(s, fuel).0),
        run_spec(s, fuel).0.regs[0] == 0,
    decreases fuel,
{
    let s1 = zero_reg0(s);
    if s1.pc as int + 4 <= s1.mem.len() {
        let bits = word_at(s1.mem, s1.pc as int);
        if bits != HALT_SENTINEL && fuel > 0 {
            match step(s1, bits) {
                Ok(s2) => {
                    lemma_step_preserves_wf(s1, bits);
                    lemma_reg0_after_run(s2, (fuel - 1) as nat);
                },
                Err(_) => {},
            }
        }
    }
}

/// After every instruction that is not a jump or a taken branch decision
/// point (jal, jalr, the branch group), the program counter has advanced
/// by exactly four.
pub proof fn lemma_pc_advances_by_four(s: CpuView, bits: u32)
    requires
        cpu_wf(s),
        opcode_of(bits) != OPCODE_JAL,
        opcode_of(bits) != OPCODE_JALR,
        opcode_of(bits) != OPCODE_BRANCH,
    ensures
        step(s, bits) matches Ok(s2) ==> s2.pc == s.pc.wrapping_add(4),
{
}

/// A jalr always lands on an address with bit 0 clear.
pub proof fn lemma_jalr_clears_low_bit(s: CpuView, bits: u32)
    requires
        cpu_wf(s),
        opcode_of(bits) == OPCODE_JALR,
    ensures
        step(s, bits) matches Ok(s2) ==> s2.pc & 1 == 0,
{
    let t = s.regs[rs1_of(bits) as int].wrapping_add(i_dec_spec(bits));
    assert((t & 0xFFFF_FFFE) & 1 == 0) by (bit_vector);
}

} // verus!

verus! {

/// Byte `k` (0 = least significant) of the word `w`.
pub open spec fn byte_of_word(w: u32, k: int) -> u8
    recommends
        0 <= k < 4,
{
    if k == 0 {
        (w & 0xFF) as u8
    } else if k == 1 {
        ((w >> 8) & 0xFF) as u8
    } else if k == 2 {
        ((w >> 16) & 0xFF) as u8
    } else {
        ((w >> 24) & 0xFF) as u8
    }
}

/// The memory holding the instruction words little-endian from address 0,
/// the halt sentinel just past them, and zeros above.
pub open spec fn program_mem(words: Seq<u32>) -> Seq<u8> {
    Seq::new(
        MEMORY_SIZE as nat,
        |j: int|
            if j < 4 * words.len() {
                byte_of_word(words[j / 4], j % 4)
            } else if j < 4 * words.len() + 4 {
                byte_of_word(HALT_SENTINEL, j - 4 * words.len())
            } else {
                0u8
            },
    )
}

impl RiscvCpu {
    /// Reset, then place the given instructions at address 0 followed by
    /// the halt sentinel.
    pub fn load_from_instructions(&mut self, inst_list: &[Instruction])
        requires
            old(self).wf(),
            inst_list@.len() * 4 + 4 <= MEMORY_SIZE,
        ensures
            final(self).wf(),
            final(self)@ == with_mem(
                reset_state(),
                program_mem(inst_list@.map_values(|inst: Instruction| bits_of(inst))),
            ),
    {
        self.reset();
        let ghost words = inst_list@.map_values(|inst: Instruction| bits_of(inst));
        let mut i: usize = 0;
        while i < inst_list.len()
            invariant
                old(self).wf(),
                inst_list@.len() * 4 + 4 <= MEMORY_SIZE,
                words == inst_list@.map_values(|inst: Instruction| bits_of(inst)),
                i <= inst_list@.len(),
                self.wf(),
                self@.pc == reset_state().pc,
                self@.csrs == reset_state().csrs,
                self@.regs == reset_state().regs,
                forall|j: int| 0 <= j < 4 * i ==> self@.mem[j] == byte_of_word(words[j / 4], j % 4),
                forall|j: int| 4 * i <= j < MEMORY_SIZE ==> self@.mem[j] == 0u8,
            decreases inst_list@.len() - i,
        {
            let w = inst_list[i].get_bits();
            self.write_u32_memory(i * 4, w);
            proof {
                assert forall|j: int| 0 <= j < 4 * (i + 1) implies self@.mem[j] == byte_of_word(
                    words[j / 4],
                    j % 4,
                ) by {
                    if 4 * i <= j {
                        assert(j / 4 == i as int && j % 4 == j - 4 * (i as int));
                    }
                }
            }
            i = i + 1;
        }
        let n = inst_list.len();
        self.write_u32_memory(n * 4, HALT_SENTINEL);
        proof {
            assert forall|j: int| 0 <= j < MEMORY_SIZE implies self@.mem[j] == program_mem(words)[j]
            by {
                if 4 * words.len() <= j < 4 * words.len() + 4 {
                    assert(self@.mem[j] == byte_of_word(HALT_SENTINEL, j - 4 * words.len()));
                }
            }
            assert(self@.mem =~= program_mem(words));
        }
    }

    /// Load the given instructions and run them, under a step budget.
    pub fn load_and_run(&mut self, inst_list: &[Instruction], max_steps: u64) -> (r: RunStatus)
        requires
            old(self).wf(),
            inst_list@.len() * 4 + 4 <= MEMORY_SIZE,
        ensures
            final(self).wf(),
            run_spec(
                with_mem(
                    reset_state(),
                    program_mem(inst_list@.map_values(|inst: Instruction| bits_of(inst))),
                ),
                max_steps as nat,
            ) == (final(self)@, r),
    {
        self.load_from_instructions(inst_list);
        self.run(max_steps)
    }
}

} // verus!

verus! {

/// Splitting a word into its four little-endian bytes and reassembling
/// them gives the word back.
proof fn lemma_word_bytes_reassemble(w: u32)
    ensures
        (((w & 0xFF) as u8) as u32) | (((((w >> 8) & 0xFF) as u8) as u32) << 8) | (((((w >> 16)
            & 0xFF) as u8) as u32) << 16) | (((((w >> 24) & 0xFF) as u8) as u32) << 24) == w,
{
    assert((((w & 0xFF) as u8) as u32) | (((((w >> 8) & 0xFF) as u8) as u32) << 8) | (((((w >> 16)
        & 0xFF) as u8) as u32) << 16) | (((((w >> 24) & 0xFF) as u8) as u32) << 24) == w)
        by (bit_vector);
}

/// A loaded program reads back word-exact: fetching at four times an
/// instruction's index gives that instruction's word, and fetching just
/// past the program gives the halt sentinel.
pub proof fn lemma_program_mem_fetch(words: Seq<u32>, k: int)
    requires
        0 <= k <= words.len(),
        4 * words.len() + 4 <= MEMORY_SIZE,
    ensures
        k < words.len() ==> word_at(program_mem(words), 4 * k) == words[k],
        k == words.len() ==> word_at(program_mem(words), 4 * k) == HALT_SENTINEL,
{
    let m = program_mem(words);
    let w = if k < words.len() {
        words[k]
    } else {
        HALT_SENTINEL
    };
    assert((4 * k) / 4 == k && (4 * k) % 4 == 0 && (4 * k + 1) / 4 == k && (4 * k + 1) % 4 == 1 && (
    4 * k + 2) / 4 == k && (4 * k + 2) % 4 == 2 && (4 * k + 3) / 4 == k && (4 * k + 3) % 4 == 3)
        by (nonlinear_arith)
        requires
            0 <= k,
    ;
    assert(m[4 * k] == byte_of_word(w, 0));
    assert(m[4 * k + 1] == byte_of_word(w, 1));
    assert(m[4 * k + 2] == byte_of_word(w, 2));
    assert(m[4 * k + 3] == byte_of_word(w, 3));
    lemma_word_bytes_reassemble(w);
}

} // verus!
