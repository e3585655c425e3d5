//! The CPU core: the register file, program counter, CSR file and privilege
//! mode, with fetch, decode and execute for RV64I + A + Zicsr, the
//! pre-fetch interrupt check, and the driver step.

use vstd::prelude::*;

use crate::bus::{Bus, BusState, MEMORY_BASE, bus_wf, spec_bus_init, spec_bus_load, spec_bus_store};
use crate::memory::MEMORY_SIZE;
use crate::plic::PLIC_SCLAIM;
use crate::trap::{
    Exception, Interrupt, Trap, lemma_exception_code_bounded, spec_exception_code, spec_take_trap,
};
use crate::uart::{UART_IRQ, UartState};

verus! {

/// Number of general-purpose registers.
pub const REGISTER_NUMBER: usize = 32;
/// Number of control and status registers: a 12-bit encoding space.
pub const CSRS_NUMBER: usize = 4096;

// Machine-level CSR indices.
/// Hardware thread ID.
pub const MHARTID: usize = 0xf14;
/// Machine status register.
pub const MSTATUS: usize = 0x300;
/// Machine exception delegation register.
pub const MEDELEG: usize = 0x302;
/// Machine interrupt-enable register.
pub const MIE: usize = 0x304;
/// Machine trap-handler base address.
pub const MTVEC: usize = 0x305;
/// Machine counter enable.
pub const MCOUNTEREN: usize = 0x306;
/// Scratch register for machine trap handlers.
pub const MSCRATCH: usize = 0x340;
/// Machine exception program counter.
pub const MEPC: usize = 0x341;
/// Machine trap cause.
pub const MCAUSE: usize = 0x342;
/// Machine bad address or instruction.
pub const MTVAL: usize = 0x343;
/// Machine interrupt pending.
pub const MIP: usize = 0x344;

// Interrupt-pending bits of `mip` and `mie`.
pub const MIP_SSIP: u64 = 1 << 1;
pub const MIP_MSIP: u64 = 1 << 3;
pub const MIP_STIP: u64 = 1 << 5;
pub const MIP_MTIP: u64 = 1 << 7;
pub const MIP_SEIP: u64 = 1 << 9;
pub const MIP_MEIP: u64 = 1 << 11;

// Supervisor-level CSR indices.
/// Supervisor status register.
pub const SSTATUS: usize = 0x100;
/// Supervisor interrupt-enable register.
pub const SIE: usize = 0x104;
/// Supervisor trap-handler base address.
pub const STVEC: usize = 0x105;
/// Scratch register for supervisor trap handlers.
pub const SSCRATCH: usize = 0x140;
/// Supervisor exception program counter.
pub const SEPC: usize = 0x141;
/// Supervisor trap cause.
pub const SCAUSE: usize = 0x142;
/// Supervisor bad address or instruction.
pub const STVAL: usize = 0x143;
/// Supervisor interrupt pending.
pub const SIP: usize = 0x144;
/// Supervisor address translation and protection.
pub const SATP: usize = 0x180;

/// The privilege mode of the hart, totally ordered
/// `User < Supervisor < Machine`.
#[derive(Clone, Copy, Debug, PartialEq, Eq, Structural)]
pub enum Mode {
    /// User mode (applications).
    User,
    /// Supervisor mode (kernel).
    Supervisor,
    /// Machine mode.
    Machine,
}

/// The encoding of a mode as it appears in the `MPP` field of `mstatus`.
pub open spec fn mode_code(m: Mode) -> u64 {
    match m {
        Mode::User => 0,
        Mode::Supervisor => 1,
        Mode::Machine => 3,
    }
}

/// The mode a two-bit `MPP` field decodes to.
pub open spec fn decode_mpp(bits: u64) -> Mode {
    if bits == 3 {
        Mode::Machine
    } else if bits == 1 {
        Mode::Supervisor
    } else {
        Mode::User
    }
}

/// The mathematical state of the whole machine: registers, program counter,
/// CSR file, privilege mode and bus contents.
pub ghost struct CpuState {
    pub regs: Seq<u64>,
    pub pc: u64,
    pub csrs: Seq<u64>,
    pub mode: Mode,
    pub bus: BusState,
}

/// The well-formedness of a machine state. It holds at construction and
/// after every retired instruction; in particular register 0 reads as zero.
pub open spec fn cpu_wf(s: CpuState) -> bool {
    &&& s.regs.len() == 32
    &&& s.regs[0] == 0
    &&& s.csrs.len() == 4096
    &&& bus_wf(s.bus)
}

/// The CPU: it owns the bus and through it every device.
pub struct Cpu {
    /// The 32 general-purpose 64-bit registers.
    pub regs: Vec<u64>,
    /// The program counter: at the top of the driver loop, the address of
    /// the next instruction to fetch.
    pub pc: u64,
    /// The system bus.
    pub bus: Bus,
    /// The flat 64-bit CSR file, indexed by 12-bit CSR number.
    pub csrs: Vec<u64>,
    /// The privilege mode.
    pub mode: Mode,
}

impl View for Cpu {
    type V = CpuState;

    open spec fn view(&self) -> CpuState {
        CpuState {
            regs: self.regs@,
            pc: self.pc,
            csrs: self.csrs@,
            mode: self.mode,
            bus: self.bus@,
        }
    }
}

/// A write to the register file: writes to register 0 are discarded, so it
/// always reads as zero.
pub open spec fn write_reg_s(regs: Seq<u64>, rd: int, v: u64) -> Seq<u64> {
    if rd == 0 {
        regs
    } else {
        regs.update(rd, v)
    }
}

/// The machine as constructed from a program image: registers clear but for
/// the stack pointer, `pc` at the start of memory, CSRs clear, Machine mode.
pub open spec fn spec_cpu_init(binary: Seq<u8>) -> CpuState {
    CpuState {
        regs: Seq::new(32, |i: int| if i == 2 { (MEMORY_BASE + MEMORY_SIZE) as u64 } else { 0u64 }),
        pc: MEMORY_BASE,
        csrs: Seq::new(4096, |i: int| 0u64),
        mode: Mode::Machine,
        bus: spec_bus_init(binary),
    }
}

/// What a fetch returns: the 32-bit word at `pc`, with any bus error mapped
/// to an instruction access fault.
pub open spec fn spec_fetch(s: CpuState) -> Result<u64, Exception> {
    match spec_bus_load(s.bus, s.pc, 32) {
        Ok(inst) => Ok(inst),
        Err(_) => Err(Exception::InstructionAccessFault),
    }
}

// Decoded instruction fields, by the fixed bit positions of the base
// encoding.
/// Bits 6:0.
pub open spec fn opcode_of(inst: u64) -> u64 {
    inst & 0x7f
}

/// Bits 11:7.
pub open spec fn rd_of(inst: u64) -> u64 {
    (inst >> 7) & 0x1f
}

/// Bits 19:15.
pub open spec fn rs1_of(inst: u64) -> u64 {
    (inst >> 15) & 0x1f
}

/// Bits 24:20.
pub open spec fn rs2_of(inst: u64) -> u64 {
    (inst >> 20) & 0x1f
}

/// Bits 14:12.
pub open spec fn funct3_of(inst: u64) -> u64 {
    (inst >> 12) & 0x7
}

/// Bits 31:25.
pub open spec fn funct7_of(inst: u64) -> u64 {
    (inst >> 25) & 0x7f
}

/// Bits 31:20: the CSR index of a system instruction.
pub open spec fn csr_of(inst: u64) -> u64 {
    (inst >> 20) & 0xfff
}

/// The I-type immediate: bits 31:20, sign-extended from bit 31.
pub open spec fn imm_i(inst: u64) -> u64 {
    if inst & 0x8000_0000 != 0 {
        ((inst >> 20) & 0xfff) | 0xffff_ffff_ffff_f000
    } else {
        (inst >> 20) & 0xfff
    }
}

/// The S-type immediate: bits 31:25 and 11:7, sign-extended from bit 31.
pub open spec fn imm_s(inst: u64) -> u64 {
    let lo = ((inst >> 20) & 0xfe0) | ((inst >> 7) & 0x1f);
    if inst & 0x8000_0000 != 0 {
        lo | 0xffff_ffff_ffff_f000
    } else {
        lo
    }
}

/// The B-type immediate: bits 31, 7, 30:25 and 11:8, scaled by two and
/// sign-extended from bit 31.
pub open spec fn imm_b(inst: u64) -> u64 {
    let lo = ((inst & 0x80) << 4) | ((inst >> 20) & 0x7e0) | ((inst >> 7) & 0x1e);
    if inst & 0x8000_0000 != 0 {
        lo | 0xffff_ffff_ffff_f000
    } else {
        lo
    }
}

/// The U-type immediate: bits 31:12 in place, sign-extended from bit 31.
pub open spec fn imm_u(inst: u64) -> u64 {
    if inst & 0x8000_0000 != 0 {
        (inst & 0xffff_f000) | 0xffff_ffff_0000_0000
    } else {
        inst & 0xffff_f000
    }
}

/// The J-type immediate: bits 31, 19:12, 20 and 30:21, scaled by two and
/// sign-extended from bit 31.
pub open spec fn imm_j(inst: u64) -> u64 {
    let lo = (inst & 0xff000) | ((inst >> 9) & 0x800) | ((inst >> 20) & 0x7fe);
    if inst & 0x8000_0000 != 0 {
        lo | 0xffff_ffff_fff0_0000
    } else {
        lo
    }
}

/// Sign extension of the low 8 bits of `x` to 64 bits.
pub open spec fn sext8(x: u64) -> u64 {
    let v = x % 0x100;
    if v >= 0x80 {
        (v + 0xffff_ffff_ffff_ff00) as u64
    } else {
        v
    }
}

/// Sign extension of the low 16 bits of `x` to 64 bits.
pub open spec fn sext16(x: u64) -> u64 {
    let v = x % 0x1_0000;
    if v >= 0x8000 {
        (v + 0xffff_ffff_ffff_0000) as u64
    } else {
        v
    }
}

/// Sign extension of the low 32 bits of `x` to 64 bits.
pub open spec fn sext32(x: u64) -> u64 {
    let v = x % 0x1_0000_0000;
    if v >= 0x8000_0000 {
        (v + 0xffff_ffff_0000_0000) as u64
    } else {
        v
    }
}

/// The value of `x` read as a two's-complement 64-bit integer.
pub open spec fn as_signed(x: u64) -> int {
    if x >= 0x8000_0000_0000_0000 {
        x - 0x1_0000_0000_0000_0000
    } else {
        x as int
    }
}

/// The signed comparison of two 64-bit register values.
pub open spec fn signed_lt(a: u64, b: u64) -> bool {
    as_signed(a) < as_signed(b)
}

/// A 64-bit arithmetic right shift: the sign bit fills the vacated bits.
pub open spec fn sra64(x: u64, s: u64) -> u64 {
    if s == 0 {
        x
    } else if x >= 0x8000_0000_0000_0000 {
        (x >> s) | (0xffff_ffff_ffff_ffffu64 << (64 - s))
    } else {
        x >> s
    }
}

/// A 32-bit arithmetic right shift of the low word of `x`, sign-extended to
/// 64 bits.
pub open spec fn sra32(x: u64, s: u64) -> u64 {
    let v = x % 0x1_0000_0000;
    if v >= 0x8000_0000 {
        if s == 0 {
            sext32(v)
        } else {
            sext32((v >> s) | ((0xffff_ffffu64 << (32 - s)) & 0xffff_ffff))
        }
    } else {
        v >> s
    }
}

/// The state after a register write: everything but the register file kept.
pub open spec fn wr(s: CpuState, rd: u64, v: u64) -> CpuState {
    CpuState { regs: write_reg_s(s.regs, rd as int, v), ..s }
}

/// The semantics of the load opcode: an I-type effective address, a bus
/// load of the named width, and a sign- or zero-extension of the value.
pub open spec fn spec_op_load(s: CpuState, inst: u64) -> (CpuState, Result<(), Exception>) {
    let addr = s.regs[rs1_of(inst) as int].wrapping_add(imm_i(inst));
    let rd = rd_of(inst);
    let f3 = funct3_of(inst);
    if f3 == 0 {
        // lb
        match spec_bus_load(s.bus, addr, 8) {
            Ok(v) => (wr(s, rd, sext8(v)), Ok(())),
            Err(e) => (s, Err(e)),
        }
    } else if f3 == 1 {
        // lh
        match spec_bus_load(s.bus, addr, 16) {
            Ok(v) => (wr(s, rd, sext16(v)), Ok(())),
            Err(e) => (s, Err(e)),
        }
    } else if f3 == 2 {
        // lw
        match spec_bus_load(s.bus, addr, 32) {
            Ok(v) => (wr(s, rd, sext32(v)), Ok(())),
            Err(e) => (s, Err(e)),
        }
    } else if f3 == 3 {
        // ld
        match spec_bus_load(s.bus, addr, 64) {
            Ok(v) => (wr(s, rd, v), Ok(())),
            Err(e) => (s, Err(e)),
        }
    } else if f3 == 4 {
        // lbu
        match spec_bus_load(s.bus, addr, 8) {
            Ok(v) => (wr(s, rd, v), Ok(())),
            Err(e) => (s, Err(e)),
        }
    } else if f3 == 5 {
        // lhu
        match spec_bus_load(s.bus, addr, 16) {
            Ok(v) => (wr(s, rd, v), Ok(())),
            Err(e) => (s, Err(e)),
        }
    } else if f3 == 6 {
        // lwu
        match spec_bus_load(s.bus, addr, 32) {
            Ok(v) => (wr(s, rd, v), Ok(())),
            Err(e) => (s, Err(e)),
        }
    } else {
        (s, Err(Exception::IllegalInstruction))
    }
}

/// The semantics of the fence opcode: a no-op on this single-threaded,
/// sequential model.
pub open spec fn spec_op_fence(s: CpuState, inst: u64) -> (CpuState, Result<(), Exception>) {
    if funct3_of(inst) == 0 {
        (s, Ok(()))
    } else {
        (s, Err(Exception::IllegalInstruction))
    }
}

/// The semantics of the I-type ALU opcode: addi, slli, slti, sltiu, xori,
/// srli, srai, ori and andi, with wrapping arithmetic and a six-bit shift
/// amount.
pub open spec fn spec_op_imm(s: CpuState, inst: u64) -> (CpuState, Result<(), Exception>) {
    let imm = imm_i(inst);
    let shamt = imm & 0x3f;
    let x = s.regs[rs1_of(inst) as int];
    let rd = rd_of(inst);
    let f3 = funct3_of(inst);
    if f3 == 0 {
        // addi
        (wr(s, rd, x.wrapping_add(imm)), Ok(()))
    } else if f3 == 1 {
        // slli
        (wr(s, rd, x << shamt), Ok(()))
    } else if f3 == 2 {
        // slti
        (wr(s, rd, if signed_lt(x, imm) { 1u64 } else { 0u64 }), Ok(()))
    } else if f3 == 3 {
        // sltiu
        (wr(s, rd, if x < imm { 1u64 } else { 0u64 }), Ok(()))
    } else if f3 == 4 {
        // xori
        (wr(s, rd, x ^ imm), Ok(()))
    } else if f3 == 5 {
        if funct7_of(inst) >> 1 == 0x00 {
            // srli
            (wr(s, rd, x >> shamt), Ok(()))
        } else if funct7_of(inst) >> 1 == 0x10 {
            // srai
            (wr(s, rd, sra64(x, shamt)), Ok(()))
        } else {
            (s, Err(Exception::IllegalInstruction))
        }
    } else if f3 == 6 {
        // ori
        (wr(s, rd, x | imm), Ok(()))
    } else {
        // andi
        (wr(s, rd, x & imm), Ok(()))
    }
}

/// The semantics of auipc: the U-type immediate added to the address of the
/// instruction itself, which is the pre-advanced `pc` less four.
pub open spec fn spec_op_auipc(s: CpuState, inst: u64) -> (CpuState, Result<(), Exception>) {
    (wr(s, rd_of(inst), s.pc.wrapping_add(imm_u(inst)).wrapping_sub(4)), Ok(()))
}

/// The semantics of the 32-bit I-type ALU opcode: addiw, slliw, srliw and
/// sraiw, each a 32-bit result sign-extended to 64 bits, with a five-bit
/// shift amount.
pub open spec fn spec_op_imm32(s: CpuState, inst: u64) -> (CpuState, Result<(), Exception>) {
    let imm = imm_i(inst);
    let shamt = imm & 0x1f;
    let x = s.regs[rs1_of(inst) as int];
    let rd = rd_of(inst);
    let f3 = funct3_of(inst);
    if f3 == 0 {
        // addiw
        (wr(s, rd, sext32(x.wrapping_add(imm))), Ok(()))
    } else if f3 == 1 {
        // slliw
        (wr(s, rd, sext32(x << shamt)), Ok(()))
    } else if f3 == 5 {
        if funct7_of(inst) == 0x00 {
            // srliw
            (wr(s, rd, sext32(x >> shamt)), Ok(()))
        } else if funct7_of(inst) == 0x20 {
            // sraiw
            (wr(s, rd, sra32(x, shamt)), Ok(()))
        } else {
            (s, Err(Exception::IllegalInstruction))
        }
    } else {
        (s, Err(Exception::IllegalInstruction))
    }
}

/// The semantics of the store opcode: an S-type effective address and a bus
/// store of the named width from the low bits of `rs2`.
pub open spec fn spec_op_store(s: CpuState, inst: u64) -> (CpuState, Result<(), Exception>) {
    let addr = s.regs[rs1_of(inst) as int].wrapping_add(imm_s(inst));
    let v = s.regs[rs2_of(inst) as int];
    let f3 = funct3_of(inst);
    if f3 == 0 || f3 == 1 || f3 == 2 || f3 == 3 {
        let size: u64 = if f3 == 0 {
            8
        } else if f3 == 1 {
            16
        } else if f3 == 2 {
            32
        } else {
            64
        };
        match spec_bus_store(s.bus, addr, size, v) {
            Ok(b2) => (CpuState { bus: b2, ..s }, Ok(())),
            Err(e) => (s, Err(e)),
        }
    } else {
        (s, Err(Exception::IllegalInstruction))
    }
}

/// The semantics of one atomic read-modify-write: a load at the address in
/// `rs1`, a store of the combined value, and the old value written to `rd`.
/// On this single-hart model atomicity reduces to this ordering.
pub open spec fn spec_amo_rmw(s: CpuState, inst: u64, size: u64, stored: u64, t: u64) -> (
    CpuState,
    Result<(), Exception>,
) {
    let a = s.regs[rs1_of(inst) as int];
    match spec_bus_store(s.bus, a, size, stored) {
        Ok(b2) => (wr(CpuState { bus: b2, ..s }, rd_of(inst), t), Ok(())),
        Err(e) => (s, Err(e)),
    }
}

/// The semantics of the A-extension opcode: amoadd and amoswap on words and
/// doublewords; the acquire and release flags are ignored.
pub open spec fn spec_op_amo(s: CpuState, inst: u64) -> (CpuState, Result<(), Exception>) {
    let f3 = funct3_of(inst);
    let f5 = funct7_of(inst) >> 2;
    let a = s.regs[rs1_of(inst) as int];
    let y = s.regs[rs2_of(inst) as int];
    if f3 == 2 && f5 == 0x00 {
        // amoadd.w
        match spec_bus_load(s.bus, a, 32) {
            Ok(t) => spec_amo_rmw(s, inst, 32, t.wrapping_add(y), t),
            Err(e) => (s, Err(e)),
        }
    } else if f3 == 3 && f5 == 0x00 {
        // amoadd.d
        match spec_bus_load(s.bus, a, 64) {
            Ok(t) => spec_amo_rmw(s, inst, 64, t.wrapping_add(y), t),
            Err(e) => (s, Err(e)),
        }
    } else if f3 == 2 && f5 == 0x01 {
        // amoswap.w
        match spec_bus_load(s.bus, a, 32) {
            Ok(t) => spec_amo_rmw(s, inst, 32, y, t),
            Err(e) => (s, Err(e)),
        }
    } else if f3 == 3 && f5 == 0x01 {
        // amoswap.d
        match spec_bus_load(s.bus, a, 64) {
            Ok(t) => spec_amo_rmw(s, inst, 64, y, t),
            Err(e) => (s, Err(e)),
        }
    } else {
        (s, Err(Exception::IllegalInstruction))
    }
}

/// The semantics of the R-type ALU opcode: add, sub, sll, slt, sltu, xor,
/// srl, sra, or and and, with the shift amount from the low six bits of
/// `rs2`.
pub open spec fn spec_op_reg(s: CpuState, inst: u64) -> (CpuState, Result<(), Exception>) {
    let x = s.regs[rs1_of(inst) as int];
    let y = s.regs[rs2_of(inst) as int];
    let shamt = y & 0x3f;
    let rd = rd_of(inst);
    let f3 = funct3_of(inst);
    let f7 = funct7_of(inst);
    if f3 == 0 && f7 == 0x00 {
        // add
        (wr(s, rd, x.wrapping_add(y)), Ok(()))
    } else if f3 == 0 && f7 == 0x20 {
        // sub
        (wr(s, rd, x.wrapping_sub(y)), Ok(()))
    } else if f3 == 1 && f7 == 0x00 {
        // sll
        (wr(s, rd, x << shamt), Ok(()))
    } else if f3 == 2 && f7 == 0x00 {
        // slt
        (wr(s, rd, if signed_lt(x, y) { 1u64 } else { 0u64 }), Ok(()))
    } else if f3 == 3 && f7 == 0x00 {
        // sltu
        (wr(s, rd, if x < y { 1u64 } else { 0u64 }), Ok(()))
    } else if f3 == 4 && f7 == 0x00 {
        // xor
        (wr(s, rd, x ^ y), Ok(()))
    } else if f3 == 5 && f7 == 0x00 {
        // srl
        (wr(s, rd, x >> shamt), Ok(()))
    } else if f3 == 5 && f7 == 0x20 {
        // sra
        (wr(s, rd, sra64(x, shamt)), Ok(()))
    } else if f3 == 6 && f7 == 0x00 {
        // or
        (wr(s, rd, x | y), Ok(()))
    } else if f3 == 7 && f7 == 0x00 {
        // and
        (wr(s, rd, x & y), Ok(()))
    } else {
        (s, Err(Exception::IllegalInstruction))
    }
}

/// The semantics of lui: the U-type immediate itself.
pub open spec fn spec_op_lui(s: CpuState, inst: u64) -> (CpuState, Result<(), Exception>) {
    (wr(s, rd_of(inst), imm_u(inst)), Ok(()))
}

/// The semantics of the 32-bit R-type ALU opcode: addw, subw, sllw, srlw
/// and sraw, each a 32-bit result sign-extended to 64 bits, with the shift
/// amount from the low five bits of `rs2`.
pub open spec fn spec_op_reg32(s: CpuState, inst: u64) -> (CpuState, Result<(), Exception>) {
    let x = s.regs[rs1_of(inst) as int];
    let y = s.regs[rs2_of(inst) as int];
    let shamt = y & 0x1f;
    let rd = rd_of(inst);
    let f3 = funct3_of(inst);
    let f7 = funct7_of(inst);
    if f3 == 0 && f7 == 0x00 {
        // addw
        (wr(s, rd, sext32(x.wrapping_add(y))), Ok(()))
    } else if f3 == 0 && f7 == 0x20 {
        // subw
        (wr(s, rd, sext32(x.wrapping_sub(y))), Ok(()))
    } else if f3 == 1 && f7 == 0x00 {
        // sllw
        (wr(s, rd, sext32(((x & 0xffff_ffff) << shamt) & 0xffff_ffff)), Ok(()))
    } else if f3 == 5 && f7 == 0x00 {
        // srlw
        (wr(s, rd, sext32((x & 0xffff_ffff) >> shamt)), Ok(()))
    } else if f3 == 5 && f7 == 0x20 {
        // sraw
        (wr(s, rd, sra32(x, shamt)), Ok(()))
    } else {
        (s, Err(Exception::IllegalInstruction))
    }
}

/// The semantics of the branch opcode: on a taken branch the B-type
/// displacement is added to the address of the branch itself, which is the
/// pre-advanced `pc` less four.
pub open spec fn spec_op_branch(s: CpuState, inst: u64) -> (CpuState, Result<(), Exception>) {
    let x = s.regs[rs1_of(inst) as int];
    let y = s.regs[rs2_of(inst) as int];
    let target = s.pc.wrapping_add(imm_b(inst)).wrapping_sub(4);
    let f3 = funct3_of(inst);
    if f3 == 0 || f3 == 1 || f3 == 4 || f3 == 5 || f3 == 6 || f3 == 7 {
        let taken = if f3 == 0 {
            x == y  // beq
        } else if f3 == 1 {
            x != y  // bne
        } else if f3 == 4 {
            signed_lt(x, y)  // blt
        } else if f3 == 5 {
            !signed_lt(x, y)  // bge
        } else if f3 == 6 {
            x < y  // bltu
        } else {
            x >= y  // bgeu
        };
        if taken {
            (CpuState { pc: target, ..s }, Ok(()))
        } else {
            (s, Ok(()))
        }
    } else {
        (s, Err(Exception::IllegalInstruction))
    }
}

/// The semantics of jalr: the target is the I-type sum with its low bit
/// cleared, and `rd` receives the pre-advanced `pc`, the address of the
/// next sequential instruction.
pub open spec fn spec_op_jalr(s: CpuState, inst: u64) -> (CpuState, Result<(), Exception>) {
    let t = s.pc;
    let target = s.regs[rs1_of(inst) as int].wrapping_add(imm_i(inst)) & !1u64;
    (wr(CpuState { pc: target, ..s }, rd_of(inst), t), Ok(()))
}

/// The semantics of jal: `rd` receives the pre-advanced `pc`, and the
/// J-type displacement is added to the address of the jump itself.
pub open spec fn spec_op_jal(s: CpuState, inst: u64) -> (CpuState, Result<(), Exception>) {
    let target = s.pc.wrapping_add(imm_j(inst)).wrapping_sub(4);
    (wr(CpuState { pc: target, ..s }, rd_of(inst), s.pc), Ok(()))
}

/// The state after sret: `pc` from `sepc`, the mode from `sstatus.SPP`, and
/// the interrupt-enable stack popped: `SIE` from `SPIE`, `SPIE` set, `SPP`
/// cleared.
pub open spec fn spec_sret(s: CpuState) -> CpuState {
    let st = s.csrs[SSTATUS as int];
    let mode = if (st >> 8) & 1 == 1 {
        Mode::Supervisor
    } else {
        Mode::User
    };
    let st1 = if (st >> 5) & 1 == 1 {
        st | 2
    } else {
        st & !2u64
    };
    let st2 = (st1 | 0x20) & !0x100u64;
    CpuState { pc: s.csrs[SEPC as int], mode, csrs: s.csrs.update(SSTATUS as int, st2), ..s }
}

/// The state after mret: `pc` from `mepc`, the mode decoded from
/// `mstatus.MPP`, and the interrupt-enable stack popped: `MIE` from `MPIE`,
/// `MPIE` set, `MPP` cleared.
pub open spec fn spec_mret(s: CpuState) -> CpuState {
    let st = s.csrs[MSTATUS as int];
    let mode = decode_mpp((st >> 11) & 3);
    let st1 = if (st >> 7) & 1 == 1 {
        st | 8
    } else {
        st & !8u64
    };
    let st2 = (st1 | 0x80) & !0x1800u64;
    CpuState { pc: s.csrs[MEPC as int], mode, csrs: s.csrs.update(MSTATUS as int, st2), ..s }
}

/// The semantics of the system opcode: ecall and ebreak raise their
/// exceptions, sret and mret return from traps, sfence.vma is a no-op, and
/// the six Zicsr instructions read the pre-operation CSR value and write
/// the same CSR index. No access-permission checks are made.
pub open spec fn spec_op_system(s: CpuState, inst: u64) -> (CpuState, Result<(), Exception>) {
    let a = csr_of(inst) as int;
    let zimm = rs1_of(inst);
    let rd = rd_of(inst);
    let f3 = funct3_of(inst);
    if f3 == 0 {
        let r2 = rs2_of(inst);
        let f7 = funct7_of(inst);
        if r2 == 0 && f7 == 0 {
            // ecall
            (
                s,
                Err(
                    match s.mode {
                        Mode::User => Exception::EnvironmentCallFromUMode,
                        Mode::Supervisor => Exception::EnvironmentCallFromSMode,
                        Mode::Machine => Exception::EnvironmentCallFromMMode,
                    },
                ),
            )
        } else if r2 == 1 && f7 == 0 {
            // ebreak
            (s, Err(Exception::Breakpoint))
        } else if r2 == 2 && f7 == 8 {
            // sret
            (spec_sret(s), Ok(()))
        } else if r2 == 2 && f7 == 0x18 {
            // mret
            (spec_mret(s), Ok(()))
        } else if f7 == 9 {
            // sfence.vma: a no-op, no MMU is modeled
            (s, Ok(()))
        } else {
            (s, Err(Exception::IllegalInstruction))
        }
    } else if f3 == 1 {
        // csrrw
        let t = s.csrs[a];
        (wr(CpuState { csrs: s.csrs.update(a, s.regs[zimm as int]), ..s }, rd, t), Ok(()))
    } else if f3 == 2 {
        // csrrs
        let t = s.csrs[a];
        (wr(CpuState { csrs: s.csrs.update(a, t | s.regs[zimm as int]), ..s }, rd, t), Ok(()))
    } else if f3 == 3 {
        // csrrc
        let t = s.csrs[a];
        (wr(CpuState { csrs: s.csrs.update(a, t & !s.regs[zimm as int]), ..s }, rd, t), Ok(()))
    } else if f3 == 5 {
        // csrrwi
        let t = s.csrs[a];
        (wr(CpuState { csrs: s.csrs.update(a, zimm), ..s }, rd, t), Ok(()))
    } else if f3 == 6 {
        // csrrsi
        let t = s.csrs[a];
        (wr(CpuState { csrs: s.csrs.update(a, t | zimm), ..s }, rd, t), Ok(()))
    } else if f3 == 7 {
        // csrrci
        let t = s.csrs[a];
        (wr(CpuState { csrs: s.csrs.update(a, t & !zimm), ..s }, rd, t), Ok(()))
    } else {
        (s, Err(Exception::IllegalInstruction))
    }
}

/// The semantics of one executed instruction word, dispatched on the
/// opcode. An opcode or sub-case outside the supported set leaves the state
/// unchanged and raises an illegal-instruction exception.
pub open spec fn spec_execute(s: CpuState, inst: u64) -> (CpuState, Result<(), Exception>) {
    let op = opcode_of(inst);
    if op == 0x03 {
        spec_op_load(s, inst)
    } else if op == 0x0f {
        spec_op_fence(s, inst)
    } else if op == 0x13 {
        spec_op_imm(s, inst)
    } else if op == 0x17 {
        spec_op_auipc(s, inst)
    } else if op == 0x1b {
        spec_op_imm32(s, inst)
    } else if op == 0x23 {
        spec_op_store(s, inst)
    } else if op == 0x2f {
        spec_op_amo(s, inst)
    } else if op == 0x33 {
        spec_op_reg(s, inst)
    } else if op == 0x37 {
        spec_op_lui(s, inst)
    } else if op == 0x3b {
        spec_op_reg32(s, inst)
    } else if op == 0x63 {
        spec_op_branch(s, inst)
    } else if op == 0x67 {
        spec_op_jalr(s, inst)
    } else if op == 0x6f {
        spec_op_jal(s, inst)
    } else if op == 0x73 {
        spec_op_system(s, inst)
    } else {
        (s, Err(Exception::IllegalInstruction))
    }
}

/// The semantics of the pre-fetch interrupt check. Interrupts are globally
/// gated by the current mode's interrupt-enable bit; the UART's interrupt
/// flag is polled and, when up, its request number is written to the PLIC
/// claim register and `mip.SEIP` is raised; the highest-priority bit
/// pending in both `mie` and `mip` is cleared in `mip` and returned.
pub open spec fn spec_check_pending(s: CpuState) -> (CpuState, Option<Interrupt>) {
    if s.mode == Mode::Machine && (s.csrs[MSTATUS as int] >> 3) & 1 == 0 {
        (s, None)
    } else if s.mode == Mode::Supervisor && (s.csrs[SSTATUS as int] >> 1) & 1 == 0 {
        (s, None)
    } else {
        let uart_irq = s.bus.uart.interrupting;
        let s1 = CpuState {
            bus: BusState {
                uart: UartState { interrupting: false, ..s.bus.uart },
                ..s.bus
            },
            ..s
        };
        let s2 = if uart_irq {
            let b2 = match spec_bus_store(s1.bus, PLIC_SCLAIM, 32, UART_IRQ) {
                Ok(b) => b,
                Err(_) => s1.bus,
            };
            CpuState {
                bus: b2,
                csrs: s1.csrs.update(MIP as int, s1.csrs[MIP as int] | MIP_SEIP),
                ..s1
            }
        } else {
            s1
        };
        let pending = s2.csrs[MIE as int] & s2.csrs[MIP as int];
        if pending & MIP_MEIP != 0 {
            (
                CpuState { csrs: s2.csrs.update(MIP as int, s2.csrs[MIP as int] & !MIP_MEIP), ..s2 },
                Some(Interrupt::MachineExternalInterrupt),
            )
        } else if pending & MIP_MSIP != 0 {
            (
                CpuState { csrs: s2.csrs.update(MIP as int, s2.csrs[MIP as int] & !MIP_MSIP), ..s2 },
                Some(Interrupt::MachineSoftwareInterrupt),
            )
        } else if pending & MIP_MTIP != 0 {
            (
                CpuState { csrs: s2.csrs.update(MIP as int, s2.csrs[MIP as int] & !MIP_MTIP), ..s2 },
                Some(Interrupt::MachineTimerInterrupt),
            )
        } else if pending & MIP_SEIP != 0 {
            (
                CpuState { csrs: s2.csrs.update(MIP as int, s2.csrs[MIP as int] & !MIP_SEIP), ..s2 },
                Some(Interrupt::SupervisorExternalInterrupt),
            )
        } else if pending & MIP_SSIP != 0 {
            (
                CpuState { csrs: s2.csrs.update(MIP as int, s2.csrs[MIP as int] & !MIP_SSIP), ..s2 },
                Some(Interrupt::SupervisorSoftwareInterrupt),
            )
        } else if pending & MIP_STIP != 0 {
            (
                CpuState { csrs: s2.csrs.update(MIP as int, s2.csrs[MIP as int] & !MIP_STIP), ..s2 },
                Some(Interrupt::SupervisorTimerInterrupt),
            )
        } else {
            (s2, None)
        }
    }
}

/// The semantics of one driver-loop iteration: fetch, pre-advance `pc` by
/// four, execute, and on an exception deliver the trap. The second
/// component says whether the loop goes on: it stops after a delivered
/// trap or on a jump to address zero. The third names the exception whose
/// trap was delivered, if one was.
pub open spec fn spec_step(s: CpuState) -> (CpuState, bool, Option<Exception>) {
    match spec_fetch(s) {
        Err(e) => (spec_take_trap(s, spec_exception_code(e)), false, Some(e)),
        Ok(inst) => {
            let s1 = CpuState { pc: (s.pc + 4) as u64, ..s };
            let r = spec_execute(s1, inst);
            match r.1 {
                Ok(_) => (r.0, r.0.pc != 0, None::<Exception>),
                Err(e) => (spec_take_trap(r.0, spec_exception_code(e)), false, Some(e)),
            }
        },
    }
}

/// After mret the mode is the one `mstatus.MPP` decoded to and `MIE` is
/// the previous `MPIE`; after sret the mode is the one `sstatus.SPP` named
/// and `SIE` is the previous `SPIE`.
pub proof fn lemma_privileged_return(s: CpuState)
    requires
        cpu_wf(s),
    ensures
        spec_mret(s).mode == decode_mpp((s.csrs[MSTATUS as int] >> 11) & 3),
        (spec_mret(s).csrs[MSTATUS as int] >> 3) & 1 == (s.csrs[MSTATUS as int] >> 7) & 1,
        spec_sret(s).mode == (if (s.csrs[SSTATUS as int] >> 8) & 1 == 1 {
            Mode::Supervisor
        } else {
            Mode::User
        }),
        (spec_sret(s).csrs[SSTATUS as int] >> 1) & 1 == (s.csrs[SSTATUS as int] >> 5) & 1,
{
    let mt = s.csrs[MSTATUS as int];
    assert(((((if (mt >> 7) & 1 == 1 {
        mt | 8u64
    } else {
        mt & !8u64
    }) | 0x80) & !0x1800u64) >> 3) & 1 == (mt >> 7) & 1) by (bit_vector);
    let st = s.csrs[SSTATUS as int];
    assert(((((if (st >> 5) & 1 == 1 {
        st | 2u64
    } else {
        st & !2u64
    }) | 0x20) & !0x100u64) >> 1) & 1 == (st >> 5) & 1) by (bit_vector);
}

/// The decoded register numbers and the CSR index are in range, and a
/// six-bit shift amount is a legal 64-bit shift.
proof fn lemma_decode_bounds(inst: u64)
    by (bit_vector)
    ensures
        (inst >> 7) & 0x1f < 32,
        (inst >> 15) & 0x1f < 32,
        (inst >> 20) & 0x1f < 32,
        (inst >> 12) & 0x7 < 8,
        (inst >> 20) & 0xfff < 4096,
        inst & 0x3f < 64,
        inst & 0x1f < 32,
{
}

/// Computes the I-type immediate.
fn imm_i_x(inst: u64) -> (r: u64)
    ensures
        r == imm_i(inst),
{
    if inst & 0x8000_0000 != 0 {
        ((inst >> 20) & 0xfff) | 0xffff_ffff_ffff_f000
    } else {
        (inst >> 20) & 0xfff
    }
}

/// Computes the S-type immediate.
fn imm_s_x(inst: u64) -> (r: u64)
    ensures
        r == imm_s(inst),
{
    let lo = ((inst >> 20) & 0xfe0) | ((inst >> 7) & 0x1f);
    if inst & 0x8000_0000 != 0 {
        lo | 0xffff_ffff_ffff_f000
    } else {
        lo
    }
}

/// Computes the B-type immediate.
fn imm_b_x(inst: u64) -> (r: u64)
    ensures
        r == imm_b(inst),
{
    let lo = ((inst & 0x80) << 4) | ((inst >> 20) & 0x7e0) | ((inst >> 7) & 0x1e);
    if inst & 0x8000_0000 != 0 {
        lo | 0xffff_ffff_ffff_f000
    } else {
        lo
    }
}

/// Computes the U-type immediate.
fn imm_u_x(inst: u64) -> (r: u64)
    ensures
        r == imm_u(inst),
{
    if inst & 0x8000_0000 != 0 {
        (inst & 0xffff_f000) | 0xffff_ffff_0000_0000
    } else {
        inst & 0xffff_f000
    }
}

/// Computes the J-type immediate.
fn imm_j_x(inst: u64) -> (r: u64)
    ensures
        r == imm_j(inst),
{
    let lo = (inst & 0xff000) | ((inst >> 9) & 0x800) | ((inst >> 20) & 0x7fe);
    if inst & 0x8000_0000 != 0 {
        lo | 0xffff_ffff_fff0_0000
    } else {
        lo
    }
}

/// Sign-extends the low 8 bits.
fn sext8_x(x: u64) -> (r: u64)
    ensures
        r == sext8(x),
{
    let v = x % 0x100;
    if v >= 0x80 {
        v + 0xffff_ffff_ffff_ff00
    } else {
        v
    }
}

/// Sign-extends the low 16 bits.
fn sext16_x(x: u64) -> (r: u64)
    ensures
        r == sext16(x),
{
    let v = x % 0x1_0000;
    if v >= 0x8000 {
        v + 0xffff_ffff_ffff_0000
    } else {
        v
    }
}

/// Sign-extends the low 32 bits.
fn sext32_x(x: u64) -> (r: u64)
    ensures
        r == sext32(x),
{
    let v = x % 0x1_0000_0000;
    if v >= 0x8000_0000 {
        v + 0xffff_ffff_0000_0000
    } else {
        v
    }
}

/// Compares two register values as two's-complement 64-bit integers.
fn signed_lt_x(a: u64, b: u64) -> (r: bool)
    ensures
        r == signed_lt(a, b),
{
    if a >= 0x8000_0000_0000_0000 && b < 0x8000_0000_0000_0000 {
        true
    } else if a < 0x8000_0000_0000_0000 && b >= 0x8000_0000_0000_0000 {
        false
    } else {
        a < b
    }
}

/// Computes a 64-bit arithmetic right shift.
fn sra64_x(x: u64, s: u64) -> (r: u64)
    requires
        s < 64,
    ensures
        r == sra64(x, s),
{
    if s == 0 {
        x
    } else if x >= 0x8000_0000_0000_0000 {
        (x >> s) | (0xffff_ffff_ffff_ffffu64 << (64 - s))
    } else {
        x >> s
    }
}

/// Computes a 32-bit arithmetic right shift of the low word, sign-extended
/// to 64 bits.
fn sra32_x(x: u64, s: u64) -> (r: u64)
    requires
        s < 32,
    ensures
        r == sra32(x, s),
{
    let v = x % 0x1_0000_0000;
    if v >= 0x8000_0000 {
        if s == 0 {
            sext32_x(v)
        } else {
            sext32_x((v >> s) | ((0xffff_ffffu64 << (32 - s)) & 0xffff_ffff))
        }
    } else {
        v >> s
    }
}

impl Cpu {
    /// The well-formedness of the CPU.
    pub open spec fn wf(&self) -> bool {
        cpu_wf(self@)
    }

    /// Builds the machine over a program image: registers zeroed but for the
    /// stack pointer in `x2`, `pc` at the start of memory, CSRs zeroed,
    /// Machine mode.
    pub fn new(binary: Vec<u8>) -> (r: Cpu)
        requires
            binary@.len() <= MEMORY_SIZE,
        ensures
            r.wf(),
            r@ == spec_cpu_init(binary@),
    {
        let mut regs: Vec<u64> = vec![0u64; REGISTER_NUMBER];
        assert forall|j: int| 0 <= j < 32 implies regs@[j] == 0 by {
            assert(cloned(0u64, regs@[j]));
        }
        // regs[2] (x2) is the stack pointer.
        regs[2] = MEMORY_BASE + MEMORY_SIZE;
        let csrs: Vec<u64> = vec![0u64; CSRS_NUMBER];
        assert forall|j: int| 0 <= j < 4096 implies csrs@[j] == 0 by {
            assert(cloned(0u64, csrs@[j]));
        }
        let r = Cpu {
            regs,
            pc: MEMORY_BASE,
            bus: Bus::new(binary),
            csrs,
            mode: Mode::Machine,
        };
        proof {
            assert(r@.regs =~= spec_cpu_init(binary@).regs);
            assert(r@.csrs =~= spec_cpu_init(binary@).csrs);
        }
        r
    }

    /// Writes `v` to register `rd`; a write to register 0 is discarded.
    fn write_reg(&mut self, rd: usize, v: u64)
        requires
            rd < 32,
            old(self).regs@.len() == 32,
        ensures
            final(self)@ == (CpuState {
                regs: write_reg_s(old(self)@.regs, rd as int, v),
                ..old(self)@
            }),
    {
        if rd != 0 {
            self.regs[rd] = v;
        }
    }

    /// Executes one load instruction.
    fn exec_op_load(&mut self, inst: u64) -> (r: Result<(), Exception>)
        requires
            old(self).wf(),
        ensures
            final(self).wf(),
            final(self)@ == spec_op_load(old(self)@, inst).0,
            r == spec_op_load(old(self)@, inst).1,
    {
        proof {
            lemma_decode_bounds(inst);
        }
        let rd = ((inst >> 7) & 0x1f) as usize;
        let rs1 = ((inst >> 15) & 0x1f) as usize;
        let f3 = (inst >> 12) & 0x7;
        let addr = self.regs[rs1].wrapping_add(imm_i_x(inst));
        match f3 {
            0x0 => {
                // lb
                match self.bus.load(addr, 8) {
                    Ok(v) => {
                        let sv = sext8_x(v);
                        self.write_reg(rd, sv);
                        Ok(())
                    },
                    Err(e) => Err(e),
                }
            },
            0x1 => {
                // lh
                match self.bus.load(addr, 16) {
                    Ok(v) => {
                        let sv = sext16_x(v);
                        self.write_reg(rd, sv);
                        Ok(())
                    },
                    Err(e) => Err(e),
                }
            },
            0x2 => {
                // lw
                match self.bus.load(addr, 32) {
                    Ok(v) => {
                        let sv = sext32_x(v);
                        self.write_reg(rd, sv);
                        Ok(())
                    },
                    Err(e) => Err(e),
                }
            },
            0x3 => {
                // ld
                match self.bus.load(addr, 64) {
                    Ok(v) => {
                        self.write_reg(rd, v);
                        Ok(())
                    },
                    Err(e) => Err(e),
                }
            },
            0x4 => {
                // lbu
                match self.bus.load(addr, 8) {
                    Ok(v) => {
                        self.write_reg(rd, v);
                        Ok(())
                    },
                    Err(e) => Err(e),
                }
            },
            0x5 => {
                // lhu
                match self.bus.load(addr, 16) {
                    Ok(v) => {
                        self.write_reg(rd, v);
                        Ok(())
                    },
                    Err(e) => Err(e),
                }
            },
            0x6 => {
                // lwu
                match self.bus.load(addr, 32) {
                    Ok(v) => {
                        self.write_reg(rd, v);
                        Ok(())
                    },
                    Err(e) => Err(e),
                }
            },
            _ => Err(Exception::IllegalInstruction),
        }
    }

    /// Executes one fence instruction: a no-op on this sequential model.
    fn exec_op_fence(&mut self, inst: u64) -> (r: Result<(), Exception>)
        requires
            old(self).wf(),
        ensures
            final(self).wf(),
            final(self)@ == spec_op_fence(old(self)@, inst).0,
            r == spec_op_fence(old(self)@, inst).1,
    {
        let f3 = (inst >> 12) & 0x7;
        if f3 == 0 {
            Ok(())
        } else {
            Err(Exception::IllegalInstruction)
        }
    }

    /// Executes one I-type ALU instruction.
    fn exec_op_imm(&mut self, inst: u64) -> (r: Result<(), Exception>)
        requires
            old(self).wf(),
        ensures
            final(self).wf(),
            final(self)@ == spec_op_imm(old(self)@, inst).0,
            r == spec_op_imm(old(self)@, inst).1,
    {
        proof {
            lemma_decode_bounds(inst);
        }
        let rd = ((inst >> 7) & 0x1f) as usize;
        let rs1 = ((inst >> 15) & 0x1f) as usize;
        let f3 = (inst >> 12) & 0x7;
        let imm = imm_i_x(inst);
        // The shift amount of an RV64I immediate shift: the low six bits.
        let shamt = imm & 0x3f;
        proof {
            lemma_decode_bounds(imm);
        }
        let x = self.regs[rs1];
        match f3 {
            0x0 => {
                // addi
                self.write_reg(rd, x.wrapping_add(imm));
                Ok(())
            },
            0x1 => {
                // slli
                self.write_reg(rd, x << shamt);
                Ok(())
            },
            0x2 => {
                // slti
                let v: u64 = if signed_lt_x(x, imm) {
                    1
                } else {
                    0
                };
                self.write_reg(rd, v);
                Ok(())
            },
            0x3 => {
                // sltiu
                let v: u64 = if x < imm {
                    1
                } else {
                    0
                };
                self.write_reg(rd, v);
                Ok(())
            },
            0x4 => {
                // xori
                self.write_reg(rd, x ^ imm);
                Ok(())
            },
            0x5 => {
                let f7 = (inst >> 25) & 0x7f;
                if f7 >> 1 == 0x00 {
                    // srli
                    self.write_reg(rd, x >> shamt);
                    Ok(())
                } else if f7 >> 1 == 0x10 {
                    // srai
                    let v = sra64_x(x, shamt);
                    self.write_reg(rd, v);
                    Ok(())
                } else {
                    Err(Exception::IllegalInstruction)
                }
            },
            0x6 => {
                // ori
                self.write_reg(rd, x | imm);
                Ok(())
            },
            _ => {
                // andi
                self.write_reg(rd, x & imm);
                Ok(())
            },
        }
    }

    /// Executes one auipc instruction.
    fn exec_op_auipc(&mut self, inst: u64) -> (r: Result<(), Exception>)
        requires
            old(self).wf(),
        ensures
            final(self).wf(),
            final(self)@ == spec_op_auipc(old(self)@, inst).0,
            r == spec_op_auipc(old(self)@, inst).1,
    {
        proof {
            lemma_decode_bounds(inst);
        }
        let rd = ((inst >> 7) & 0x1f) as usize;
        let imm = imm_u_x(inst);
        // The displacement is relative to the address of this instruction,
        // which is the pre-advanced pc less four.
        let v = self.pc.wrapping_add(imm).wrapping_sub(4);
        self.write_reg(rd, v);
        Ok(())
    }

    /// Executes one 32-bit I-type ALU instruction.
    fn exec_op_imm32(&mut self, inst: u64) -> (r: Result<(), Exception>)
        requires
            old(self).wf(),
        ensures
            final(self).wf(),
            final(self)@ == spec_op_imm32(old(self)@, inst).0,
            r == spec_op_imm32(old(self)@, inst).1,
    {
        proof {
            lemma_decode_bounds(inst);
        }
        let rd = ((inst >> 7) & 0x1f) as usize;
        let rs1 = ((inst >> 15) & 0x1f) as usize;
        let f3 = (inst >> 12) & 0x7;
        let imm = imm_i_x(inst);
        // The shift amount of a word-sized immediate shift: the low five
        // bits.
        let shamt = imm & 0x1f;
        proof {
            lemma_decode_bounds(imm);
        }
        let x = self.regs[rs1];
        match f3 {
            0x0 => {
                // addiw
                let v = sext32_x(x.wrapping_add(imm));
                self.write_reg(rd, v);
                Ok(())
            },
            0x1 => {
                // slliw
                let v = sext32_x(x << shamt);
                self.write_reg(rd, v);
                Ok(())
            },
            0x5 => {
                let f7 = (inst >> 25) & 0x7f;
                if f7 == 0x00 {
                    // srliw
                    let v = sext32_x(x >> shamt);
                    self.write_reg(rd, v);
                    Ok(())
                } else if f7 == 0x20 {
                    // sraiw
                    let v = sra32_x(x, shamt);
                    self.write_reg(rd, v);
                    Ok(())
                } else {
                    Err(Exception::IllegalInstruction)
                }
            },
            _ => Err(Exception::IllegalInstruction),
        }
    }

    /// Executes one lui instruction.
    fn exec_op_lui(&mut self, inst: u64) -> (r: Result<(), Exception>)
        requires
            old(self).wf(),
        ensures
            final(self).wf(),
            final(self)@ == spec_op_lui(old(self)@, inst).0,
            r == spec_op_lui(old(self)@, inst).1,
    {
        proof {
            lemma_decode_bounds(inst);
        }
        let rd = ((inst >> 7) & 0x1f) as usize;
        let imm = imm_u_x(inst);
        self.write_reg(rd, imm);
        Ok(())
    }

    /// Executes one store instruction.
    fn exec_op_store(&mut self, inst: u64) -> (r: Result<(), Exception>)
        requires
            old(self).wf(),
        ensures
            final(self).wf(),
            final(self)@ == spec_op_store(old(self)@, inst).0,
            r == spec_op_store(old(self)@, inst).1,
    {
        proof {
            lemma_decode_bounds(inst);
        }
        let rs1 = ((inst >> 15) & 0x1f) as usize;
        let rs2 = ((inst >> 20) & 0x1f) as usize;
        let f3 = (inst >> 12) & 0x7;
        let addr = self.regs[rs1].wrapping_add(imm_s_x(inst));
        let v = self.regs[rs2];
        match f3 {
            0x0 => self.bus.store(addr, 8, v),  // sb
            0x1 => self.bus.store(addr, 16, v),  // sh
            0x2 => self.bus.store(addr, 32, v),  // sw
            0x3 => self.bus.store(addr, 64, v),  // sd
            _ => Err(Exception::IllegalInstruction),
        }
    }

    /// Executes one atomic read-modify-write instruction.
    fn exec_op_amo(&mut self, inst: u64) -> (r: Result<(), Exception>)
        requires
            old(self).wf(),
        ensures
            final(self).wf(),
            final(self)@ == spec_op_amo(old(self)@, inst).0,
            r == spec_op_amo(old(self)@, inst).1,
    {
        proof {
            lemma_decode_bounds(inst);
        }
        let rd = ((inst >> 7) & 0x1f) as usize;
        let rs1 = ((inst >> 15) & 0x1f) as usize;
        let rs2 = ((inst >> 20) & 0x1f) as usize;
        let f3 = (inst >> 12) & 0x7;
        let f7 = (inst >> 25) & 0x7f;
        // The five-bit operation field; the acquire and release bits below
        // it are ignored.
        let f5 = f7 >> 2;
        let a = self.regs[rs1];
        let y = self.regs[rs2];
        match (f3, f5) {
            (0x2, 0x00) => {
                // amoadd.w
                let t = match self.bus.load(a, 32) {
                    Ok(t) => t,
                    Err(e) => {
                        return Err(e);
                    },
                };
                match self.bus.store(a, 32, t.wrapping_add(y)) {
                    Ok(_) => {
                        self.write_reg(rd, t);
                        Ok(())
                    },
                    Err(e) => Err(e),
                }
            },
            (0x3, 0x00) => {
                // amoadd.d
                let t = match self.bus.load(a, 64) {
                    Ok(t) => t,
                    Err(e) => {
                        return Err(e);
                    },
                };
                match self.bus.store(a, 64, t.wrapping_add(y)) {
                    Ok(_) => {
                        self.write_reg(rd, t);
                        Ok(())
                    },
                    Err(e) => Err(e),
                }
            },
            (0x2, 0x01) => {
                // amoswap.w
                let t = match self.bus.load(a, 32) {
                    Ok(t) => t,
                    Err(e) => {
                        return Err(e);
                    },
                };
                match self.bus.store(a, 32, y) {
                    Ok(_) => {
                        self.write_reg(rd, t);
                        Ok(())
                    },
                    Err(e) => Err(e),
                }
            },
            (0x3, 0x01) => {
                // amoswap.d
                let t = match self.bus.load(a, 64) {
                    Ok(t) => t,
                    Err(e) => {
                        return Err(e);
                    },
                };
                match self.bus.store(a, 64, y) {
                    Ok(_) => {
                        self.write_reg(rd, t);
                        Ok(())
                    },
                    Err(e) => Err(e),
                }
            },
            _ => Err(Exception::IllegalInstruction),
        }
    }

    /// Executes one R-type ALU instruction.
    fn exec_op_reg(&mut self, inst: u64) -> (r: Result<(), Exception>)
        requires
            old(self).wf(),
        ensures
            final(self).wf(),
            final(self)@ == spec_op_reg(old(self)@, inst).0,
            r == spec_op_reg(old(self)@, inst).1,
    {
        proof {
            lemma_decode_bounds(inst);
        }
        let rd = ((inst >> 7) & 0x1f) as usize;
        let rs1 = ((inst >> 15) & 0x1f) as usize;
        let rs2 = ((inst >> 20) & 0x1f) as usize;
        let f3 = (inst >> 12) & 0x7;
        let f7 = (inst >> 25) & 0x7f;
        let x = self.regs[rs1];
        let y = self.regs[rs2];
        // The shift amount of an RV64I register shift: the low six bits of
        // rs2.
        let shamt = y & 0x3f;
        proof {
            lemma_decode_bounds(y);
        }
        match (f3, f7) {
            (0x0, 0x00) => {
                // add
                self.write_reg(rd, x.wrapping_add(y));
                Ok(())
            },
            (0x0, 0x20) => {
                // sub
                self.write_reg(rd, x.wrapping_sub(y));
                Ok(())
            },
            (0x1, 0x00) => {
                // sll
                self.write_reg(rd, x << shamt);
                Ok(())
            },
            (0x2, 0x00) => {
                // slt
                let v: u64 = if signed_lt_x(x, y) {
                    1
                } else {
                    0
                };
                self.write_reg(rd, v);
                Ok(())
            },
            (0x3, 0x00) => {
                // sltu
                let v: u64 = if x < y {
                    1
                } else {
                    0
                };
                self.write_reg(rd, v);
                Ok(())
            },
            (0x4, 0x00) => {
                // xor
                self.write_reg(rd, x ^ y);
                Ok(())
            },
            (0x5, 0x00) => {
                // srl
                self.write_reg(rd, x >> shamt);
                Ok(())
            },
            (0x5, 0x20) => {
                // sra
                let v = sra64_x(x, shamt);
                self.write_reg(rd, v);
                Ok(())
            },
            (0x6, 0x00) => {
                // or
                self.write_reg(rd, x | y);
                Ok(())
            },
            (0x7, 0x00) => {
                // and
                self.write_reg(rd, x & y);
                Ok(())
            },
            _ => Err(Exception::IllegalInstruction),
        }
    }

    /// Executes one 32-bit R-type ALU instruction.
    fn exec_op_reg32(&mut self, inst: u64) -> (r: Result<(), Exception>)
        requires
            old(self).wf(),
        ensures
            final(self).wf(),
            final(self)@ == spec_op_reg32(old(self)@, inst).0,
            r == spec_op_reg32(old(self)@, inst).1,
    {
        proof {
            lemma_decode_bounds(inst);
        }
        let rd = ((inst >> 7) & 0x1f) as usize;
        let rs1 = ((inst >> 15) & 0x1f) as usize;
        let rs2 = ((inst >> 20) & 0x1f) as usize;
        let f3 = (inst >> 12) & 0x7;
        let f7 = (inst >> 25) & 0x7f;
        let x = self.regs[rs1];
        let y = self.regs[rs2];
        // The shift amount of a word-sized register shift: the low five
        // bits of rs2.
        let shamt = y & 0x1f;
        proof {
            lemma_decode_bounds(y);
        }
        match (f3, f7) {
            (0x0, 0x00) => {
                // addw
                let v = sext32_x(x.wrapping_add(y));
                self.write_reg(rd, v);
                Ok(())
            },
            (0x0, 0x20) => {
                // subw
                let v = sext32_x(x.wrapping_sub(y));
                self.write_reg(rd, v);
                Ok(())
            },
            (0x1, 0x00) => {
                // sllw
                let v = sext32_x(((x & 0xffff_ffff) << shamt) & 0xffff_ffff);
                self.write_reg(rd, v);
                Ok(())
            },
            (0x5, 0x00) => {
                // srlw
                let v = sext32_x((x & 0xffff_ffff) >> shamt);
                self.write_reg(rd, v);
                Ok(())
            },
            (0x5, 0x20) => {
                // sraw
                let v = sra32_x(x, shamt);
                self.write_reg(rd, v);
                Ok(())
            },
            _ => Err(Exception::IllegalInstruction),
        }
    }

    /// Executes one branch instruction.
    fn exec_op_branch(&mut self, inst: u64) -> (r: Result<(), Exception>)
        requires
            old(self).wf(),
        ensures
            final(self).wf(),
            final(self)@ == spec_op_branch(old(self)@, inst).0,
            r == spec_op_branch(old(self)@, inst).1,
    {
        proof {
            lemma_decode_bounds(inst);
        }
        let rs1 = ((inst >> 15) & 0x1f) as usize;
        let rs2 = ((inst >> 20) & 0x1f) as usize;
        let f3 = (inst >> 12) & 0x7;
        let x = self.regs[rs1];
        let y = self.regs[rs2];
        let taken = match f3 {
            0x0 => x == y,  // beq
            0x1 => x != y,  // bne
            0x4 => signed_lt_x(x, y),  // blt
            0x5 => !signed_lt_x(x, y),  // bge
            0x6 => x < y,  // bltu
            0x7 => x >= y,  // bgeu
            _ => {
                return Err(Exception::IllegalInstruction);
            },
        };
        if taken {
            // The displacement is relative to the address of the branch
            // itself, which is the pre-advanced pc less four.
            self.pc = self.pc.wrapping_add(imm_b_x(inst)).wrapping_sub(4);
        }
        Ok(())
    }

    /// Executes one jalr instruction.
    fn exec_op_jalr(&mut self, inst: u64) -> (r: Result<(), Exception>)
        requires
            old(self).wf(),
        ensures
            final(self).wf(),
            final(self)@ == spec_op_jalr(old(self)@, inst).0,
            r == spec_op_jalr(old(self)@, inst).1,
    {
        proof {
            lemma_decode_bounds(inst);
        }
        let rd = ((inst >> 7) & 0x1f) as usize;
        let rs1 = ((inst >> 15) & 0x1f) as usize;
        // rd receives the pre-advanced pc: the next sequential instruction.
        let t = self.pc;
        self.pc = self.regs[rs1].wrapping_add(imm_i_x(inst)) & !1u64;
        self.write_reg(rd, t);
        Ok(())
    }

    /// Executes one jal instruction.
    fn exec_op_jal(&mut self, inst: u64) -> (r: Result<(), Exception>)
        requires
            old(self).wf(),
        ensures
            final(self).wf(),
            final(self)@ == spec_op_jal(old(self)@, inst).0,
            r == spec_op_jal(old(self)@, inst).1,
    {
        proof {
            lemma_decode_bounds(inst);
        }
        let rd = ((inst >> 7) & 0x1f) as usize;
        let t = self.pc;
        self.write_reg(rd, t);
        // The displacement is relative to the address of the jump itself,
        // which is the pre-advanced pc less four.
        self.pc = t.wrapping_add(imm_j_x(inst)).wrapping_sub(4);
        Ok(())
    }

    /// Executes one sret instruction: the return from a supervisor-mode
    /// trap handler.
    fn exec_sret(&mut self)
        requires
            old(self).wf(),
        ensures
            final(self).wf(),
            final(self)@ == spec_sret(old(self)@),
    {
        let st = self.csrs[SSTATUS];
        self.pc = self.csrs[SEPC];
        // SPP (bit 8) names the mode the trap came from.
        self.mode = if (st >> 8) & 1 == 1 {
            Mode::Supervisor
        } else {
            Mode::User
        };
        // SIE (bit 1) from SPIE (bit 5); SPIE set; SPP cleared.
        let st1 = if (st >> 5) & 1 == 1 {
            st | 2
        } else {
            st & !2u64
        };
        self.csrs[SSTATUS] = (st1 | 0x20) & !0x100u64;
    }

    /// Executes one mret instruction: the return from a machine-mode trap
    /// handler.
    fn exec_mret(&mut self)
        requires
            old(self).wf(),
        ensures
            final(self).wf(),
            final(self)@ == spec_mret(old(self)@),
    {
        let st = self.csrs[MSTATUS];
        self.pc = self.csrs[MEPC];
        // MPP (bits 12:11) names the mode the trap came from.
        let mpp = (st >> 11) & 3;
        self.mode = if mpp == 3 {
            Mode::Machine
        } else if mpp == 1 {
            Mode::Supervisor
        } else {
            Mode::User
        };
        // MIE (bit 3) from MPIE (bit 7); MPIE set; MPP cleared.
        let st1 = if (st >> 7) & 1 == 1 {
            st | 8
        } else {
            st & !8u64
        };
        self.csrs[MSTATUS] = (st1 | 0x80) & !0x1800u64;
    }

    /// Executes one system instruction: ecall, ebreak, sret, mret,
    /// sfence.vma or a Zicsr read-modify-write.
    fn exec_op_system(&mut self, inst: u64) -> (r: Result<(), Exception>)
        requires
            old(self).wf(),
        ensures
            final(self).wf(),
            final(self)@ == spec_op_system(old(self)@, inst).0,
            r == spec_op_system(old(self)@, inst).1,
    {
        proof {
            lemma_decode_bounds(inst);
        }
        let rd = ((inst >> 7) & 0x1f) as usize;
        // For the register forms this field names rs1; for the immediate
        // forms it is the five-bit zero-extended immediate itself.
        let zimm = (inst >> 15) & 0x1f;
        let rs1 = zimm as usize;
        let f3 = (inst >> 12) & 0x7;
        let a = ((inst >> 20) & 0xfff) as usize;
        match f3 {
            0x0 => {
                let r2 = (inst >> 20) & 0x1f;
                let f7 = (inst >> 25) & 0x7f;
                if r2 == 0 && f7 == 0 {
                    // ecall: an environment call from the current mode
                    match self.mode {
                        Mode::User => Err(Exception::EnvironmentCallFromUMode),
                        Mode::Supervisor => Err(Exception::EnvironmentCallFromSMode),
                        Mode::Machine => Err(Exception::EnvironmentCallFromMMode),
                    }
                } else if r2 == 1 && f7 == 0 {
                    // ebreak
                    Err(Exception::Breakpoint)
                } else if r2 == 2 && f7 == 8 {
                    // sret
                    self.exec_sret();
                    Ok(())
                } else if r2 == 2 && f7 == 0x18 {
                    // mret
                    self.exec_mret();
                    Ok(())
                } else if f7 == 9 {
                    // sfence.vma: a no-op, no MMU is modeled
                    Ok(())
                } else {
                    Err(Exception::IllegalInstruction)
                }
            },
            0x1 => {
                // csrrw: atomic read then write
                let t = self.csrs[a];
                self.csrs[a] = self.regs[rs1];
                self.write_reg(rd, t);
                Ok(())
            },
            0x2 => {
                // csrrs: atomic read then set bits
                let t = self.csrs[a];
                self.csrs[a] = t | self.regs[rs1];
                self.write_reg(rd, t);
                Ok(())
            },
            0x3 => {
                // csrrc: atomic read then clear bits
                let t = self.csrs[a];
                self.csrs[a] = t & !self.regs[rs1];
                self.write_reg(rd, t);
                Ok(())
            },
            0x5 => {
                // csrrwi
                let t = self.csrs[a];
                self.csrs[a] = zimm;
                self.write_reg(rd, t);
                Ok(())
            },
            0x6 => {
                // csrrsi
                let t = self.csrs[a];
                self.csrs[a] = t | zimm;
                self.write_reg(rd, t);
                Ok(())
            },
            0x7 => {
                // csrrci
                let t = self.csrs[a];
                self.csrs[a] = t & !zimm;
                self.write_reg(rd, t);
                Ok(())
            },
            _ => Err(Exception::IllegalInstruction),
        }
    }

    /// Decodes and executes one instruction word. The word was already
    /// fetched and `pc` pre-advanced past it, which the PC-relative
    /// instructions account for. On an unsupported opcode or sub-case the
    /// state is unchanged and an illegal-instruction exception is raised.
    /// Register 0 reads as zero afterwards, as `wf` records.
    pub fn execute(&mut self, inst: u64) -> (r: Result<(), Exception>)
        requires
            old(self).wf(),
        ensures
            final(self).wf(),
            final(self)@.regs[0] == 0,
            final(self)@ == spec_execute(old(self)@, inst).0,
            r == spec_execute(old(self)@, inst).1,
    {
        let opcode = inst & 0x7f;
        match opcode {
            0x03 => self.exec_op_load(inst),
            0x0f => self.exec_op_fence(inst),
            0x13 => self.exec_op_imm(inst),
            0x17 => self.exec_op_auipc(inst),
            0x1b => self.exec_op_imm32(inst),
            0x23 => self.exec_op_store(inst),
            0x2f => self.exec_op_amo(inst),
            0x33 => self.exec_op_reg(inst),
            0x37 => self.exec_op_lui(inst),
            0x3b => self.exec_op_reg32(inst),
            0x63 => self.exec_op_branch(inst),
            0x67 => self.exec_op_jalr(inst),
            0x6f => self.exec_op_jal(inst),
            0x73 => self.exec_op_system(inst),
            _ => Err(Exception::IllegalInstruction),
        }
    }

    /// Fetches the instruction word at `pc` from the bus; a failed fetch is
    /// an instruction access fault.
    pub fn fetch(&mut self) -> (r: Result<u64, Exception>)
        requires
            old(self).wf(),
        ensures
            final(self).wf(),
            final(self)@ == old(self)@,
            r == spec_fetch(old(self)@),
    {
        match self.bus.load(self.pc, 32) {
            Ok(inst) => Ok(inst),
            Err(_e) => Err(Exception::InstructionAccessFault),
        }
    }

    /// Polls for a pending interrupt before a fetch: gates on the current
    /// mode's interrupt-enable bit, raises `mip.SEIP` for a signalling
    /// UART after writing its request number to the PLIC claim register,
    /// and takes the highest-priority bit pending in both `mie` and `mip`
    /// out of `mip`.
    pub fn check_pending_interrupt(&mut self) -> (r: Option<Interrupt>)
        requires
            old(self).wf(),
        ensures
            final(self).wf(),
            final(self)@ == spec_check_pending(old(self)@).0,
            r == spec_check_pending(old(self)@).1,
    {
        // When the hart executes in privilege mode x, interrupts are
        // globally enabled exactly when xIE is set; User mode has no gate.
        match self.mode {
            Mode::Machine => {
                if (self.csrs[MSTATUS] >> 3) & 1 == 0 {
                    return None;
                }
            },
            Mode::Supervisor => {
                if (self.csrs[SSTATUS] >> 1) & 1 == 0 {
                    return None;
                }
            },
            Mode::User => {},
        }
        // Check the external interrupt line of the UART.
        let irq: u64 = if self.bus.uart.is_interrupting() {
            UART_IRQ
        } else {
            0
        };
        if irq != 0 {
            // The claim register write cannot fault: the address sits in
            // the PLIC window and the width is 32 bits.
            let _ = self.bus.store(PLIC_SCLAIM, 32, irq);
            self.csrs[MIP] = self.csrs[MIP] | MIP_SEIP;
        }
        // An interrupt is taken when its bit is set in both mip and mie,
        // in priority order MEI, MSI, MTI, SEI, SSI, STI.
        let pending = self.csrs[MIE] & self.csrs[MIP];
        if pending & MIP_MEIP != 0 {
            self.csrs[MIP] = self.csrs[MIP] & !MIP_MEIP;
            return Some(Interrupt::MachineExternalInterrupt);
        }
        if pending & MIP_MSIP != 0 {
            self.csrs[MIP] = self.csrs[MIP] & !MIP_MSIP;
            return Some(Interrupt::MachineSoftwareInterrupt);
        }
        if pending & MIP_MTIP != 0 {
            self.csrs[MIP] = self.csrs[MIP] & !MIP_MTIP;
            return Some(Interrupt::MachineTimerInterrupt);
        }
        if pending & MIP_SEIP != 0 {
            self.csrs[MIP] = self.csrs[MIP] & !MIP_SEIP;
            return Some(Interrupt::SupervisorExternalInterrupt);
        }
        if pending & MIP_SSIP != 0 {
            self.csrs[MIP] = self.csrs[MIP] & !MIP_SSIP;
            return Some(Interrupt::SupervisorSoftwareInterrupt);
        }
        if pending & MIP_STIP != 0 {
            self.csrs[MIP] = self.csrs[MIP] & !MIP_STIP;
            return Some(Interrupt::SupervisorTimerInterrupt);
        }
        None
    }

    /// Runs one iteration of the driver loop: fetch, advance `pc` by four,
    /// execute, and on an exception deliver the trap. Returns whether the
    /// loop goes on — it stops after a delivered trap or on `pc == 0` —
    /// and the exception whose trap was delivered, if one was.
    pub fn step(&mut self) -> (r: (bool, Option<Exception>))
        requires
            old(self).wf(),
        ensures
            final(self).wf(),
            final(self)@ == spec_step(old(self)@).0,
            r.0 == spec_step(old(self)@).1,
            r.1 == spec_step(old(self)@).2,
    {
        let inst = match self.fetch() {
            Ok(inst) => inst,
            Err(e) => {
                proof {
                    lemma_exception_code_bounded(e);
                }
                e.take_trap(self);
                return (false, Some(e));
            },
        };
        // A successful fetch was answered by a device window, all of which
        // end below the top of memory, so the advance cannot overflow.
        proof {
            assert(spec_bus_load(self@.bus, self.pc, 32) is Ok);
            assert(self.pc < 0x8800_0000);
        }
        self.pc = self.pc + 4;
        match self.execute(inst) {
            Ok(_) => {},
            Err(e) => {
                proof {
                    lemma_exception_code_bounded(e);
                }
                e.take_trap(self);
                return (false, Some(e));
            },
        }
        if self.pc == 0 {
            return (false, None);
        }
        (true, None)
    }
}

} // verus!
