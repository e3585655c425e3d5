//! Instruction-level tests: single instruction words run through
//! `Cpu::execute` under the pre-advanced `pc` convention, with exact
//! expected register, CSR and memory values.

use riscvemu::bus::MEMORY_BASE;
use riscvemu::cpu::{Cpu, MEPC, MSTATUS, Mode, SEPC, SSTATUS};
use riscvemu::trap::{Exception, Trap};

/// A CPU over an empty program image, with `pc` as if the executed
/// instruction sat at the base of memory and was already fetched.
fn fresh() -> Cpu {
    let mut cpu = Cpu::new(Vec::new());
    cpu.pc = MEMORY_BASE + 4;
    cpu
}

fn r_type(f7: u64, rs2: u64, rs1: u64, f3: u64, rd: u64, op: u64) -> u64 {
    (f7 << 25) | (rs2 << 20) | (rs1 << 15) | (f3 << 12) | (rd << 7) | op
}

fn i_type(imm12: u64, rs1: u64, f3: u64, rd: u64, op: u64) -> u64 {
    ((imm12 & 0xfff) << 20) | (rs1 << 15) | (f3 << 12) | (rd << 7) | op
}

fn s_type(imm12: u64, rs2: u64, rs1: u64, f3: u64) -> u64 {
    (((imm12 >> 5) & 0x7f) << 25) | (rs2 << 20) | (rs1 << 15) | (f3 << 12) | ((imm12 & 0x1f) << 7)
        | 0x23
}

#[test]
fn addi_wraps() {
    let mut cpu = fresh();
    cpu.regs[5] = u64::MAX;
    assert_eq!(cpu.execute(i_type(1, 5, 0, 6, 0x13)), Ok(()));
    assert_eq!(cpu.regs[6], 0);
}

#[test]
fn slti_sltiu_signed_and_unsigned() {
    let mut cpu = fresh();
    cpu.regs[5] = u64::MAX;  // -1 signed, huge unsigned
    // slti x6, x5, 0: -1 < 0 signed.
    assert_eq!(cpu.execute(i_type(0, 5, 2, 6, 0x13)), Ok(()));
    assert_eq!(cpu.regs[6], 1);
    // sltiu x7, x5, 0: not below 0 unsigned.
    assert_eq!(cpu.execute(i_type(0, 5, 3, 7, 0x13)), Ok(()));
    assert_eq!(cpu.regs[7], 0);
    // sltiu x8, x0, -1: the immediate sign-extends to u64::MAX.
    assert_eq!(cpu.execute(i_type(0xfff, 0, 3, 8, 0x13)), Ok(()));
    assert_eq!(cpu.regs[8], 1);
}

#[test]
fn logic_immediates() {
    let mut cpu = fresh();
    cpu.regs[5] = 0xff00;
    assert_eq!(cpu.execute(i_type(0x0f0, 5, 4, 6, 0x13)), Ok(()));  // xori
    assert_eq!(cpu.regs[6], 0xfff0);
    assert_eq!(cpu.execute(i_type(0x00f, 5, 6, 7, 0x13)), Ok(()));  // ori
    assert_eq!(cpu.regs[7], 0xff0f);
    assert_eq!(cpu.execute(i_type(0xf00, 5, 7, 8, 0x13)), Ok(()));  // andi
    assert_eq!(cpu.regs[8], 0xff00);
}

#[test]
fn shifts_64() {
    let mut cpu = fresh();
    cpu.regs[5] = 0x8000_0000_0000_0001;
    // slli by 1.
    assert_eq!(cpu.execute(i_type(1, 5, 1, 6, 0x13)), Ok(()));
    assert_eq!(cpu.regs[6], 2);
    // srli by 63.
    assert_eq!(cpu.execute(i_type(63, 5, 5, 7, 0x13)), Ok(()));
    assert_eq!(cpu.regs[7], 1);
    // srai by 63: the sign fills everything.
    assert_eq!(cpu.execute(i_type((0x20 << 5) | 63, 5, 5, 8, 0x13)), Ok(()));
    assert_eq!(cpu.regs[8], u64::MAX);
    // srai by 0 keeps the value.
    assert_eq!(cpu.execute(i_type(0x20 << 5, 5, 5, 9, 0x13)), Ok(()));
    assert_eq!(cpu.regs[9], 0x8000_0000_0000_0001);
}

#[test]
fn word_immediates() {
    let mut cpu = fresh();
    cpu.regs[5] = 0x7fff_ffff;
    // addiw x6, x5, 1 overflows the word and sign-extends.
    assert_eq!(cpu.execute(i_type(1, 5, 0, 6, 0x1b)), Ok(()));
    assert_eq!(cpu.regs[6], 0xffff_ffff_8000_0000);
    // slliw x7, x5, 1: the word result 0xfffffffe sign-extends.
    assert_eq!(cpu.execute(i_type(1, 5, 1, 7, 0x1b)), Ok(()));
    assert_eq!(cpu.regs[7], 0xffff_ffff_ffff_fffe);
    cpu.regs[8] = 0x8000_0000;
    // srliw x9, x8, 0: the untouched sign bit still extends.
    assert_eq!(cpu.execute(i_type(0, 8, 5, 9, 0x1b)), Ok(()));
    assert_eq!(cpu.regs[9], 0xffff_ffff_8000_0000);
    // sraiw x10, x8, 1: arithmetic on the word.
    assert_eq!(cpu.execute(i_type((0x20 << 5) | 1, 8, 5, 10, 0x1b)), Ok(()));
    assert_eq!(cpu.regs[10], 0xffff_ffff_c000_0000);
}

#[test]
fn register_alu() {
    let mut cpu = fresh();
    cpu.regs[1] = 7;
    cpu.regs[2] = 3;
    assert_eq!(cpu.execute(r_type(0, 2, 1, 0, 5, 0x33)), Ok(()));  // add
    assert_eq!(cpu.regs[5], 10);
    assert_eq!(cpu.execute(r_type(0x20, 2, 1, 0, 6, 0x33)), Ok(()));  // sub
    assert_eq!(cpu.regs[6], 4);
    assert_eq!(cpu.execute(r_type(0, 2, 1, 1, 7, 0x33)), Ok(()));  // sll
    assert_eq!(cpu.regs[7], 56);
    assert_eq!(cpu.execute(r_type(0, 2, 1, 4, 8, 0x33)), Ok(()));  // xor
    assert_eq!(cpu.regs[8], 4);
    assert_eq!(cpu.execute(r_type(0, 2, 1, 6, 9, 0x33)), Ok(()));  // or
    assert_eq!(cpu.regs[9], 7);
    assert_eq!(cpu.execute(r_type(0, 2, 1, 7, 10, 0x33)), Ok(()));  // and
    assert_eq!(cpu.regs[10], 3);
}

#[test]
fn register_compare_and_shift() {
    let mut cpu = fresh();
    cpu.regs[1] = u64::MAX;  // -1 signed
    cpu.regs[2] = 1;
    assert_eq!(cpu.execute(r_type(0, 2, 1, 2, 5, 0x33)), Ok(()));  // slt
    assert_eq!(cpu.regs[5], 1);
    assert_eq!(cpu.execute(r_type(0, 2, 1, 3, 6, 0x33)), Ok(()));  // sltu
    assert_eq!(cpu.regs[6], 0);
    // srl by the low six bits of rs2.
    cpu.regs[3] = 0x8000_0000_0000_0000;
    cpu.regs[4] = 63;
    assert_eq!(cpu.execute(r_type(0, 4, 3, 5, 7, 0x33)), Ok(()));  // srl
    assert_eq!(cpu.regs[7], 1);
    assert_eq!(cpu.execute(r_type(0x20, 4, 3, 5, 8, 0x33)), Ok(()));  // sra
    assert_eq!(cpu.regs[8], u64::MAX);
}

#[test]
fn register_word_alu() {
    let mut cpu = fresh();
    cpu.regs[1] = 0xffff_ffff;
    cpu.regs[2] = 1;
    assert_eq!(cpu.execute(r_type(0, 2, 1, 0, 5, 0x3b)), Ok(()));  // addw
    assert_eq!(cpu.regs[5], 0);
    assert_eq!(cpu.execute(r_type(0x20, 1, 2, 0, 6, 0x3b)), Ok(()));  // subw: 1 - (-1)
    assert_eq!(cpu.regs[6], 2);
    cpu.regs[3] = 0x4000_0000;
    assert_eq!(cpu.execute(r_type(0, 2, 3, 1, 7, 0x3b)), Ok(()));  // sllw
    assert_eq!(cpu.regs[7], 0xffff_ffff_8000_0000);
    cpu.regs[4] = 0x8000_0000;
    assert_eq!(cpu.execute(r_type(0, 2, 4, 5, 8, 0x3b)), Ok(()));  // srlw
    assert_eq!(cpu.regs[8], 0x4000_0000);
    assert_eq!(cpu.execute(r_type(0x20, 2, 4, 5, 9, 0x3b)), Ok(()));  // sraw
    assert_eq!(cpu.regs[9], 0xffff_ffff_c000_0000);
}

#[test]
fn loads_extend_as_named() {
    let mut cpu = fresh();
    cpu.regs[10] = MEMORY_BASE + 0x100;
    cpu.regs[11] = 0xffff_ffff_ffff_8081;
    // sd x11, 0(x10), then reload with every width.
    assert_eq!(cpu.execute(s_type(0, 11, 10, 3)), Ok(()));
    assert_eq!(cpu.execute(i_type(0, 10, 0, 5, 0x03)), Ok(()));  // lb
    assert_eq!(cpu.regs[5], 0xffff_ffff_ffff_ff81);
    assert_eq!(cpu.execute(i_type(0, 10, 4, 6, 0x03)), Ok(()));  // lbu
    assert_eq!(cpu.regs[6], 0x81);
    assert_eq!(cpu.execute(i_type(0, 10, 1, 7, 0x03)), Ok(()));  // lh
    assert_eq!(cpu.regs[7], 0xffff_ffff_ffff_8081);
    assert_eq!(cpu.execute(i_type(0, 10, 5, 8, 0x03)), Ok(()));  // lhu
    assert_eq!(cpu.regs[8], 0x8081);
    assert_eq!(cpu.execute(i_type(0, 10, 2, 9, 0x03)), Ok(()));  // lw
    assert_eq!(cpu.regs[9], 0xffff_ffff_ffff_8081);
    assert_eq!(cpu.execute(i_type(0, 10, 6, 12, 0x03)), Ok(()));  // lwu
    assert_eq!(cpu.regs[12], 0xffff_8081);
    assert_eq!(cpu.execute(i_type(0, 10, 3, 13, 0x03)), Ok(()));  // ld
    assert_eq!(cpu.regs[13], 0xffff_ffff_ffff_8081);
}

#[test]
fn narrow_stores_leave_neighbours() {
    let mut cpu = fresh();
    cpu.regs[10] = MEMORY_BASE + 0x200;
    cpu.regs[11] = u64::MAX;
    assert_eq!(cpu.execute(s_type(0, 11, 10, 3)), Ok(()));  // sd
    cpu.regs[12] = 0x12;
    assert_eq!(cpu.execute(s_type(2, 12, 10, 0)), Ok(()));  // sb at +2
    assert_eq!(cpu.execute(i_type(0, 10, 3, 5, 0x03)), Ok(()));  // ld
    assert_eq!(cpu.regs[5], 0xffff_ffff_ff12_ffff);
    cpu.regs[13] = 0x3456;
    assert_eq!(cpu.execute(s_type(4, 13, 10, 1)), Ok(()));  // sh at +4
    assert_eq!(cpu.execute(i_type(0, 10, 3, 6, 0x03)), Ok(()));  // ld
    assert_eq!(cpu.regs[6], 0xffff_3456_ff12_ffff);
}

#[test]
fn jal_and_jalr() {
    let mut cpu = fresh();
    // jal x1, +16 from the instruction at MEMORY_BASE.
    let jal = (0u64 << 31) | ((16u64 >> 1) << 21) | (1 << 7) | 0x6f;
    assert_eq!(cpu.execute(jal), Ok(()));
    assert_eq!(cpu.regs[1], MEMORY_BASE + 4);
    assert_eq!(cpu.pc, MEMORY_BASE + 16);
    // jalr x2, 3(x5): the low bit of the target is cleared.
    cpu.pc = MEMORY_BASE + 4;
    cpu.regs[5] = MEMORY_BASE + 0x40;
    assert_eq!(cpu.execute(i_type(3, 5, 0, 2, 0x67)), Ok(()));
    assert_eq!(cpu.regs[2], MEMORY_BASE + 4);
    assert_eq!(cpu.pc, MEMORY_BASE + 0x42);
}

#[test]
fn lui_sign_extends() {
    let mut cpu = fresh();
    let lui = (0xfffffu64 << 12) | (5 << 7) | 0x37;
    assert_eq!(cpu.execute(lui), Ok(()));
    assert_eq!(cpu.regs[5], 0xffff_ffff_ffff_f000);
}

#[test]
fn csr_read_modify_write() {
    let mut cpu = fresh();
    cpu.regs[5] = 0xabcd;
    // csrrw x6, mscratch, x5 reads the old value.
    assert_eq!(cpu.execute(i_type(0x340, 5, 1, 6, 0x73)), Ok(()));
    assert_eq!(cpu.regs[6], 0);
    // csrrs x7, mscratch, x0 reads without setting.
    assert_eq!(cpu.execute(i_type(0x340, 0, 2, 7, 0x73)), Ok(()));
    assert_eq!(cpu.regs[7], 0xabcd);
    // csrrc x8, mscratch, x5 clears every set bit.
    assert_eq!(cpu.execute(i_type(0x340, 5, 3, 8, 0x73)), Ok(()));
    assert_eq!(cpu.regs[8], 0xabcd);
    assert_eq!(cpu.execute(i_type(0x340, 0, 2, 9, 0x73)), Ok(()));
    assert_eq!(cpu.regs[9], 0);
    // csrrwi mscratch, 21; csrrsi adds bit 1; csrrci clears bit 0.
    assert_eq!(cpu.execute(i_type(0x340, 21, 5, 0, 0x73)), Ok(()));
    assert_eq!(cpu.execute(i_type(0x340, 2, 6, 10, 0x73)), Ok(()));
    assert_eq!(cpu.regs[10], 21);
    assert_eq!(cpu.execute(i_type(0x340, 1, 7, 11, 0x73)), Ok(()));
    assert_eq!(cpu.regs[11], 23);
    assert_eq!(cpu.execute(i_type(0x340, 0, 2, 12, 0x73)), Ok(()));
    assert_eq!(cpu.regs[12], 22);
}

#[test]
fn mret_decodes_mpp() {
    let mret = 0x3020_0073u64;
    // MPP = 3: back to Machine mode, MIE from MPIE.
    let mut cpu = fresh();
    cpu.csrs[MSTATUS] = (3 << 11) | (1 << 7);
    cpu.csrs[MEPC] = 0x8000_0040;
    assert_eq!(cpu.execute(mret), Ok(()));
    assert_eq!(cpu.mode, Mode::Machine);
    assert_eq!(cpu.pc, 0x8000_0040);
    assert_eq!((cpu.csrs[MSTATUS] >> 3) & 1, 1);  // MIE = old MPIE
    assert_eq!((cpu.csrs[MSTATUS] >> 7) & 1, 1);  // MPIE set
    assert_eq!((cpu.csrs[MSTATUS] >> 11) & 3, 0);  // MPP cleared
    // MPP = 1: Supervisor.
    let mut cpu = fresh();
    cpu.csrs[MSTATUS] = 1 << 11;
    assert_eq!(cpu.execute(mret), Ok(()));
    assert_eq!(cpu.mode, Mode::Supervisor);
    assert_eq!((cpu.csrs[MSTATUS] >> 3) & 1, 0);
    // MPP = 2 decodes to User.
    let mut cpu = fresh();
    cpu.csrs[MSTATUS] = 2 << 11;
    assert_eq!(cpu.execute(mret), Ok(()));
    assert_eq!(cpu.mode, Mode::User);
}

#[test]
fn sret_pops_the_interrupt_stack() {
    let sret = 0x1020_0073u64;
    let mut cpu = fresh();
    cpu.mode = Mode::Supervisor;
    cpu.csrs[SSTATUS] = (1 << 8) | (1 << 5);  // SPP = 1, SPIE = 1
    cpu.csrs[SEPC] = 0x8000_0080;
    assert_eq!(cpu.execute(sret), Ok(()));
    assert_eq!(cpu.mode, Mode::Supervisor);
    assert_eq!(cpu.pc, 0x8000_0080);
    assert_eq!((cpu.csrs[SSTATUS] >> 1) & 1, 1);  // SIE = old SPIE
    assert_eq!((cpu.csrs[SSTATUS] >> 5) & 1, 1);  // SPIE set
    assert_eq!((cpu.csrs[SSTATUS] >> 8) & 1, 0);  // SPP cleared
    // SPP = 0: back to User mode.
    let mut cpu = fresh();
    cpu.mode = Mode::Supervisor;
    cpu.csrs[SSTATUS] = 0;
    assert_eq!(cpu.execute(sret), Ok(()));
    assert_eq!(cpu.mode, Mode::User);
}

#[test]
fn environment_calls_name_the_mode() {
    let ecall = 0x0000_0073u64;
    let mut cpu = fresh();
    cpu.mode = Mode::User;
    assert_eq!(cpu.execute(ecall), Err(Exception::EnvironmentCallFromUMode));
    cpu.mode = Mode::Supervisor;
    assert_eq!(cpu.execute(ecall), Err(Exception::EnvironmentCallFromSMode));
    cpu.mode = Mode::Machine;
    assert_eq!(cpu.execute(ecall), Err(Exception::EnvironmentCallFromMMode));
}

#[test]
fn ebreak_and_fence_and_sfence() {
    let mut cpu = fresh();
    assert_eq!(cpu.execute(0x0010_0073), Err(Exception::Breakpoint));
    assert_eq!(cpu.execute(0x0000_000f), Ok(()));  // fence
    assert_eq!(cpu.execute(0x1200_0073), Ok(()));  // sfence.vma
}

#[test]
fn illegal_instructions_are_rejected() {
    let mut cpu = fresh();
    // An opcode outside the supported set.
    assert_eq!(cpu.execute(0x0000_0057), Err(Exception::IllegalInstruction));
    // A handled opcode with an unknown sub-case: srai's funct7 corrupted.
    assert_eq!(
        cpu.execute(i_type((0x15 << 5) | 1, 5, 5, 6, 0x13)),
        Err(Exception::IllegalInstruction)
    );
    // fence with an unknown funct3.
    assert_eq!(cpu.execute(0x0000_100f), Err(Exception::IllegalInstruction));
    // A system instruction with funct3 = 4.
    assert_eq!(cpu.execute(i_type(0, 0, 4, 0, 0x73)), Err(Exception::IllegalInstruction));
}

#[test]
fn access_faults_reach_the_caller() {
    let mut cpu = fresh();
    // x5 = 0: loads and stores far below every window fault.
    assert_eq!(cpu.execute(i_type(0, 5, 0, 6, 0x03)), Err(Exception::LoadAccessFault));
    assert_eq!(cpu.execute(s_type(0, 6, 5, 0)), Err(Exception::StoreAMOAccessFault));
    // A load running off the end of memory faults.
    cpu.regs[7] = MEMORY_BASE + 128 * 1024 * 1024 - 4;
    assert_eq!(cpu.execute(i_type(0, 7, 3, 8, 0x03)), Err(Exception::LoadAccessFault));
}

#[test]
fn amo_add_and_swap() {
    let mut cpu = fresh();
    let a = MEMORY_BASE + 0x300;
    cpu.regs[10] = a;
    cpu.regs[11] = 100;
    assert_eq!(cpu.execute(s_type(0, 11, 10, 3)), Ok(()));  // sd 100
    cpu.regs[12] = 5;
    // amoadd.d x13, x12, (x10)
    assert_eq!(cpu.execute(r_type(0, 12, 10, 3, 13, 0x2f)), Ok(()));
    assert_eq!(cpu.regs[13], 100);
    assert_eq!(cpu.execute(i_type(0, 10, 3, 14, 0x03)), Ok(()));  // ld
    assert_eq!(cpu.regs[14], 105);
    // amoswap.d x15, x12, (x10)
    assert_eq!(cpu.execute(r_type(0x04, 12, 10, 3, 15, 0x2f)), Ok(()));
    assert_eq!(cpu.regs[15], 105);
    assert_eq!(cpu.execute(i_type(0, 10, 3, 16, 0x03)), Ok(()));
    assert_eq!(cpu.regs[16], 5);
    // amoadd.w truncates the stored word and returns the old word raw.
    cpu.regs[17] = 0xffff_fff0;
    assert_eq!(cpu.execute(s_type(8, 17, 10, 2)), Ok(()));  // sw at +8
    cpu.regs[18] = a + 8;
    cpu.regs[19] = 0x11;
    assert_eq!(cpu.execute(r_type(0, 19, 18, 2, 20, 0x2f)), Ok(()));  // amoadd.w
    assert_eq!(cpu.regs[20], 0xffff_fff0);
    assert_eq!(cpu.execute(i_type(0, 18, 6, 21, 0x03)), Ok(()));  // lwu
    assert_eq!(cpu.regs[21], 1);
}

fn b_type(imm13: u64, rs2: u64, rs1: u64, f3: u64) -> u64 {
    (((imm13 >> 12) & 1) << 31) | (((imm13 >> 5) & 0x3f) << 25) | (rs2 << 20) | (rs1 << 15)
        | (f3 << 12) | (((imm13 >> 1) & 0xf) << 8) | (((imm13 >> 11) & 1) << 7) | 0x63
}

#[test]
fn branch_conditions() {
    // Each condition once taken and once not, with a +16 displacement from
    // the branch at MEMORY_BASE.
    let taken = MEMORY_BASE + 16;
    let not_taken = MEMORY_BASE + 4;
    let cases: &[(u64, u64, u64, bool)] = &[
        (0, 5, 5, true),            // beq
        (0, 5, 6, false),
        (1, 5, 6, true),            // bne
        (1, 5, 5, false),
        (4, 7, 5, true),            // blt: -1 < 5 signed
        (4, 5, 7, false),
        (5, 5, 7, true),            // bge: 5 >= -1 signed
        (5, 7, 5, false),
        (6, 5, 7, true),            // bltu: 5 < max unsigned
        (6, 7, 5, false),
        (7, 7, 5, true),            // bgeu
        (7, 5, 7, false),
    ];
    for &(f3, rs1, rs2, expect_taken) in cases {
        let mut cpu = fresh();
        cpu.regs[5] = 5;
        cpu.regs[6] = 6;
        cpu.regs[7] = u64::MAX;  // -1 signed
        assert_eq!(cpu.execute(b_type(16, rs2, rs1, f3)), Ok(()));
        let expected = if expect_taken { taken } else { not_taken };
        assert_eq!(cpu.pc, expected, "funct3 {} rs1 x{} rs2 x{}", f3, rs1, rs2);
    }
}

#[test]
fn branch_backwards() {
    // beq x0, x0, -8 from the branch at MEMORY_BASE + 8.
    let mut cpu = fresh();
    cpu.pc = MEMORY_BASE + 12;  // pre-advanced past the branch
    let imm: u64 = (-8i64 as u64) & 0x1fff;
    assert_eq!(cpu.execute(b_type(imm, 0, 0, 0)), Ok(()));
    assert_eq!(cpu.pc, MEMORY_BASE);
}

#[test]
fn amoswap_word() {
    let mut cpu = fresh();
    let a = MEMORY_BASE + 0x400;
    cpu.regs[10] = a;
    cpu.regs[11] = 0x8000_0001;
    assert_eq!(cpu.execute(s_type(0, 11, 10, 2)), Ok(()));  // sw
    cpu.regs[12] = 0x7777;
    // amoswap.w x13, x12, (x10): the old word comes back raw.
    assert_eq!(cpu.execute(r_type(0x04, 12, 10, 2, 13, 0x2f)), Ok(()));
    assert_eq!(cpu.regs[13], 0x8000_0001);
    assert_eq!(cpu.execute(i_type(0, 10, 6, 14, 0x03)), Ok(()));  // lwu
    assert_eq!(cpu.regs[14], 0x7777);
}

#[test]
fn register_zero_stays_zero() {
    let mut cpu = fresh();
    // addi x0, x0, 5 is allowed, but x0 still reads zero.
    assert_eq!(cpu.execute(i_type(5, 0, 0, 0, 0x13)), Ok(()));
    assert_eq!(cpu.regs[0], 0);
    // jal x0, +8 likewise discards the link value.
    let jal = ((8u64 >> 1) << 21) | 0x6f;
    assert_eq!(cpu.execute(jal), Ok(()));
    assert_eq!(cpu.regs[0], 0);
    // csrrw x0, mscratch, x0 likewise.
    assert_eq!(cpu.execute(i_type(0x340, 0, 1, 0, 0x73)), Ok(()));
    assert_eq!(cpu.regs[0], 0);
}

#[test]
fn trap_masks_the_epc_low_bit() {
    let mut cpu = fresh();
    cpu.pc = 0x8000_0005;  // the faulting instruction sat at 0x8000_0001
    Exception::Breakpoint.take_trap(&mut cpu);
    assert_eq!(cpu.csrs[MEPC], 0x8000_0000);
    assert_eq!(cpu.csrs[MEPC] & 1, 0);
    // The same under delegation.
    let mut cpu = fresh();
    cpu.mode = Mode::User;
    cpu.csrs[riscvemu::cpu::MEDELEG] = 1 << 3;
    cpu.pc = 0x8000_0005;
    Exception::Breakpoint.take_trap(&mut cpu);
    assert_eq!(cpu.csrs[SEPC], 0x8000_0000);
    assert_eq!(cpu.csrs[SEPC] & 1, 0);
}

#[test]
fn trap_records_the_interrupted_mode() {
    // A delegated trap from Supervisor mode sets SPP.
    let mut cpu = fresh();
    cpu.mode = Mode::Supervisor;
    cpu.csrs[riscvemu::cpu::MEDELEG] = 1 << 3;
    Exception::Breakpoint.take_trap(&mut cpu);
    assert_eq!(cpu.mode, Mode::Supervisor);
    assert_eq!((cpu.csrs[SSTATUS] >> 8) & 1, 1);
    // A machine trap leaves MPP at the interrupted mode's code, for each
    // of the three modes.
    for (mode, code) in [(Mode::User, 0), (Mode::Supervisor, 1), (Mode::Machine, 3)] {
        let mut cpu = fresh();
        cpu.mode = mode;
        cpu.csrs[MSTATUS] = 2 << 11;  // a stale MPP is overwritten
        Exception::Breakpoint.take_trap(&mut cpu);
        assert_eq!(cpu.mode, Mode::Machine);
        assert_eq!((cpu.csrs[MSTATUS] >> 11) & 3, code);
    }
}
