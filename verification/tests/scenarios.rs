//! End-to-end programs run through the driver step: small instruction
//! sequences loaded at the base of memory and executed until the loop
//! stops.

use riscvemu::bus::MEMORY_BASE;
use riscvemu::cpu::{Cpu, MCAUSE, MEDELEG, MEPC, MSTATUS, Mode, SCAUSE, SEPC, SSTATUS};

/// Lays out 32-bit instruction words as a little-endian program image.
fn image(words: &[u32]) -> Vec<u8> {
    let mut bytes = Vec::new();
    for w in words {
        bytes.extend_from_slice(&w.to_le_bytes());
    }
    bytes
}

/// Runs the driver loop, bounded, until it stops.
fn run(cpu: &mut Cpu, max_steps: usize) {
    for _ in 0..max_steps {
        if !cpu.step().0 {
            break;
        }
    }
}

fn csrrw(csr: u32, rs1: u32) -> u32 {
    (csr << 20) | (rs1 << 15) | (1 << 12) | 0x73
}

fn addi(rd: u32, rs1: u32, imm12: u32) -> u32 {
    ((imm12 & 0xfff) << 20) | (rs1 << 15) | (rd << 7) | 0x13
}

fn auipc(rd: u32, imm20: u32) -> u32 {
    (imm20 << 12) | (rd << 7) | 0x17
}

const MRET: u32 = 0x3020_0073;
const ECALL: u32 = 0x0000_0073;

#[test]
fn addi_chain() {
    // addi x29, x0, 5 ; addi x30, x0, 37 ; add x31, x30, x29
    let mut cpu = Cpu::new(image(&[0x00500E93, 0x02500F13, 0x01DF0FB3]));
    run(&mut cpu, 100);
    assert_eq!(cpu.regs[29], 5);
    assert_eq!(cpu.regs[30], 37);
    assert_eq!(cpu.regs[31], 42);
}

#[test]
fn lui_auipc_jal() {
    // lui x5, 0x12345 ; auipc x6, 0 ; jal x0, +8
    let mut cpu = Cpu::new(image(&[0x1234_52B7, 0x0000_0317, 0x0080_006F]));
    assert!(cpu.step().0);
    assert!(cpu.step().0);
    assert!(cpu.step().0);
    assert_eq!(cpu.regs[5], 0x0000_0000_1234_5000);
    // The address of the auipc instruction itself.
    assert_eq!(cpu.regs[6], 0x8000_0004);
    // The jump from 0x8000_0008 by +8.
    assert_eq!(cpu.pc, 0x8000_0010);
}

#[test]
fn store_load_round_trip() {
    // addi x11, x0, -1 ; sd x11, 0(x10) ; ld x12, 0(x10)
    let mut cpu = Cpu::new(image(&[0xFFF0_0593, 0x00B5_3023, 0x0005_3603]));
    cpu.regs[10] = 0x8000_1000;
    run(&mut cpu, 100);
    assert_eq!(cpu.regs[11], 0xFFFF_FFFF_FFFF_FFFF);
    assert_eq!(cpu.regs[12], 0xFFFF_FFFF_FFFF_FFFF);
}

#[test]
fn branch_taken() {
    // bne x1, x2, +8 with x1 != x2: pc advances by 8.
    let mut cpu = Cpu::new(image(&[0x0020_9463]));
    cpu.regs[1] = 1;
    cpu.regs[2] = 2;
    assert!(cpu.step().0);
    assert_eq!(cpu.pc, MEMORY_BASE + 8);
}

#[test]
fn branch_not_taken() {
    // bne x1, x2, +8 with x1 == x2: pc advances by 4.
    let mut cpu = Cpu::new(image(&[0x0020_9463]));
    cpu.regs[1] = 7;
    cpu.regs[2] = 7;
    assert!(cpu.step().0);
    assert_eq!(cpu.pc, MEMORY_BASE + 4);
}

#[test]
fn ecall_from_user_mode() {
    // Enter User mode via mret with mstatus.MPP = 0 and mepc pointing at
    // an ecall, then take the environment call in Machine mode.
    let program = [
        auipc(5, 0),             // x5 = 0x8000_0000
        addi(5, 5, 16),          // x5 = 0x8000_0010
        csrrw(0x341, 5),         // mepc = x5
        MRET,                    // mode = User, pc = 0x8000_0010
        ECALL,                   // at 0x8000_0010
    ];
    let mut cpu = Cpu::new(image(&program));
    run(&mut cpu, 100);
    assert_eq!(cpu.mode, Mode::Machine);
    assert_eq!(cpu.csrs[MCAUSE], 8);
    assert_eq!(cpu.csrs[MEPC], 0x8000_0010);
    // pc = mtvec & !1, and mtvec was never written.
    assert_eq!(cpu.pc, 0);
    // MIE clear, MPIE = the MIE before the trap (clear), MPP = 0: the
    // code of the interrupted User mode.
    assert_eq!((cpu.csrs[MSTATUS] >> 3) & 1, 0);
    assert_eq!((cpu.csrs[MSTATUS] >> 7) & 1, 0);
    assert_eq!((cpu.csrs[MSTATUS] >> 11) & 3, 0);
}

#[test]
fn ecall_from_user_mode_delegated() {
    // With medeleg bit 8 set, the same environment call lands in
    // Supervisor mode.
    let program = [
        addi(6, 0, 256),         // x6 = 0x100: delegate cause 8
        csrrw(0x302, 6),         // medeleg = x6
        auipc(5, 0),             // x5 = 0x8000_0008
        addi(5, 5, 16),          // x5 = 0x8000_0018
        csrrw(0x341, 5),         // mepc = x5
        MRET,                    // mode = User, pc = 0x8000_0018
        ECALL,                   // at 0x8000_0018
    ];
    let mut cpu = Cpu::new(image(&program));
    run(&mut cpu, 100);
    assert_eq!(cpu.mode, Mode::Supervisor);
    assert_eq!(cpu.csrs[MEDELEG], 0x100);
    assert_eq!(cpu.csrs[SCAUSE], 8);
    assert_eq!(cpu.csrs[SEPC], 0x8000_0018);
    // pc = stvec & !1, and stvec was never written.
    assert_eq!(cpu.pc, 0);
    // SIE clear and SPP = 0: the trap came from User mode.
    assert_eq!((cpu.csrs[SSTATUS] >> 1) & 1, 0);
    assert_eq!((cpu.csrs[SSTATUS] >> 8) & 1, 0);
}
