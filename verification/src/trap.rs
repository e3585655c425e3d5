//! Exceptions raised by the interpreter and the bus, together with their
//! RISC-V cause codes.

use vstd::prelude::*;

use crate::cpu::{
    Cpu, CpuState, MCAUSE, MEDELEG, MEPC, MSTATUS, MTVAL, MTVEC, Mode, SCAUSE, SEPC, SSTATUS,
    STVAL, STVEC, cpu_wf, mode_code,
};

verus! {

/// A synchronous exception: an unusual condition at run time associated
/// with an instruction of the current hart.
#[derive(Clone, Copy, Debug, PartialEq, Eq, Structural)]
pub enum Exception {
    InstructionAddressMisaligned,
    InstructionAccessFault,
    IllegalInstruction,
    Breakpoint,
    LoadAddressMisaligned,
    LoadAccessFault,
    StoreAMOAddressMisaligned,
    StoreAMOAccessFault,
    EnvironmentCallFromUMode,
    EnvironmentCallFromSMode,
    EnvironmentCallFromMMode,
    InstructionPageFault,
    LoadPageFault,
    StoreAMOPageFault,
}

/// An asynchronous interrupt, as found pending by the pre-fetch check.
#[derive(Clone, Copy, Debug, PartialEq, Eq, Structural)]
pub enum Interrupt {
    SupervisorSoftwareInterrupt,
    MachineSoftwareInterrupt,
    SupervisorTimerInterrupt,
    MachineTimerInterrupt,
    SupervisorExternalInterrupt,
    MachineExternalInterrupt,
}

/// The fixed RISC-V cause code of each exception kind.
pub open spec fn spec_exception_code(e: Exception) -> u64 {
    match e {
        Exception::InstructionAddressMisaligned => 0,
        Exception::InstructionAccessFault => 1,
        Exception::IllegalInstruction => 2,
        Exception::Breakpoint => 3,
        Exception::LoadAddressMisaligned => 4,
        Exception::LoadAccessFault => 5,
        Exception::StoreAMOAddressMisaligned => 6,
        Exception::StoreAMOAccessFault => 7,
        Exception::EnvironmentCallFromUMode => 8,
        Exception::EnvironmentCallFromSMode => 9,
        Exception::EnvironmentCallFromMMode => 11,
        Exception::InstructionPageFault => 12,
        Exception::LoadPageFault => 13,
        Exception::StoreAMOPageFault => 15,
    }
}

/// Whether a trap with this cause, raised in this state, is delegated to
/// Supervisor mode: the interrupted mode is below Machine and the cause's
/// bit is set in `medeleg`.
pub open spec fn spec_trap_delegated(s: CpuState, cause: u64) -> bool {
    s.mode != Mode::Machine && (s.csrs[MEDELEG as int] >> cause) & 1 != 0
}

/// The state after trap delivery. The exception PC is the address of the
/// interrupted instruction, the pre-advanced `pc` less four. Delivery
/// writes the chosen mode's EPC (low bit masked), cause and trap-value
/// CSRs, jumps to its trap vector (low bit masked), pushes its
/// interrupt-enable stack in the status CSR, and records the interrupted
/// mode there (`SPP`, or `MPP`).
pub open spec fn spec_take_trap(s: CpuState, cause: u64) -> CpuState {
    let epc = s.pc.wrapping_sub(4);
    if spec_trap_delegated(s, cause) {
        // Handle the trap in S-mode.
        let st = s.csrs[SSTATUS as int];
        // SPIE (bit 5) from SIE (bit 1); SIE cleared; SPP (bit 8) zero
        // when the trap came from User mode, one otherwise.
        let st1 = if (st >> 1) & 1 == 1 {
            st | 0x20
        } else {
            st & !0x20u64
        };
        let st2 = st1 & !2u64;
        let st3 = if s.mode == Mode::User {
            st2 & !0x100u64
        } else {
            st2 | 0x100
        };
        CpuState {
            mode: Mode::Supervisor,
            pc: s.csrs[STVEC as int] & !1u64,
            csrs: s.csrs.update(SEPC as int, epc & !1u64).update(SCAUSE as int, cause).update(
                STVAL as int,
                0u64,
            ).update(SSTATUS as int, st3),
            ..s
        }
    } else {
        // Handle the trap in M-mode.
        let st = s.csrs[MSTATUS as int];
        // MPIE (bit 7) from MIE (bit 3); MIE cleared; MPP (bits 12:11) set
        // to the code of the interrupted mode.
        let st1 = if (st >> 3) & 1 == 1 {
            st | 0x80
        } else {
            st & !0x80u64
        };
        let st2 = ((st1 & !8u64) & !0x1800u64) | (mode_code(s.mode) << 11);
        CpuState {
            mode: Mode::Machine,
            pc: s.csrs[MTVEC as int] & !1u64,
            csrs: s.csrs.update(MEPC as int, epc & !1u64).update(MCAUSE as int, cause).update(
                MTVAL as int,
                0u64,
            ).update(MSTATUS as int, st2),
            ..s
        }
    }
}

/// The transfer of control to a trap handler.
pub trait Trap {
    /// The fixed cause code of this trap.
    spec fn spec_code(&self) -> u64;

    /// Returns the cause code identifying the trap.
    fn exception_code(&self) -> (code: u64)
        ensures
            code == self.spec_code(),
    ;

    /// Delivers the trap: chooses the handling mode, updates its EPC,
    /// cause, trap-value and status CSRs, and jumps to its trap vector.
    fn take_trap(&self, cpu: &mut Cpu)
        requires
            old(cpu).wf(),
            self.spec_code() < 64,
        ensures
            final(cpu).wf(),
            final(cpu)@ == spec_take_trap(old(cpu)@, self.spec_code()),
    ;
}

impl Trap for Exception {
    open spec fn spec_code(&self) -> u64 {
        spec_exception_code(*self)
    }

    fn exception_code(&self) -> (code: u64) {
        match self {
            Exception::InstructionAddressMisaligned => 0,
            Exception::InstructionAccessFault => 1,
            Exception::IllegalInstruction => 2,
            Exception::Breakpoint => 3,
            Exception::LoadAddressMisaligned => 4,
            Exception::LoadAccessFault => 5,
            Exception::StoreAMOAddressMisaligned => 6,
            Exception::StoreAMOAccessFault => 7,
            Exception::EnvironmentCallFromUMode => 8,
            Exception::EnvironmentCallFromSMode => 9,
            Exception::EnvironmentCallFromMMode => 11,
            Exception::InstructionPageFault => 12,
            Exception::LoadPageFault => 13,
            Exception::StoreAMOPageFault => 15,
        }
    }

    fn take_trap(&self, cpu: &mut Cpu) {
        // The address of the interrupted instruction: the driver loop
        // pre-advanced pc past it.
        let exception_pc = cpu.pc.wrapping_sub(4);
        let previous_mode = cpu.mode;
        let cause = self.exception_code();
        if previous_mode != Mode::Machine && (cpu.csrs[MEDELEG] >> cause) & 1 != 0 {
            // Handle the trap in S-mode.
            cpu.pc = cpu.csrs[STVEC] & !1u64;
            // The low bit of sepc is always zero.
            cpu.csrs[SEPC] = exception_pc & !1u64;
            cpu.csrs[SCAUSE] = cause;
            // No fault-address plumbing: stval is set to zero.
            cpu.csrs[STVAL] = 0;
            let st = cpu.csrs[SSTATUS];
            // SPIE (bit 5) from SIE (bit 1).
            let st1 = if (st >> 1) & 1 == 1 {
                st | 0x20
            } else {
                st & !0x20u64
            };
            // SIE cleared.
            let st2 = st1 & !2u64;
            // SPP (bit 8) zero when the trap came from User mode, one
            // otherwise.
            let st3 = if matches!(previous_mode, Mode::User) {
                st2 & !0x100u64
            } else {
                st2 | 0x100
            };
            cpu.csrs[SSTATUS] = st3;
            cpu.mode = Mode::Supervisor;
        } else {
            // Handle the trap in M-mode.
            cpu.pc = cpu.csrs[MTVEC] & !1u64;
            // The low bit of mepc is always zero.
            cpu.csrs[MEPC] = exception_pc & !1u64;
            cpu.csrs[MCAUSE] = cause;
            // No fault-address plumbing: mtval is set to zero.
            cpu.csrs[MTVAL] = 0;
            let st = cpu.csrs[MSTATUS];
            // MPIE (bit 7) from MIE (bit 3).
            let st1 = if (st >> 3) & 1 == 1 {
                st | 0x80
            } else {
                st & !0x80u64
            };
            // MIE cleared; MPP (bits 12:11) set to the code of the
            // interrupted mode.
            let mpp: u64 = match previous_mode {
                Mode::User => 0,
                Mode::Supervisor => 1,
                Mode::Machine => 3,
            };
            let st2 = ((st1 & !8u64) & !0x1800u64) | (mpp << 11);
            cpu.csrs[MSTATUS] = st2;
            cpu.mode = Mode::Machine;
        }
    }
}

/// Every exception code fits in the six bits a delegation shift uses.
pub proof fn lemma_exception_code_bounded(e: Exception)
    ensures
        spec_exception_code(e) < 64,
{
}

/// Every delivered trap leaves an even exception PC in the EPC CSR of the
/// mode it was delivered in: `sepc` for a delegated trap, `mepc`
/// otherwise.
pub proof fn lemma_trap_epc_even(s: CpuState, cause: u64)
    requires
        cpu_wf(s),
        cause < 64,
    ensures
        spec_trap_delegated(s, cause) ==> spec_take_trap(s, cause).csrs[SEPC as int] & 1 == 0,
        !spec_trap_delegated(s, cause) ==> spec_take_trap(s, cause).csrs[MEPC as int] & 1 == 0,
{
    let epc = s.pc.wrapping_sub(4);
    assert((epc & !1u64) & 1 == 0) by (bit_vector);
}

/// On a delegated (supervisor) trap entry, `sstatus.SPP` encodes the
/// interrupted mode: one from Supervisor, zero from User. On a machine
/// trap entry, `mstatus.MPP` encodes the interrupted mode, whichever of
/// the three it was.
pub proof fn lemma_trap_status_encodes_mode(s: CpuState, cause: u64)
    requires
        cpu_wf(s),
        cause < 64,
    ensures
        spec_trap_delegated(s, cause) ==> (spec_take_trap(s, cause).csrs[SSTATUS as int] >> 8) & 1
            == (if s.mode == Mode::Supervisor {
            1u64
        } else {
            0u64
        }),
        !spec_trap_delegated(s, cause) ==> (spec_take_trap(s, cause).csrs[MSTATUS as int] >> 11) & 3
            == mode_code(s.mode),
{
    if spec_trap_delegated(s, cause) {
        let st = s.csrs[SSTATUS as int];
        let st1 = if (st >> 1) & 1 == 1 {
            st | 0x20
        } else {
            st & !0x20u64
        };
        let st2 = st1 & !2u64;
        assert(((st2 | 0x100) >> 8) & 1 == 1) by (bit_vector);
        assert(((st2 & !0x100u64) >> 8) & 1 == 0) by (bit_vector);
    } else {
        let st = s.csrs[MSTATUS as int];
        let st1 = if (st >> 3) & 1 == 1 {
            st | 0x80
        } else {
            st & !0x80u64
        };
        let c = mode_code(s.mode);
        assert(((((st1 & !8u64) & !0x1800u64) | (c << 11)) >> 11) & 3 == c) by (bit_vector)
            requires
                c < 4,
        ;
    }
}

} // verus!
