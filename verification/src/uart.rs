//! The UART: a 256-byte register window accessed with 8-bit loads and
//! stores, a receive path for bytes arriving from outside, and an
//! external-interrupt flag the interrupt check polls.

use vstd::prelude::*;

use crate::bus::{Device, UART_BASE, UART_SIZE};
use crate::trap::Exception;

verus! {

/// The interrupt request number of the UART.
pub const UART_IRQ: u64 = 10;

/// Offset of the receive-holding register inside the window.
pub const UART_RHR_OFFSET: u64 = 0;
/// Offset of the line-status register inside the window.
pub const UART_LSR_OFFSET: u64 = 5;
/// Receive-ready bit of the line-status register.
pub const UART_LSR_RX: u8 = 1;

/// The UART's register window and interrupt flag.
pub struct Uart {
    pub regs: Vec<u8>,
    pub interrupting: bool,
}

/// The mathematical contents of the UART.
pub ghost struct UartState {
    pub regs: Seq<u8>,
    pub interrupting: bool,
}

impl View for Uart {
    type V = UartState;

    open spec fn view(&self) -> UartState {
        UartState { regs: self.regs@, interrupting: self.interrupting }
    }
}

/// The register window of a freshly constructed UART: all bytes clear.
pub open spec fn uart_init_regs() -> Seq<u8> {
    Seq::new(UART_SIZE as nat, |i: int| 0u8)
}

impl Uart {
    /// A UART with a cleared register window and no interrupt pending.
    pub fn new() -> (r: Uart)
        ensures
            r.inv(),
            r@ == (UartState { regs: uart_init_regs(), interrupting: false }),
    {
        let regs: Vec<u8> = vec![0u8; UART_SIZE as usize];
        assert forall|j: int| 0 <= j < UART_SIZE implies regs@[j] == 0 by {
            assert(cloned(0u8, regs@[j]));
        }
        assert(regs@ =~= uart_init_regs());
        Uart { regs, interrupting: false }
    }

    /// Hands the UART a byte received from outside: it lands in the
    /// receive-holding register, the receive-ready bit goes up, and an
    /// external interrupt is signalled.
    pub fn receive_byte(&mut self, byte: u8)
        requires
            old(self).inv(),
        ensures
            final(self).inv(),
            final(self)@ == (UartState {
                regs: old(self)@.regs.update(UART_RHR_OFFSET as int, byte).update(
                    UART_LSR_OFFSET as int,
                    old(self)@.regs[UART_LSR_OFFSET as int] | UART_LSR_RX,
                ),
                interrupting: true,
            }),
    {
        let lsr = self.regs[UART_LSR_OFFSET as usize];
        self.regs[UART_RHR_OFFSET as usize] = byte;
        self.regs[UART_LSR_OFFSET as usize] = lsr | UART_LSR_RX;
        self.interrupting = true;
    }

    /// Polls and clears the external-interrupt flag.
    pub fn is_interrupting(&mut self) -> (r: bool)
        requires
            old(self).inv(),
        ensures
            final(self).inv(),
            r == old(self)@.interrupting,
            final(self)@ == (UartState { regs: old(self)@.regs, interrupting: false }),
    {
        let r = self.interrupting;
        self.interrupting = false;
        r
    }
}

impl Device for Uart {
    open spec fn inv(&self) -> bool {
        self.regs@.len() == UART_SIZE
    }

    open spec fn spec_load(v: UartState, addr: u64, size: u64) -> Result<u64, Exception> {
        if size == 8 && UART_BASE <= addr && addr < UART_BASE + UART_SIZE {
            Ok(v.regs[addr - UART_BASE] as u64)
        } else {
            Err(Exception::LoadAccessFault)
        }
    }

    open spec fn spec_store(v: UartState, addr: u64, size: u64, value: u64) -> Result<
        UartState,
        Exception,
    > {
        if size == 8 && UART_BASE <= addr && addr < UART_BASE + UART_SIZE {
            Ok(UartState { regs: v.regs.update(addr - UART_BASE, value as u8), ..v })
        } else {
            Err(Exception::StoreAMOAccessFault)
        }
    }

    fn load(&mut self, addr: u64, size: u64) -> (r: Result<u64, Exception>) {
        if size == 8 && UART_BASE <= addr && addr < UART_BASE + UART_SIZE {
            Ok(self.regs[(addr - UART_BASE) as usize] as u64)
        } else {
            Err(Exception::LoadAccessFault)
        }
    }

    fn store(&mut self, addr: u64, size: u64, value: u64) -> (r: Result<(), Exception>) {
        if size == 8 && UART_BASE <= addr && addr < UART_BASE + UART_SIZE {
            self.regs[(addr - UART_BASE) as usize] = #[verifier::truncate] (value as u8);
            Ok(())
        } else {
            Err(Exception::StoreAMOAccessFault)
        }
    }
}

} // verus!
