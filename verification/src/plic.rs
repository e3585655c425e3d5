//! The platform-level interrupt controller (PLIC): the pending, enable,
//! priority-threshold and claim registers, accessed with 32-bit loads and
//! stores.

use vstd::prelude::*;

use crate::bus::{Device, PLIC_BASE};
use crate::trap::Exception;

verus! {

/// Address of the interrupt pending register.
pub const PLIC_PENDING: u64 = PLIC_BASE + 0x1000;
/// Address of the supervisor enable register.
pub const PLIC_SENABLE: u64 = PLIC_BASE + 0x2080;
/// Address of the supervisor priority-threshold register.
pub const PLIC_SPRIORITY: u64 = PLIC_BASE + 0x201000;
/// Address of the supervisor claim register.
pub const PLIC_SCLAIM: u64 = PLIC_BASE + 0x201004;

/// The PLIC's registers.
pub struct Plic {
    pub pending: u64,
    pub senable: u64,
    pub spriority: u64,
    pub sclaim: u64,
}

/// The mathematical contents of the PLIC.
pub ghost struct PlicState {
    pub pending: u64,
    pub senable: u64,
    pub spriority: u64,
    pub sclaim: u64,
}

impl View for Plic {
    type V = PlicState;

    open spec fn view(&self) -> PlicState {
        PlicState {
            pending: self.pending,
            senable: self.senable,
            spriority: self.spriority,
            sclaim: self.sclaim,
        }
    }
}

impl Plic {
    /// A PLIC with all registers clear.
    pub fn new() -> (r: Plic)
        ensures
            r@ == (PlicState { pending: 0, senable: 0, spriority: 0, sclaim: 0 }),
    {
        Plic { pending: 0, senable: 0, spriority: 0, sclaim: 0 }
    }
}

impl Device for Plic {
    open spec fn inv(&self) -> bool {
        true
    }

    open spec fn spec_load(v: PlicState, addr: u64, size: u64) -> Result<u64, Exception> {
        if size != 32 {
            Err(Exception::LoadAccessFault)
        } else if addr == PLIC_PENDING {
            Ok(v.pending)
        } else if addr == PLIC_SENABLE {
            Ok(v.senable)
        } else if addr == PLIC_SPRIORITY {
            Ok(v.spriority)
        } else if addr == PLIC_SCLAIM {
            Ok(v.sclaim)
        } else {
            Ok(0)
        }
    }

    open spec fn spec_store(v: PlicState, addr: u64, size: u64, value: u64) -> Result<
        PlicState,
        Exception,
    > {
        if size != 32 {
            Err(Exception::StoreAMOAccessFault)
        } else if addr == PLIC_PENDING {
            Ok(PlicState { pending: value & 0xffff_ffff, ..v })
        } else if addr == PLIC_SENABLE {
            Ok(PlicState { senable: value & 0xffff_ffff, ..v })
        } else if addr == PLIC_SPRIORITY {
            Ok(PlicState { spriority: value & 0xffff_ffff, ..v })
        } else if addr == PLIC_SCLAIM {
            Ok(PlicState { sclaim: value & 0xffff_ffff, ..v })
        } else {
            Ok(v)
        }
    }

    fn load(&mut self, addr: u64, size: u64) -> (r: Result<u64, Exception>) {
        if size != 32 {
            Err(Exception::LoadAccessFault)
        } else if addr == PLIC_PENDING {
            Ok(self.pending)
        } else if addr == PLIC_SENABLE {
            Ok(self.senable)
        } else if addr == PLIC_SPRIORITY {
            Ok(self.spriority)
        } else if addr == PLIC_SCLAIM {
            Ok(self.sclaim)
        } else {
            Ok(0)
        }
    }

    fn store(&mut self, addr: u64, size: u64, value: u64) -> (r: Result<(), Exception>) {
        if size != 32 {
            Err(Exception::StoreAMOAccessFault)
        } else if addr == PLIC_PENDING {
            self.pending = value & 0xffff_ffff;
            Ok(())
        } else if addr == PLIC_SENABLE {
            self.senable = value & 0xffff_ffff;
            Ok(())
        } else if addr == PLIC_SPRIORITY {
            self.spriority = value & 0xffff_ffff;
            Ok(())
        } else if addr == PLIC_SCLAIM {
            self.sclaim = value & 0xffff_ffff;
            Ok(())
        } else {
            Ok(())
        }
    }
}

} // verus!
