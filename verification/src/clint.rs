//! The core-local interruptor (CLINT): the machine timer compare and timer
//! registers, accessed with 64-bit loads and stores.

use vstd::prelude::*;

use crate::bus::{CLINT_BASE, Device};
use crate::trap::Exception;

verus! {

/// Address of the machine timer compare register.
pub const CLINT_MTIMECMP: u64 = CLINT_BASE + 0x4000;
/// Address of the machine timer register.
pub const CLINT_MTIME: u64 = CLINT_BASE + 0xbff8;

/// The CLINT's registers.
pub struct Clint {
    pub mtimecmp: u64,
    pub mtime: u64,
}

/// The mathematical contents of the CLINT.
pub ghost struct ClintState {
    pub mtimecmp: u64,
    pub mtime: u64,
}

impl View for Clint {
    type V = ClintState;

    open spec fn view(&self) -> ClintState {
        ClintState { mtimecmp: self.mtimecmp, mtime: self.mtime }
    }
}

impl Clint {
    /// A CLINT with both timer registers clear.
    pub fn new() -> (r: Clint)
        ensures
            r@ == (ClintState { mtimecmp: 0, mtime: 0 }),
    {
        Clint { mtimecmp: 0, mtime: 0 }
    }
}

impl Device for Clint {
    open spec fn inv(&self) -> bool {
        true
    }

    open spec fn spec_load(v: ClintState, addr: u64, size: u64) -> Result<u64, Exception> {
        if size != 64 {
            Err(Exception::LoadAccessFault)
        } else if addr == CLINT_MTIMECMP {
            Ok(v.mtimecmp)
        } else if addr == CLINT_MTIME {
            Ok(v.mtime)
        } else {
            Ok(0)
        }
    }

    open spec fn spec_store(v: ClintState, addr: u64, size: u64, value: u64) -> Result<
        ClintState,
        Exception,
    > {
        if size != 64 {
            Err(Exception::StoreAMOAccessFault)
        } else if addr == CLINT_MTIMECMP {
            Ok(ClintState { mtimecmp: value, ..v })
        } else if addr == CLINT_MTIME {
            Ok(ClintState { mtime: value, ..v })
        } else {
            Ok(v)
        }
    }

    fn load(&mut self, addr: u64, size: u64) -> (r: Result<u64, Exception>) {
        if size != 64 {
            Err(Exception::LoadAccessFault)
        } else if addr == CLINT_MTIMECMP {
            Ok(self.mtimecmp)
        } else if addr == CLINT_MTIME {
            Ok(self.mtime)
        } else {
            Ok(0)
        }
    }

    fn store(&mut self, addr: u64, size: u64, value: u64) -> (r: Result<(), Exception>) {
        if size != 64 {
            Err(Exception::StoreAMOAccessFault)
        } else if addr == CLINT_MTIMECMP {
            self.mtimecmp = value;
            Ok(())
        } else if addr == CLINT_MTIME {
            self.mtime = value;
            Ok(())
        } else {
            Ok(())
        }
    }
}

} // verus!
