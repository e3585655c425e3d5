//! The virtio device: a 4 KiB little-endian register window accessed with
//! loads and stores of 8, 16, 32 and 64 bits.

use vstd::prelude::*;

use crate::bus::{Device, VIRTIO_BASE, VIRTIO_SIZE};
use crate::memory::{
    load_le16, load_le32, load_le64, load_le8, read_le16, read_le32, read_le64, read_le8,
    store_le16, store_le32, store_le64, store_le8, write_le16, write_le32, write_le64, write_le8,
};
use crate::trap::Exception;

verus! {

/// Whether an access of `n` bytes at absolute address `addr` lies wholly
/// inside the virtio window.
pub open spec fn virtio_in_range(addr: u64, n: int) -> bool {
    VIRTIO_BASE <= addr && addr - VIRTIO_BASE + n <= VIRTIO_SIZE
}

/// What a virtio load returns: the little-endian value for a supported width
/// wholly inside the window, a load access fault otherwise.
pub open spec fn spec_virtio_load(m: Seq<u8>, addr: u64, size: u64) -> Result<u64, Exception> {
    let i = addr - VIRTIO_BASE;
    if size == 8 && virtio_in_range(addr, 1) {
        Ok(read_le8(m, i))
    } else if size == 16 && virtio_in_range(addr, 2) {
        Ok(read_le16(m, i))
    } else if size == 32 && virtio_in_range(addr, 4) {
        Ok(read_le32(m, i))
    } else if size == 64 && virtio_in_range(addr, 8) {
        Ok(read_le64(m, i))
    } else {
        Err(Exception::LoadAccessFault)
    }
}

/// What a virtio store does: a little-endian update for a supported width
/// wholly inside the window, a store access fault otherwise.
pub open spec fn spec_virtio_store(m: Seq<u8>, addr: u64, size: u64, value: u64) -> Result<
    Seq<u8>,
    Exception,
> {
    let i = addr - VIRTIO_BASE;
    if size == 8 && virtio_in_range(addr, 1) {
        Ok(write_le8(m, i, value))
    } else if size == 16 && virtio_in_range(addr, 2) {
        Ok(write_le16(m, i, value))
    } else if size == 32 && virtio_in_range(addr, 4) {
        Ok(write_le32(m, i, value))
    } else if size == 64 && virtio_in_range(addr, 8) {
        Ok(write_le64(m, i, value))
    } else {
        Err(Exception::StoreAMOAccessFault)
    }
}

/// The register window of a freshly constructed virtio device: all bytes
/// clear.
pub open spec fn virtio_init_regs() -> Seq<u8> {
    Seq::new(VIRTIO_SIZE as nat, |i: int| 0u8)
}

/// The virtio device's register window.
pub struct Virtio {
    pub storage: Vec<u8>,
}

impl View for Virtio {
    type V = Seq<u8>;

    open spec fn view(&self) -> Seq<u8> {
        self.storage@
    }
}

impl Virtio {
    /// A virtio device with a cleared register window.
    pub fn new() -> (r: Virtio)
        ensures
            r.inv(),
            r@ == virtio_init_regs(),
    {
        let storage: Vec<u8> = vec![0u8; VIRTIO_SIZE as usize];
        assert forall|j: int| 0 <= j < VIRTIO_SIZE implies storage@[j] == 0 by {
            assert(cloned(0u8, storage@[j]));
        }
        assert(storage@ =~= virtio_init_regs());
        Virtio { storage }
    }
}

impl Device for Virtio {
    open spec fn inv(&self) -> bool {
        self.storage@.len() == VIRTIO_SIZE
    }

    open spec fn spec_load(v: Seq<u8>, addr: u64, size: u64) -> Result<u64, Exception> {
        spec_virtio_load(v, addr, size)
    }

    open spec fn spec_store(v: Seq<u8>, addr: u64, size: u64, value: u64) -> Result<
        Seq<u8>,
        Exception,
    > {
        spec_virtio_store(v, addr, size, value)
    }

    fn load(&mut self, addr: u64, size: u64) -> (r: Result<u64, Exception>) {
        if addr < VIRTIO_BASE {
            return Err(Exception::LoadAccessFault);
        }
        let offset = addr - VIRTIO_BASE;
        match size {
            8 => if offset < VIRTIO_SIZE {
                Ok(load_le8(&self.storage, offset as usize))
            } else {
                Err(Exception::LoadAccessFault)
            },
            16 => if offset <= VIRTIO_SIZE - 2 {
                Ok(load_le16(&self.storage, offset as usize))
            } else {
                Err(Exception::LoadAccessFault)
            },
            32 => if offset <= VIRTIO_SIZE - 4 {
                Ok(load_le32(&self.storage, offset as usize))
            } else {
                Err(Exception::LoadAccessFault)
            },
            64 => if offset <= VIRTIO_SIZE - 8 {
                Ok(load_le64(&self.storage, offset as usize))
            } else {
                Err(Exception::LoadAccessFault)
            },
            _ => Err(Exception::LoadAccessFault),
        }
    }

    fn store(&mut self, addr: u64, size: u64, value: u64) -> (r: Result<(), Exception>) {
        if addr < VIRTIO_BASE {
            return Err(Exception::StoreAMOAccessFault);
        }
        let offset = addr - VIRTIO_BASE;
        match size {
            8 => if offset < VIRTIO_SIZE {
                store_le8(&mut self.storage, offset as usize, value);
                Ok(())
            } else {
                Err(Exception::StoreAMOAccessFault)
            },
            16 => if offset <= VIRTIO_SIZE - 2 {
                store_le16(&mut self.storage, offset as usize, value);
                Ok(())
            } else {
                Err(Exception::StoreAMOAccessFault)
            },
            32 => if offset <= VIRTIO_SIZE - 4 {
                store_le32(&mut self.storage, offset as usize, value);
                Ok(())
            } else {
                Err(Exception::StoreAMOAccessFault)
            },
            64 => if offset <= VIRTIO_SIZE - 8 {
                store_le64(&mut self.storage, offset as usize, value);
                Ok(())
            } else {
                Err(Exception::StoreAMOAccessFault)
            },
            _ => Err(Exception::StoreAMOAccessFault),
        }
    }
}

} // verus!
