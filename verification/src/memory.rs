//! Main memory: a contiguous little-endian byte store mapped at
//! `MEMORY_BASE`, with loads and stores of 8, 16, 32 and 64 bits.

use vstd::prelude::*;

use crate::bus::{Device, MEMORY_BASE};
use crate::trap::Exception;

verus! {

/// Default memory size (128 MiB).
pub const MEMORY_SIZE: u64 = 1024 * 1024 * 128;

/// An 8-bit little-endian read at byte offset `i`.
pub open spec fn read_le8(m: Seq<u8>, i: int) -> u64 {
    m[i] as u64
}

/// A 16-bit little-endian read at byte offset `i`.
pub open spec fn read_le16(m: Seq<u8>, i: int) -> u64 {
    m[i] as u64 | (m[i + 1] as u64) << 8
}

/// A 32-bit little-endian read at byte offset `i`.
pub open spec fn read_le32(m: Seq<u8>, i: int) -> u64 {
    m[i] as u64 | (m[i + 1] as u64) << 8 | (m[i + 2] as u64) << 16 | (m[i + 3] as u64) << 24
}

/// A 64-bit little-endian read at byte offset `i`.
pub open spec fn read_le64(m: Seq<u8>, i: int) -> u64 {
    m[i] as u64 | (m[i + 1] as u64) << 8 | (m[i + 2] as u64) << 16 | (m[i + 3] as u64) << 24
        | (m[i + 4] as u64) << 32 | (m[i + 5] as u64) << 40 | (m[i + 6] as u64) << 48
        | (m[i + 7] as u64) << 56
}

/// An 8-bit little-endian write of the low byte of `v` at byte offset `i`.
pub open spec fn write_le8(m: Seq<u8>, i: int, v: u64) -> Seq<u8> {
    m.update(i, v as u8)
}

/// A 16-bit little-endian write of the low two bytes of `v` at byte offset `i`.
pub open spec fn write_le16(m: Seq<u8>, i: int, v: u64) -> Seq<u8> {
    m.update(i, v as u8).update(i + 1, (v >> 8) as u8)
}

/// A 32-bit little-endian write of the low four bytes of `v` at byte offset `i`.
pub open spec fn write_le32(m: Seq<u8>, i: int, v: u64) -> Seq<u8> {
    m.update(i, v as u8).update(i + 1, (v >> 8) as u8).update(i + 2, (v >> 16) as u8).update(
        i + 3,
        (v >> 24) as u8,
    )
}

/// A 64-bit little-endian write of `v` at byte offset `i`.
pub open spec fn write_le64(m: Seq<u8>, i: int, v: u64) -> Seq<u8> {
    m.update(i, v as u8).update(i + 1, (v >> 8) as u8).update(i + 2, (v >> 16) as u8).update(
        i + 3,
        (v >> 24) as u8,
    ).update(i + 4, (v >> 32) as u8).update(i + 5, (v >> 40) as u8).update(
        i + 6,
        (v >> 48) as u8,
    ).update(i + 7, (v >> 56) as u8)
}

/// Reads one byte of a byte store.
pub(crate) fn load_le8(bytes: &Vec<u8>, i: usize) -> (r: u64)
    requires
        i < bytes@.len(),
    ensures
        r == read_le8(bytes@, i as int),
{
    bytes[i] as u64
}

/// Reads two bytes of a byte store, least-significant first.
pub(crate) fn load_le16(bytes: &Vec<u8>, i: usize) -> (r: u64)
    requires
        i + 2 <= bytes@.len(),
        bytes@.len() <= usize::MAX,
    ensures
        r == read_le16(bytes@, i as int),
{
    bytes[i] as u64 | (bytes[i + 1] as u64) << 8
}

/// Reads four bytes of a byte store, least-significant first.
pub(crate) fn load_le32(bytes: &Vec<u8>, i: usize) -> (r: u64)
    requires
        i + 4 <= bytes@.len(),
        bytes@.len() <= usize::MAX,
    ensures
        r == read_le32(bytes@, i as int),
{
    bytes[i] as u64 | (bytes[i + 1] as u64) << 8 | (bytes[i + 2] as u64) << 16 | (bytes[i
        + 3] as u64) << 24
}

/// Reads eight bytes of a byte store, least-significant first.
pub(crate) fn load_le64(bytes: &Vec<u8>, i: usize) -> (r: u64)
    requires
        i + 8 <= bytes@.len(),
        bytes@.len() <= usize::MAX,
    ensures
        r == read_le64(bytes@, i as int),
{
    bytes[i] as u64 | (bytes[i + 1] as u64) << 8 | (bytes[i + 2] as u64) << 16 | (bytes[i
        + 3] as u64) << 24 | (bytes[i + 4] as u64) << 32 | (bytes[i + 5] as u64) << 40 | (bytes[i
        + 6] as u64) << 48 | (bytes[i + 7] as u64) << 56
}

/// Writes the low byte of `v` into a byte store.
pub(crate) fn store_le8(bytes: &mut Vec<u8>, i: usize, v: u64)
    requires
        i < old(bytes)@.len(),
    ensures
        final(bytes)@ == write_le8(old(bytes)@, i as int, v),
{
    bytes[i] = #[verifier::truncate] (v as u8);
}

/// Writes the low two bytes of `v` into a byte store, least-significant first.
pub(crate) fn store_le16(bytes: &mut Vec<u8>, i: usize, v: u64)
    requires
        i + 2 <= old(bytes)@.len(),
        old(bytes)@.len() <= usize::MAX,
    ensures
        final(bytes)@ == write_le16(old(bytes)@, i as int, v),
{
    bytes[i] = #[verifier::truncate] (v as u8);
    bytes[i + 1] = #[verifier::truncate] ((v >> 8) as u8);
}

/// Writes the low four bytes of `v` into a byte store, least-significant first.
pub(crate) fn store_le32(bytes: &mut Vec<u8>, i: usize, v: u64)
    requires
        i + 4 <= old(bytes)@.len(),
        old(bytes)@.len() <= usize::MAX,
    ensures
        final(bytes)@ == write_le32(old(bytes)@, i as int, v),
{
    bytes[i] = #[verifier::truncate] (v as u8);
    bytes[i + 1] = #[verifier::truncate] ((v >> 8) as u8);
    bytes[i + 2] = #[verifier::truncate] ((v >> 16) as u8);
    bytes[i + 3] = #[verifier::truncate] ((v >> 24) as u8);
}

/// Writes all eight bytes of `v` into a byte store, least-significant first.
pub(crate) fn store_le64(bytes: &mut Vec<u8>, i: usize, v: u64)
    requires
        i + 8 <= old(bytes)@.len(),
        old(bytes)@.len() <= usize::MAX,
    ensures
        final(bytes)@ == write_le64(old(bytes)@, i as int, v),
{
    bytes[i] = #[verifier::truncate] (v as u8);
    bytes[i + 1] = #[verifier::truncate] ((v >> 8) as u8);
    bytes[i + 2] = #[verifier::truncate] ((v >> 16) as u8);
    bytes[i + 3] = #[verifier::truncate] ((v >> 24) as u8);
    bytes[i + 4] = #[verifier::truncate] ((v >> 32) as u8);
    bytes[i + 5] = #[verifier::truncate] ((v >> 40) as u8);
    bytes[i + 6] = #[verifier::truncate] ((v >> 48) as u8);
    bytes[i + 7] = #[verifier::truncate] ((v >> 56) as u8);
}

/// Whether an access of `n` bytes at absolute address `addr` lies wholly
/// inside the memory window.
pub open spec fn mem_in_range(addr: u64, n: int) -> bool {
    MEMORY_BASE <= addr && addr - MEMORY_BASE + n <= MEMORY_SIZE
}

/// What a memory load returns: the little-endian value for a supported width
/// wholly inside the window, a load access fault otherwise.
pub open spec fn spec_mem_load(m: Seq<u8>, addr: u64, size: u64) -> Result<u64, Exception> {
    let i = addr - MEMORY_BASE;
    if size == 8 && mem_in_range(addr, 1) {
        Ok(read_le8(m, i))
    } else if size == 16 && mem_in_range(addr, 2) {
        Ok(read_le16(m, i))
    } else if size == 32 && mem_in_range(addr, 4) {
        Ok(read_le32(m, i))
    } else if size == 64 && mem_in_range(addr, 8) {
        Ok(read_le64(m, i))
    } else {
        Err(Exception::LoadAccessFault)
    }
}

/// What a memory store does: a little-endian update for a supported width
/// wholly inside the window, a store access fault otherwise.
pub open spec fn spec_mem_store(m: Seq<u8>, addr: u64, size: u64, value: u64) -> Result<
    Seq<u8>,
    Exception,
> {
    let i = addr - MEMORY_BASE;
    if size == 8 && mem_in_range(addr, 1) {
        Ok(write_le8(m, i, value))
    } else if size == 16 && mem_in_range(addr, 2) {
        Ok(write_le16(m, i, value))
    } else if size == 32 && mem_in_range(addr, 4) {
        Ok(write_le32(m, i, value))
    } else if size == 64 && mem_in_range(addr, 8) {
        Ok(write_le64(m, i, value))
    } else {
        Err(Exception::StoreAMOAccessFault)
    }
}

/// The contents of a freshly constructed memory: the program bytes at the
/// low offsets, zeroes in the rest of the 128 MiB.
pub open spec fn mem_init(binary: Seq<u8>) -> Seq<u8> {
    Seq::new(MEMORY_SIZE as nat, |i: int| if i < binary.len() { binary[i] } else { 0u8 })
}

/// The backing byte store of main memory.
pub struct Memory {
    pub memory: Vec<u8>,
}

impl View for Memory {
    type V = Seq<u8>;

    open spec fn view(&self) -> Seq<u8> {
        self.memory@
    }
}

impl Memory {
    /// Builds a memory image: the program bytes at the low offsets, zeroes in
    /// the rest of the 128 MiB.
    pub fn new(binary: Vec<u8>) -> (r: Memory)
        requires
            binary@.len() <= MEMORY_SIZE,
        ensures
            r.inv(),
            r@ == mem_init(binary@),
    {
        let mut memory: Vec<u8> = vec![0u8; MEMORY_SIZE as usize];
        assert forall|j: int| 0 <= j < MEMORY_SIZE implies memory@[j] == 0 by {
            assert(cloned(0u8, memory@[j]));
        }
        let mut i: usize = 0;
        while i < binary.len()
            invariant
                i <= binary@.len(),
                binary@.len() <= MEMORY_SIZE,
                memory@.len() == MEMORY_SIZE,
                forall|j: int| 0 <= j < i ==> memory@[j] == binary@[j],
                forall|j: int| i <= j < MEMORY_SIZE ==> memory@[j] == 0,
            decreases binary@.len() - i,
        {
            memory[i] = binary[i];
            i += 1;
        }
        assert(memory@ =~= mem_init(binary@));
        Memory { memory }
    }

    /// Loads one byte.
    pub fn load8(&self, addr: u64) -> (r: u64)
        requires
            self.inv(),
            mem_in_range(addr, 1),
        ensures
            r == read_le8(self@, addr - MEMORY_BASE),
    {
        load_le8(&self.memory, (addr - MEMORY_BASE) as usize)
    }

    /// Loads two bytes, little-endian.
    pub fn load16(&self, addr: u64) -> (r: u64)
        requires
            self.inv(),
            mem_in_range(addr, 2),
        ensures
            r == read_le16(self@, addr - MEMORY_BASE),
    {
        load_le16(&self.memory, (addr - MEMORY_BASE) as usize)
    }

    /// Loads four bytes, little-endian.
    pub fn load32(&self, addr: u64) -> (r: u64)
        requires
            self.inv(),
            mem_in_range(addr, 4),
        ensures
            r == read_le32(self@, addr - MEMORY_BASE),
    {
        load_le32(&self.memory, (addr - MEMORY_BASE) as usize)
    }

    /// Loads eight bytes, little-endian.
    pub fn load64(&self, addr: u64) -> (r: u64)
        requires
            self.inv(),
            mem_in_range(addr, 8),
        ensures
            r == read_le64(self@, addr - MEMORY_BASE),
    {
        load_le64(&self.memory, (addr - MEMORY_BASE) as usize)
    }

    /// Stores the low byte of `val`.
    pub fn store8(&mut self, addr: u64, val: u64)
        requires
            old(self).inv(),
            mem_in_range(addr, 1),
        ensures
            final(self).inv(),
            final(self)@ == write_le8(old(self)@, addr - MEMORY_BASE, val),
    {
        store_le8(&mut self.memory, (addr - MEMORY_BASE) as usize, val)
    }

    /// Stores the low two bytes of `val`, little-endian.
    pub fn store16(&mut self, addr: u64, val: u64)
        requires
            old(self).inv(),
            mem_in_range(addr, 2),
        ensures
            final(self).inv(),
            final(self)@ == write_le16(old(self)@, addr - MEMORY_BASE, val),
    {
        store_le16(&mut self.memory, (addr - MEMORY_BASE) as usize, val)
    }

    /// Stores the low four bytes of `val`, little-endian.
    pub fn store32(&mut self, addr: u64, val: u64)
        requires
            old(self).inv(),
            mem_in_range(addr, 4),
        ensures
            final(self).inv(),
            final(self)@ == write_le32(old(self)@, addr - MEMORY_BASE, val),
    {
        store_le32(&mut self.memory, (addr - MEMORY_BASE) as usize, val)
    }

    /// Stores all eight bytes of `val`, little-endian.
    pub fn store64(&mut self, addr: u64, val: u64)
        requires
            old(self).inv(),
            mem_in_range(addr, 8),
        ensures
            final(self).inv(),
            final(self)@ == write_le64(old(self)@, addr - MEMORY_BASE, val),
    {
        store_le64(&mut self.memory, (addr - MEMORY_BASE) as usize, val)
    }
}

impl Device for Memory {
    open spec fn inv(&self) -> bool {
        self.memory@.len() == MEMORY_SIZE
    }

    open spec fn spec_load(v: Seq<u8>, addr: u64, size: u64) -> Result<u64, Exception> {
        spec_mem_load(v, addr, size)
    }

    open spec fn spec_store(v: Seq<u8>, addr: u64, size: u64, value: u64) -> Result<
        Seq<u8>,
        Exception,
    > {
        spec_mem_store(v, addr, size, value)
    }

    fn load(&mut self, addr: u64, size: u64) -> (r: Result<u64, Exception>) {
        if addr < MEMORY_BASE {
            return Err(Exception::LoadAccessFault);
        }
        let offset = addr - MEMORY_BASE;
        match size {
            8 => if offset < MEMORY_SIZE {
                Ok(self.load8(addr))
            } else {
                Err(Exception::LoadAccessFault)
            },
            16 => if offset <= MEMORY_SIZE - 2 {
                Ok(self.load16(addr))
            } else {
                Err(Exception::LoadAccessFault)
            },
            32 => if offset <= MEMORY_SIZE - 4 {
                Ok(self.load32(addr))
            } else {
                Err(Exception::LoadAccessFault)
            },
            64 => if offset <= MEMORY_SIZE - 8 {
                Ok(self.load64(addr))
            } else {
                Err(Exception::LoadAccessFault)
            },
            _ => Err(Exception::LoadAccessFault),
        }
    }

    fn store(&mut self, addr: u64, size: u64, value: u64) -> (r: Result<(), Exception>) {
        if addr < MEMORY_BASE {
            return Err(Exception::StoreAMOAccessFault);
        }
        let offset = addr - MEMORY_BASE;
        match size {
            8 => if offset < MEMORY_SIZE {
                self.store8(addr, value);
                Ok(())
            } else {
                Err(Exception::StoreAMOAccessFault)
            },
            16 => if offset <= MEMORY_SIZE - 2 {
                self.store16(addr, value);
                Ok(())
            } else {
                Err(Exception::StoreAMOAccessFault)
            },
            32 => if offset <= MEMORY_SIZE - 4 {
                self.store32(addr, value);
                Ok(())
            } else {
                Err(Exception::StoreAMOAccessFault)
            },
            64 => if offset <= MEMORY_SIZE - 8 {
                self.store64(addr, value);
                Ok(())
            } else {
                Err(Exception::StoreAMOAccessFault)
            },
            _ => Err(Exception::StoreAMOAccessFault),
        }
    }
}

} // verus!
