//! The system bus: an address decoder that routes loads and stores to the
//! memory-mapped devices by fixed, disjoint address windows.

use vstd::prelude::*;

use crate::clint::{Clint, ClintState};
use crate::memory::{
    MEMORY_SIZE, Memory, mem_in_range, mem_init, read_le16, read_le32, read_le64, read_le8,
    spec_mem_load, spec_mem_store, write_le16, write_le32, write_le64, write_le8,
};
use crate::plic::{Plic, PlicState};
use crate::trap::Exception;
use crate::uart::{Uart, UartState, uart_init_regs};
use crate::virtio::{Virtio, virtio_init_regs};

verus! {

/// Base address of the core-local interruptor (CLINT).
pub const CLINT_BASE: u64 = 0x200_0000;
/// Size of the CLINT window.
pub const CLINT_SIZE: u64 = 0x10000;

/// Base address of the platform-level interrupt controller (PLIC).
pub const PLIC_BASE: u64 = 0xc00_0000;
/// Size of the PLIC window.
pub const PLIC_SIZE: u64 = 0x400_0000;

/// Base address of the UART, as on the QEMU virt machine.
pub const UART_BASE: u64 = 0x1000_0000;
/// Size of the UART window.
pub const UART_SIZE: u64 = 0x100;

/// Base address of the virtio device.
pub const VIRTIO_BASE: u64 = 0x1000_1000;
/// Size of the virtio window.
pub const VIRTIO_SIZE: u64 = 0x1000;

/// Base address of main memory, as on the QEMU virt machine.
pub const MEMORY_BASE: u64 = 0x8000_0000;

/// The uniform contract of every memory-mapped device: word-sized loads and
/// stores that either succeed or report an exception kind. The functional
/// behaviour of each device is pinned by its two spec functions over its view.
pub trait Device: View + Sized {
    /// The device's internal well-formedness condition.
    spec fn inv(&self) -> bool;

    /// What a load returns, as a function of the device's view.
    spec fn spec_load(v: Self::V, addr: u64, size: u64) -> Result<u64, Exception>;

    /// What a store does to the device's view, or the exception it raises.
    spec fn spec_store(v: Self::V, addr: u64, size: u64, value: u64) -> Result<Self::V, Exception>;

    fn load(&mut self, addr: u64, size: u64) -> (r: Result<u64, Exception>)
        requires
            old(self).inv(),
        ensures
            final(self).inv(),
            final(self)@ == old(self)@,
            r == Self::spec_load(old(self)@, addr, size),
    ;

    fn store(&mut self, addr: u64, size: u64, value: u64) -> (r: Result<(), Exception>)
        requires
            old(self).inv(),
        ensures
            final(self).inv(),
            (match Self::spec_store(old(self)@, addr, size, value) {
                Ok(v2) => r == Ok::<(), Exception>(()) && final(self)@ == v2,
                Err(e) => r == Err::<(), Exception>(e) && final(self)@ == old(self)@,
            }),
    ;
}

/// Whether `addr` lies in the window of `size` bytes based at `base`.
pub open spec fn in_window(base: u64, size: u64, addr: u64) -> bool {
    base <= addr < base + size
}

/// The mathematical contents of the bus: one field per device.
pub ghost struct BusState {
    pub clint: ClintState,
    pub plic: PlicState,
    pub uart: UartState,
    pub virtio: Seq<u8>,
    pub memory: Seq<u8>,
}

/// The well-formedness of a bus state: every byte window has its size.
pub open spec fn bus_wf(b: BusState) -> bool {
    &&& b.memory.len() == MEMORY_SIZE
    &&& b.uart.regs.len() == UART_SIZE
    &&& b.virtio.len() == VIRTIO_SIZE
}

/// The bus of a freshly constructed machine: every device cleared, the
/// program image in memory.
pub open spec fn spec_bus_init(binary: Seq<u8>) -> BusState {
    BusState {
        clint: ClintState { mtimecmp: 0, mtime: 0 },
        plic: PlicState { pending: 0, senable: 0, spriority: 0, sclaim: 0 },
        uart: UartState { regs: uart_init_regs(), interrupting: false },
        virtio: virtio_init_regs(),
        memory: mem_init(binary),
    }
}

/// What a bus load returns: the value of the one device whose window holds
/// `addr`, a load access fault if no window does.
pub open spec fn spec_bus_load(b: BusState, addr: u64, size: u64) -> Result<u64, Exception> {
    if in_window(CLINT_BASE, CLINT_SIZE, addr) {
        Clint::spec_load(b.clint, addr, size)
    } else if in_window(PLIC_BASE, PLIC_SIZE, addr) {
        Plic::spec_load(b.plic, addr, size)
    } else if in_window(UART_BASE, UART_SIZE, addr) {
        Uart::spec_load(b.uart, addr, size)
    } else if in_window(VIRTIO_BASE, VIRTIO_SIZE, addr) {
        Virtio::spec_load(b.virtio, addr, size)
    } else if in_window(MEMORY_BASE, MEMORY_SIZE, addr) {
        spec_mem_load(b.memory, addr, size)
    } else {
        Err(Exception::LoadAccessFault)
    }
}

/// What a bus store does: the update of the one device whose window holds
/// `addr`, a store access fault if no window does.
pub open spec fn spec_bus_store(b: BusState, addr: u64, size: u64, value: u64) -> Result<
    BusState,
    Exception,
> {
    if in_window(CLINT_BASE, CLINT_SIZE, addr) {
        match Clint::spec_store(b.clint, addr, size, value) {
            Ok(d) => Ok(BusState { clint: d, ..b }),
            Err(e) => Err(e),
        }
    } else if in_window(PLIC_BASE, PLIC_SIZE, addr) {
        match Plic::spec_store(b.plic, addr, size, value) {
            Ok(d) => Ok(BusState { plic: d, ..b }),
            Err(e) => Err(e),
        }
    } else if in_window(UART_BASE, UART_SIZE, addr) {
        match Uart::spec_store(b.uart, addr, size, value) {
            Ok(d) => Ok(BusState { uart: d, ..b }),
            Err(e) => Err(e),
        }
    } else if in_window(VIRTIO_BASE, VIRTIO_SIZE, addr) {
        match Virtio::spec_store(b.virtio, addr, size, value) {
            Ok(d) => Ok(BusState { virtio: d, ..b }),
            Err(e) => Err(e),
        }
    } else if in_window(MEMORY_BASE, MEMORY_SIZE, addr) {
        match spec_mem_store(b.memory, addr, size, value) {
            Ok(d) => Ok(BusState { memory: d, ..b }),
            Err(e) => Err(e),
        }
    } else {
        Err(Exception::StoreAMOAccessFault)
    }
}

/// The system bus and the devices it owns.
pub struct Bus {
    pub clint: Clint,
    pub plic: Plic,
    pub uart: Uart,
    pub virtio: Virtio,
    pub memory: Memory,
}

impl View for Bus {
    type V = BusState;

    open spec fn view(&self) -> BusState {
        BusState {
            clint: self.clint@,
            plic: self.plic@,
            uart: self.uart@,
            virtio: self.virtio@,
            memory: self.memory@,
        }
    }
}

impl Bus {
    /// The well-formedness of the bus: every device well-formed.
    pub open spec fn inv(&self) -> bool {
        bus_wf(self@)
    }

    /// Builds the bus over a fresh set of devices, with the program image
    /// loaded into memory.
    pub fn new(binary: Vec<u8>) -> (r: Bus)
        requires
            binary@.len() <= MEMORY_SIZE,
        ensures
            r.inv(),
            r@ == spec_bus_init(binary@),
    {
        Bus {
            memory: Memory::new(binary),
            clint: Clint::new(),
            plic: Plic::new(),
            uart: Uart::new(),
            virtio: Virtio::new(),
        }
    }

    /// Routes a load to the device whose window holds `addr`; a load from an
    /// unmapped address raises a load access fault.
    pub fn load(&mut self, addr: u64, size: u64) -> (r: Result<u64, Exception>)
        requires
            old(self).inv(),
        ensures
            final(self).inv(),
            final(self)@ == old(self)@,
            r == spec_bus_load(old(self)@, addr, size),
    {
        if CLINT_BASE <= addr && addr < CLINT_BASE + CLINT_SIZE {
            return self.clint.load(addr, size);
        }
        if PLIC_BASE <= addr && addr < PLIC_BASE + PLIC_SIZE {
            return self.plic.load(addr, size);
        }
        if UART_BASE <= addr && addr < UART_BASE + UART_SIZE {
            return self.uart.load(addr, size);
        }
        if VIRTIO_BASE <= addr && addr < VIRTIO_BASE + VIRTIO_SIZE {
            return self.virtio.load(addr, size);
        }
        if MEMORY_BASE <= addr && addr < MEMORY_BASE + MEMORY_SIZE {
            return self.memory.load(addr, size);
        }
        Err(Exception::LoadAccessFault)
    }

    /// Routes a store to the device whose window holds `addr`; a store to an
    /// unmapped address raises a store access fault.
    pub fn store(&mut self, addr: u64, size: u64, value: u64) -> (r: Result<(), Exception>)
        requires
            old(self).inv(),
        ensures
            final(self).inv(),
            (match spec_bus_store(old(self)@, addr, size, value) {
                Ok(b2) => r == Ok::<(), Exception>(()) && final(self)@ == b2,
                Err(e) => r == Err::<(), Exception>(e) && final(self)@ == old(self)@,
            }),
    {
        if CLINT_BASE <= addr && addr < CLINT_BASE + CLINT_SIZE {
            return self.clint.store(addr, size, value);
        }
        if PLIC_BASE <= addr && addr < PLIC_BASE + PLIC_SIZE {
            return self.plic.store(addr, size, value);
        }
        if UART_BASE <= addr && addr < UART_BASE + UART_SIZE {
            return self.uart.store(addr, size, value);
        }
        if VIRTIO_BASE <= addr && addr < VIRTIO_BASE + VIRTIO_SIZE {
            return self.virtio.store(addr, size, value);
        }
        if MEMORY_BASE <= addr && addr < MEMORY_BASE + MEMORY_SIZE {
            return self.memory.store(addr, size, value);
        }
        Err(Exception::StoreAMOAccessFault)
    }
}

/// The low bits an access of `size` bits keeps.
pub open spec fn size_mask(size: u64) -> u64 {
    if size == 8 {
        0xff
    } else if size == 16 {
        0xffff
    } else if size == 32 {
        0xffff_ffff
    } else {
        0xffff_ffff_ffff_ffff
    }
}

/// The five device windows are pairwise disjoint: no address lies in two of
/// them, so the order in which the bus tries them is immaterial.
pub proof fn lemma_windows_disjoint(addr: u64)
    ensures
        !(in_window(CLINT_BASE, CLINT_SIZE, addr) && in_window(PLIC_BASE, PLIC_SIZE, addr)),
        !(in_window(CLINT_BASE, CLINT_SIZE, addr) && in_window(UART_BASE, UART_SIZE, addr)),
        !(in_window(CLINT_BASE, CLINT_SIZE, addr) && in_window(VIRTIO_BASE, VIRTIO_SIZE, addr)),
        !(in_window(CLINT_BASE, CLINT_SIZE, addr) && in_window(MEMORY_BASE, MEMORY_SIZE, addr)),
        !(in_window(PLIC_BASE, PLIC_SIZE, addr) && in_window(UART_BASE, UART_SIZE, addr)),
        !(in_window(PLIC_BASE, PLIC_SIZE, addr) && in_window(VIRTIO_BASE, VIRTIO_SIZE, addr)),
        !(in_window(PLIC_BASE, PLIC_SIZE, addr) && in_window(MEMORY_BASE, MEMORY_SIZE, addr)),
        !(in_window(UART_BASE, UART_SIZE, addr) && in_window(VIRTIO_BASE, VIRTIO_SIZE, addr)),
        !(in_window(UART_BASE, UART_SIZE, addr) && in_window(MEMORY_BASE, MEMORY_SIZE, addr)),
        !(in_window(VIRTIO_BASE, VIRTIO_SIZE, addr) && in_window(MEMORY_BASE, MEMORY_SIZE, addr)),
{
}

/// Address decoding is total: an address inside some window is answered by
/// exactly that device, and an address inside no window faults, on loads
/// with a load access fault and on stores with a store access fault.
pub proof fn lemma_bus_decode_total(b: BusState, addr: u64, size: u64, value: u64)
    ensures
        in_window(CLINT_BASE, CLINT_SIZE, addr) ==> spec_bus_load(b, addr, size)
            == Clint::spec_load(b.clint, addr, size),
        in_window(PLIC_BASE, PLIC_SIZE, addr) ==> spec_bus_load(b, addr, size) == Plic::spec_load(
            b.plic,
            addr,
            size,
        ),
        in_window(UART_BASE, UART_SIZE, addr) ==> spec_bus_load(b, addr, size) == Uart::spec_load(
            b.uart,
            addr,
            size,
        ),
        in_window(VIRTIO_BASE, VIRTIO_SIZE, addr) ==> spec_bus_load(b, addr, size)
            == Virtio::spec_load(b.virtio, addr, size),
        in_window(MEMORY_BASE, MEMORY_SIZE, addr) ==> spec_bus_load(b, addr, size)
            == spec_mem_load(b.memory, addr, size),
        !(in_window(CLINT_BASE, CLINT_SIZE, addr) || in_window(PLIC_BASE, PLIC_SIZE, addr)
            || in_window(UART_BASE, UART_SIZE, addr) || in_window(VIRTIO_BASE, VIRTIO_SIZE, addr)
            || in_window(MEMORY_BASE, MEMORY_SIZE, addr)) ==> spec_bus_load(b, addr, size)
            == Err::<u64, Exception>(Exception::LoadAccessFault) && spec_bus_store(
            b,
            addr,
            size,
            value,
        ) == Err::<BusState, Exception>(Exception::StoreAMOAccessFault),
{
}

/// Bus round trip within memory: a store of `v` at `addr` with a supported
/// width succeeds, and a load of the same bytes at the same width returns
/// `v` masked to that width.
pub proof fn lemma_bus_memory_round_trip(b: BusState, addr: u64, size: u64, v: u64)
    requires
        size == 8 || size == 16 || size == 32 || size == 64,
        b.memory.len() == MEMORY_SIZE,
        mem_in_range(addr, size as int / 8),
    ensures
        spec_bus_store(b, addr, size, v) is Ok,
        spec_bus_load(spec_bus_store(b, addr, size, v)->Ok_0, addr, size) == Ok::<u64, Exception>(
            v & size_mask(size),
        ),
{
    let i = addr - MEMORY_BASE;
    if size == 8 {
        let m2 = write_le8(b.memory, i, v);
        assert(read_le8(m2, i) == v & 0xff) by {
            assert((v as u8) as u64 == v & 0xff) by (bit_vector);
        }
    } else if size == 16 {
        let m2 = write_le16(b.memory, i, v);
        assert(read_le16(m2, i) == v & 0xffff) by {
            assert(((v as u8) as u64) | (((v >> 8) as u8) as u64) << 8 == v & 0xffff)
                by (bit_vector);
        }
    } else if size == 32 {
        let m2 = write_le32(b.memory, i, v);
        assert(read_le32(m2, i) == v & 0xffff_ffff) by {
            assert(((v as u8) as u64) | (((v >> 8) as u8) as u64) << 8 | (((v >> 16) as u8) as u64)
                << 16 | (((v >> 24) as u8) as u64) << 24 == v & 0xffff_ffff) by (bit_vector);
        }
    } else {
        let m2 = write_le64(b.memory, i, v);
        assert(read_le64(m2, i) == v & 0xffff_ffff_ffff_ffff) by {
            assert(((v as u8) as u64) | (((v >> 8) as u8) as u64) << 8 | (((v >> 16) as u8) as u64)
                << 16 | (((v >> 24) as u8) as u64) << 24 | (((v >> 32) as u8) as u64) << 32 | (((v
                >> 40) as u8) as u64) << 40 | (((v >> 48) as u8) as u64) << 48 | (((v
                >> 56) as u8) as u64) << 56 == v & 0xffff_ffff_ffff_ffff) by (bit_vector);
        }
    }
}

} // verus!
