pub mod bus;
pub mod clint;
pub mod cpu;
pub mod memory;
pub mod plic;
pub mod trap;
pub mod uart;
pub mod virtio;
