//! Cycle-level core of an 8-bit console's video subsystem: the PPU's
//! memory-mapped register state machine, its scanline/dot timing, and the
//! system bus that decodes the CPU address space, runs OAM DMA, and latches
//! pending interrupts.

pub mod addr_register;
pub mod bus;
pub mod frame;
pub mod input;
pub mod mapper;
pub mod ppu;
