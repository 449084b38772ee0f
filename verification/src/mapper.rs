use vstd::prelude::*;

verus! {

/// The narrow contract through which the bus and the PPU reach the
/// cartridge: program-space reads and writes on the CPU side, and
/// pattern-table (CHR) reads and writes on the PPU side. The cartridge's
/// bank-switching logic lives behind this trait and is supplied by the
/// session that loaded the cartridge; nothing is assumed about the bytes it
/// serves.
pub trait Mapper {
    /// A byte of program space ($4020-$FFFF on the CPU bus).
    fn read_prg(&self, addr: u16) -> u8;

    /// A write into program space, typically a bank-switch command.
    fn write_prg(&mut self, addr: u16, value: u8);

    /// A byte of pattern-table space ($0000-$1FFF in the PPU address space).
    fn read_chr(&self, addr: u16) -> u8;

    /// A write into pattern-table space, for cartridges with CHR RAM.
    fn write_chr(&mut self, addr: u16, value: u8);
}

} // verus!
