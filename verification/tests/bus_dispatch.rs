use nes_core::bus::{BUS, Interrupt};
use nes_core::mapper::Mapper;
use nes_core::ppu::PPU;

struct RamMapper {
    prg: Vec<u8>,
    chr: Vec<u8>,
}

impl RamMapper {
    fn new() -> RamMapper {
        RamMapper { prg: vec![0; 0x10000], chr: vec![0; 0x2000] }
    }
}

impl Mapper for RamMapper {
    fn read_prg(&self, addr: u16) -> u8 {
        self.prg[addr as usize]
    }

    fn write_prg(&mut self, addr: u16, value: u8) {
        self.prg[addr as usize] = value;
    }

    fn read_chr(&self, addr: u16) -> u8 {
        self.chr[(addr as usize) & 0x1FFF]
    }

    fn write_chr(&mut self, addr: u16, value: u8) {
        self.chr[(addr as usize) & 0x1FFF] = value;
    }
}

fn fresh_bus() -> BUS<RamMapper> {
    BUS::new(Vec::new(), RamMapper::new(), PPU::new())
}

#[test]
fn ram_is_mirrored_every_2k() {
    let mut bus = fresh_bus();
    bus.write(0x0000, 0x12);
    assert_eq!(bus.read(0x0000), 0x12);
    assert_eq!(bus.read(0x0800), 0x12);
    assert_eq!(bus.read(0x1000), 0x12);
    assert_eq!(bus.read(0x1800), 0x12);
    bus.write(0x1FFF, 0x34); // a write through the top mirror...
    assert_eq!(bus.read(0x07FF), 0x34); // ...lands in the base copy
    bus.write(0x0ABC, 0x56);
    assert_eq!(bus.read(0x12BC), 0x56);
}

#[test]
fn ppu_registers_are_mirrored_every_8() {
    let mut bus = fresh_bus();
    // $3FFE mirrors $2006: finish an address pair through the mirror.
    bus.write(0x2006, 0x21);
    bus.write(0x3FFE, 0x55);
    assert_eq!(bus.ppu.vram_addr(), 0x2155);
    // $200A mirrors $2002: the status read clears vblank through the mirror.
    bus.ppu.in_vblank = true;
    let r = bus.read(0x200A);
    assert_eq!(r & 0x80, 0x80);
    assert!(!bus.ppu.in_vblank);
    // $2008 mirrors the write-only $2000 and reads as 0.
    assert_eq!(bus.read(0x2008), 0);
}

#[test]
fn oam_dma_copies_a_ram_page_in_order() {
    let mut bus = fresh_bus();
    for i in 0..256u16 {
        bus.write(0x0200 + i, i as u8);
    }
    bus.write(0x4014, 0x02);
    assert!(bus.dma_stall);
    for i in 0..256u16 {
        bus.write(0x2003, i as u8);
        assert_eq!(bus.read(0x2004), i as u8);
    }
}

#[test]
fn oam_dma_starts_at_the_current_cursor() {
    let mut bus = fresh_bus();
    for i in 0..256u16 {
        bus.write(0x0300 + i, i as u8);
    }
    bus.write(0x2003, 0x80);
    bus.write(0x4014, 0x03);
    // The cursor came back to where it started, 256 steps later.
    assert_eq!(bus.ppu.registers[3], 0x80);
    // Byte 0 of the page landed at the cursor, wrapping past 255.
    assert_eq!(bus.read(0x2004), 0);
    bus.write(0x2003, 0x7F);
    assert_eq!(bus.read(0x2004), 0xFF);
}

#[test]
fn oam_dma_reads_through_ram_mirrors() {
    let mut bus = fresh_bus();
    for i in 0..256u16 {
        bus.write(0x0100 + i, (255 - i) as u8);
    }
    bus.write(0x2003, 0);
    bus.write(0x4014, 0x09); // page 9 mirrors RAM page 1
    bus.write(0x2003, 0);
    assert_eq!(bus.read(0x2004), 255);
}

#[test]
fn interrupt_slot_overwrites_instead_of_queueing() {
    let mut bus = fresh_bus();
    bus.write(0x2000, 0x80); // enable NMI at vblank
    // Run two whole frames without ever polling: the PPU raises NMI twice,
    // but the single slot holds exactly one pending request.
    bus.tick(27508); // just past the first vblank entry
    assert_eq!(bus.pending_interrupt, Some(Interrupt::Nmi));
    bus.tick(29781); // through the next frame's vblank entry
    assert_eq!(bus.pending_interrupt, Some(Interrupt::Nmi));
    // Clearing once leaves nothing behind.
    bus.pending_interrupt = None;
    bus.read(0x2002); // acknowledge on the PPU side as well
    bus.tick(10);
    assert_eq!(bus.pending_interrupt, None);
}

#[test]
fn ctrl_write_during_vblank_latches_nmi_at_once() {
    let mut bus = fresh_bus();
    bus.ppu.in_vblank = true;
    bus.write(0x2000, 0x80);
    assert_eq!(bus.pending_interrupt, Some(Interrupt::Nmi));
}

#[test]
fn input_register_passes_through() {
    let mut bus = fresh_bus();
    bus.write(0x4016, 0x5A);
    assert_eq!(bus.read(0x4016), 0x5A);
    bus.write(0x4016, 0x00);
    assert_eq!(bus.read(0x4016), 0x00);
}

#[test]
fn write_only_and_unmapped_addresses_read_zero() {
    let mut bus = fresh_bus();
    assert_eq!(bus.read(0x2000), 0);
    assert_eq!(bus.read(0x2003), 0);
    assert_eq!(bus.read(0x2005), 0);
    assert_eq!(bus.read(0x2006), 0);
    assert_eq!(bus.read(0x4014), 0);
    assert_eq!(bus.read(0x4000), 0);
    assert_eq!(bus.read(0x4015), 0);
    assert_eq!(bus.read(0x401F), 0);
}

#[test]
fn program_space_dispatches_to_the_mapper() {
    let mut mapper = RamMapper::new();
    mapper.prg[0x8000] = 0x99;
    let mut bus = BUS::new(Vec::new(), mapper, PPU::new());
    assert_eq!(bus.read(0x8000), 0x99);
    bus.write(0xC123, 0x42);
    assert_eq!(bus.read(0xC123), 0x42);
}

#[test]
fn data_port_works_through_the_bus() {
    let mut bus = fresh_bus();
    bus.write(0x2006, 0x20);
    bus.write(0x2006, 0x00);
    bus.write(0x2007, 0xAB);
    bus.write(0x2006, 0x20);
    bus.write(0x2006, 0x00);
    bus.read(0x2007); // delayed buffer
    assert_eq!(bus.read(0x2007), 0xAB);
}

#[test]
fn data_port_address_wraps_within_14_bits() {
    let mut bus = fresh_bus();
    bus.write(0x2000, 0x04); // step 32
    bus.write(0x2006, 0x3F);
    bus.write(0x2006, 0xF0);
    for _ in 0..4 {
        bus.write(0x2007, 0x00);
        assert!(bus.ppu.vram_addr() <= 0x3FFF);
    }
    assert_eq!(bus.ppu.vram_addr(), 0x0070); // 0x3FF0 + 4 * 32, wrapped
}

#[test]
fn tick_drives_three_ppu_dots_per_cpu_cycle() {
    let mut bus = fresh_bus();
    bus.ppu.scanline = 100;
    bus.ppu.dot = 0;
    bus.tick(1);
    assert_eq!(bus.ppu.scanline, 100);
    assert_eq!(bus.ppu.dot, 3);
    bus.tick(113);
    assert_eq!(bus.ppu.dot, 342 % 341);
    assert_eq!(bus.ppu.scanline, 101);
}

#[test]
fn status_read_acknowledges_the_ppu_interrupt() {
    let mut bus = fresh_bus();
    bus.write(0x2000, 0x80);
    bus.tick(27508); // through the vblank entry
    assert_eq!(bus.pending_interrupt, Some(Interrupt::Nmi));
    assert_eq!(bus.ppu.pending_interrupt, Some(Interrupt::Nmi));
    bus.read(0x2002);
    bus.pending_interrupt = None;
    bus.tick(100); // still inside vblank: nothing re-raises
    assert_eq!(bus.pending_interrupt, None);
    assert_eq!(bus.ppu.pending_interrupt, None);
}

#[test]
fn fresh_bus_is_quiet() {
    let mut bus = fresh_bus();
    assert_eq!(bus.pending_interrupt, None);
    assert!(!bus.dma_stall);
    assert_eq!(bus.read(0x0000), 0);
    assert_eq!(bus.read(0x1FFF), 0);
}
