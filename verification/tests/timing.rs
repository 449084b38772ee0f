use nes_core::bus::Interrupt;
use nes_core::ppu::PPU;

#[test]
fn vblank_entry_sets_flag_and_raises_nmi() {
    let mut ppu = PPU::new();
    ppu.set_controller(0x80); // NMI enabled
    // From power-on at (261, 0) to processing dot 1 of scanline 241:
    // 341 dots of the pre-render line, 241 visible/post lines, two more dots.
    let steps = 341 * 242 + 2;
    let mut last = None;
    for _ in 0..steps {
        last = ppu.step();
    }
    assert!(ppu.in_vblank);
    assert_eq!(last, Some(Interrupt::Nmi));
    assert_eq!(ppu.pending_interrupt, Some(Interrupt::Nmi));
}

#[test]
fn vblank_entry_without_nmi_enable_raises_nothing() {
    let mut ppu = PPU::new();
    let steps = 341 * 242 + 2;
    let mut last = None;
    for _ in 0..steps {
        last = ppu.step();
    }
    assert!(ppu.in_vblank);
    assert_eq!(last, None);
    assert_eq!(ppu.pending_interrupt, None);
}

#[test]
fn prerender_dot_1_clears_the_status_flags() {
    let mut ppu = PPU::new();
    ppu.in_vblank = true;
    ppu.sprite_zero_hit = true;
    ppu.sprite_overflow = true;
    ppu.scanline = 261;
    ppu.dot = 1;
    ppu.step();
    assert!(!ppu.in_vblank);
    assert!(!ppu.sprite_zero_hit);
    assert!(!ppu.sprite_overflow);
}

#[test]
fn odd_frame_skips_the_last_prerender_dot() {
    let mut ppu = PPU::new();
    ppu.scanline = 261;
    ppu.dot = 339;
    ppu.odd_frame = true;
    ppu.step();
    assert_eq!(ppu.scanline, 0);
    assert_eq!(ppu.dot, 0);
    assert!(!ppu.odd_frame);
}

#[test]
fn even_frame_processes_the_last_prerender_dot() {
    let mut ppu = PPU::new();
    ppu.scanline = 261;
    ppu.dot = 339;
    ppu.odd_frame = false;
    ppu.step();
    assert_eq!(ppu.scanline, 261);
    assert_eq!(ppu.dot, 340);
    ppu.step();
    assert_eq!(ppu.scanline, 0);
    assert_eq!(ppu.dot, 0);
    assert!(ppu.odd_frame);
}

#[test]
fn a_full_even_frame_is_262_by_341_dots() {
    let mut ppu = PPU::new();
    ppu.scanline = 0;
    ppu.dot = 0;
    ppu.odd_frame = false;
    for _ in 0..262 * 341 {
        ppu.step();
    }
    assert_eq!(ppu.scanline, 0);
    assert_eq!(ppu.dot, 0);
    assert!(ppu.odd_frame);
}

#[test]
fn dot_257_reloads_horizontal_scroll_while_rendering() {
    let mut ppu = PPU::new();
    ppu.set_mask(0x08); // rendering on
    ppu.write_twice(5, 0xF8); // stage coarse-X = 31 in t
    ppu.scanline = 0;
    ppu.dot = 257;
    ppu.step();
    assert_eq!(ppu.vram_addr() & 0x1F, 31);
}

#[test]
fn dot_257_is_inert_while_rendering_is_off() {
    let mut ppu = PPU::new();
    ppu.write_twice(5, 0xF8);
    ppu.scanline = 0;
    ppu.dot = 257;
    ppu.step();
    assert_eq!(ppu.vram_addr(), 0);
}

#[test]
fn prerender_dots_280_to_304_reload_vertical_scroll() {
    let mut ppu = PPU::new();
    ppu.set_mask(0x08);
    ppu.write_twice(5, 0x00);
    ppu.write_twice(5, 0xFF); // stage fine-Y = 7, coarse-Y = 31 in t
    ppu.scanline = 261;
    ppu.dot = 280;
    ppu.step();
    assert_eq!(ppu.vram_addr(), 0x73E0);
}

#[test]
fn step_returns_the_pending_interrupt_without_clearing_it() {
    let mut ppu = PPU::new();
    ppu.pending_interrupt = Some(Interrupt::Nmi);
    ppu.scanline = 100;
    ppu.dot = 5;
    let r = ppu.step();
    assert_eq!(r, Some(Interrupt::Nmi));
    assert_eq!(ppu.pending_interrupt, Some(Interrupt::Nmi));
    let r2 = ppu.step();
    assert_eq!(r2, Some(Interrupt::Nmi));
}
