use nes_core::addr_register::AddrRegister;

#[test]
fn coarse_x_wrap_flips_horizontal_nametable() {
    let mut r = AddrRegister::new();
    r.set(31); // coarse-X = 31
    r.coarse_x_increment();
    assert_eq!(r.get() & 0x1F, 0); // coarse-X back to 0
    assert_eq!((r.get() >> 10) & 1, 1); // horizontal nametable flipped
    assert_eq!(r.get(), 0x0400);
}

#[test]
fn coarse_x_plain_increment() {
    let mut r = AddrRegister::new();
    r.set(10);
    r.coarse_x_increment();
    assert_eq!(r.get() & 0x1F, 11);
    assert_eq!((r.get() >> 10) & 1, 0); // nametable untouched
    assert_eq!(r.get(), 11);
}

#[test]
fn y_increment_wraps_at_coarse_29() {
    let mut r = AddrRegister::new();
    r.set(0x73A0); // fine-Y = 7, coarse-Y = 29
    r.y_increment();
    assert_eq!((r.get() >> 12) & 0x7, 0); // fine-Y reset
    assert_eq!((r.get() >> 5) & 0x1F, 0); // coarse-Y reset
    assert_eq!((r.get() >> 11) & 1, 1); // vertical nametable flipped
    assert_eq!(r.get(), 0x0800);
}

#[test]
fn y_increment_wraps_at_coarse_31_without_flip() {
    let mut r = AddrRegister::new();
    r.set(0x73E0); // fine-Y = 7, coarse-Y = 31 (out-of-range value)
    r.y_increment();
    assert_eq!(r.get(), 0); // everything reset, nametable untouched
}

#[test]
fn y_increment_plain_fine_y() {
    let mut r = AddrRegister::new();
    r.set(0x3155); // fine-Y = 3
    r.y_increment();
    assert_eq!(r.get(), 0x4155); // only fine-Y moved, 3 -> 4
}

#[test]
fn y_increment_plain_coarse_y() {
    let mut r = AddrRegister::new();
    r.set(0x7000 | (5 << 5)); // fine-Y = 7, coarse-Y = 5
    r.y_increment();
    assert_eq!((r.get() >> 12) & 0x7, 0);
    assert_eq!((r.get() >> 5) & 0x1F, 6);
    assert_eq!((r.get() >> 11) & 1, 0);
}

#[test]
fn bump_masks_address_into_14_bits() {
    let mut r = AddrRegister::new();
    r.set(0x3FF0);
    r.increment(32);
    assert_eq!(r.get(), 0x0010); // wrapped past 0x3FFF back into range
    let mut r2 = AddrRegister::new();
    r2.set(0x2000);
    for _ in 0..512 {
        r2.increment(32);
        assert!(r2.get() <= 0x3FFF);
    }
    assert_eq!(r2.get(), 0x2000); // 512 * 32 = 0x4000, one full lap
}

#[test]
fn bump_carries_into_high_byte() {
    let mut r = AddrRegister::new();
    r.set(0x20FF);
    r.increment(1);
    assert_eq!(r.get(), 0x2100);
}

#[test]
fn update_runs_the_two_step_protocol() {
    let mut r = AddrRegister::new();
    let mut temp: u16 = 0;
    assert!(r.latch()); // first-write mode
    r.update(0x3F, &mut temp);
    assert_eq!(temp, 0x3F00);
    assert!(!r.latch());
    assert_eq!(r.get(), 0); // register itself untouched by the first write
    r.update(0x21, &mut temp);
    assert_eq!(temp, 0x3F21);
    assert_eq!(r.get(), 0x3F21); // copied in full on the second write
    assert!(r.latch());
}

#[test]
fn update_first_write_clears_bit_14() {
    let mut r = AddrRegister::new();
    let mut temp: u16 = 0x7FFF;
    r.update(0xFF, &mut temp); // only the low six bits of the data survive
    assert_eq!(temp, 0x3FFF);
}

#[test]
fn set_horizontal_copies_coarse_x_and_nametable() {
    let mut r = AddrRegister::new();
    r.set(0x7BE0); // everything but coarse-X / horizontal bit set
    r.set_horizontal(0x041F);
    assert_eq!(r.get(), 0x7FFF);
    assert_eq!(r.get() & 0x1F, 0x1F);
    assert_eq!((r.get() >> 10) & 1, 1);
}

#[test]
fn set_vertical_copies_y_fields_and_nametable() {
    let mut r = AddrRegister::new();
    r.set(0x041F); // coarse-X and horizontal bit set
    r.set_vertical(0x7BE0);
    assert_eq!(r.get(), 0x7FFF);
    assert_eq!((r.get() >> 5) & 0x1F, 0x1F);
    assert_eq!((r.get() >> 11) & 1, 1);
    assert_eq!((r.get() >> 12) & 0x7, 7);
}

#[test]
fn latch_reset_and_toggle() {
    let mut r = AddrRegister::new();
    assert!(r.latch());
    r.toggle_latch();
    assert!(!r.latch());
    r.reset_latch();
    assert!(r.latch());
    r.reset_latch();
    assert!(r.latch());
}
