use chip8::chip8::{Chip8, Chip8Error};
use chip8::display::Display;

#[test]
fn draw_sets_pixels_msb_first() {
    let mut d = Display::new();
    let coll = d.draw(0, 0, &vec![0b1010_0000]);
    assert!(!coll);
    assert!(d.pixel(0, 0));
    assert!(!d.pixel(0, 1));
    assert!(d.pixel(0, 2));
    assert!(!d.pixel(0, 3));
    assert!(!d.pixel(1, 0)); // only one row drawn
}

#[test]
fn draw_twice_clears_and_reports_collision() {
    let mut d = Display::new();
    let sprite = vec![0xFF, 0x81, 0xFF];
    let first = d.draw(5, 10, &sprite);
    assert!(!first);
    let second = d.draw(5, 10, &sprite);
    assert!(second);
    for row in 0..32 {
        for col in 0..64 {
            assert!(!d.pixel(row, col));
        }
    }
}

#[test]
fn draw_wraps_horizontally_at_x_60() {
    let mut d = Display::new();
    let coll = d.draw(60, 0, &vec![0xFF]);
    assert!(!coll);
    let lit: Vec<usize> = (0..64).filter(|&c| d.pixel(0, c)).collect();
    assert_eq!(lit, vec![0, 1, 2, 3, 60, 61, 62, 63]);
}

#[test]
fn draw_wraps_vertically() {
    let mut d = Display::new();
    d.draw(0, 31, &vec![0x80, 0x80]);
    assert!(d.pixel(31, 0));
    assert!(d.pixel(0, 0));
    assert!(!d.pixel(1, 0));
}

#[test]
fn wraparound_is_per_pixel_not_per_origin() {
    let mut d = Display::new();
    // drawn at (63, 31), a two-row, two-column block covers all four corners
    d.draw(63, 31, &vec![0xC0, 0xC0]);
    assert!(d.pixel(31, 63));
    assert!(d.pixel(31, 0));
    assert!(d.pixel(0, 63));
    assert!(d.pixel(0, 0));
    assert!(!d.pixel(1, 1));
}

#[test]
fn partial_overlap_collides_and_xors() {
    let mut d = Display::new();
    d.draw(0, 0, &vec![0b1100_0000]);
    let coll = d.draw(1, 0, &vec![0b1100_0000]);
    assert!(coll); // the shared column collided
    assert!(d.pixel(0, 0)); // only left sprite
    assert!(!d.pixel(0, 1)); // overlap toggled off
    assert!(d.pixel(0, 2)); // only right sprite
}

#[test]
fn clear_turns_everything_off() {
    let mut d = Display::new();
    d.draw(3, 4, &vec![0xFF, 0xFF]);
    d.clear();
    for row in 0..32 {
        for col in 0..64 {
            assert!(!d.pixel(row, col));
        }
    }
}

#[test]
fn empty_sprite_draws_nothing() {
    let mut d = Display::new();
    let coll = d.draw(0, 0, &vec![]);
    assert!(!coll);
    assert!(!d.pixel(0, 0));
}

#[test]
fn cpu_draw_sets_collision_flag() {
    let mut c = Chip8::new();
    // I = 0: the font glyph "0" (5 rows)
    c.op_annn(0);
    c.op_6xkk(0, 0);
    c.op_6xkk(1, 0);
    assert_eq!(c.op_dxyn(0, 1, 5), Ok(()));
    assert_eq!(c.v[0xF], 0);
    // 0xF0 top row: columns 0..4 on
    assert!(c.display.pixel(0, 0));
    assert!(c.display.pixel(0, 3));
    assert!(!c.display.pixel(0, 4));
    // same sprite again: collision, screen wiped
    assert_eq!(c.op_dxyn(0, 1, 5), Ok(()));
    assert_eq!(c.v[0xF], 1);
    assert!(!c.display.pixel(0, 0));
}

#[test]
fn cpu_draw_through_cycle() {
    let mut c = Chip8::new();
    // LD I, 0x202; DRW V0,V0,1; sprite byte 0x80 at 0x202... the sprite is
    // fetched from memory at I when the draw executes
    let rom = vec![0xA2, 0x04, 0xD0, 0x01, 0x80, 0x00];
    c.load_rom(&rom).unwrap();
    assert_eq!(c.cycle(), Ok(()));
    assert_eq!(c.i, 0x204);
    assert_eq!(c.cycle(), Ok(()));
    assert!(c.display.pixel(0, 0));
    assert_eq!(c.v[0xF], 0);
}

#[test]
fn cpu_draw_out_of_range_sprite_read() {
    let mut c = Chip8::new();
    c.i = 4095;
    assert_eq!(c.op_dxyn(0, 1, 2), Err(Chip8Error::AddressOutOfRange));
    c.i = 4094;
    assert_eq!(c.op_dxyn(0, 1, 2), Ok(()));
}

#[test]
fn draw_coordinates_reduce_modulo_screen() {
    let mut c = Chip8::new();
    c.op_annn(0); // glyph "0"
    c.op_6xkk(0, 64); // column 64 wraps to 0
    c.op_6xkk(1, 32); // row 32 wraps to 0
    assert_eq!(c.op_dxyn(0, 1, 1), Ok(()));
    assert!(c.display.pixel(0, 0));
}
