use microbit_pins::banner::{
    stuff, wrapping_decr, BANNER_ROW, DISPLAY_WIDTH, PUBLIC_SERVICE_ANNOUNCEMENT,
};

#[test]
fn banner_starts_past_right_edge() {
    let b = stuff();
    assert_eq!(b.offset_x, 128);
    assert_eq!(b.offset_y, 32);
    assert_eq!(b.offset_x, DISPLAY_WIDTH);
    assert_eq!(b.offset_y, BANNER_ROW);
}

#[test]
fn banner_uses_ten_pixel_glyphs() {
    assert_eq!(stuff().glyph_width, 10);
}

#[test]
fn banner_holds_announcement() {
    let b = stuff();
    assert_eq!(b.message, PUBLIC_SERVICE_ANNOUNCEMENT);
    assert_eq!(b.message_len, 83);
    assert_eq!(b.message_len, PUBLIC_SERVICE_ANNOUNCEMENT.chars().count());
}

#[test]
fn decrement_moves_left() {
    let mut x: i32 = 128;
    wrapping_decr(&mut x, 1, 83, 10);
    assert_eq!(x, 127);
    wrapping_decr(&mut x, 27, 83, 10);
    assert_eq!(x, 100);
}

#[test]
fn decrement_keeps_exact_left_limit() {
    let mut x: i32 = -820;
    wrapping_decr(&mut x, 10, 83, 10);
    assert_eq!(x, -830);
}

#[test]
fn decrement_wraps_past_left_limit() {
    let mut x: i32 = -830;
    wrapping_decr(&mut x, 1, 83, 10);
    assert_eq!(x, 128);
}

#[test]
fn empty_message_wraps_once_left_of_origin() {
    let mut x: i32 = 0;
    wrapping_decr(&mut x, 0, 0, 10);
    assert_eq!(x, 0);
    wrapping_decr(&mut x, 1, 0, 10);
    assert_eq!(x, 128);
}

#[test]
fn full_scroll_returns_to_start() {
    let b = stuff();
    let mut x = b.offset_x;
    let mut steps = 0;
    loop {
        wrapping_decr(&mut x, 1, b.message_len, b.glyph_width);
        steps += 1;
        if x == DISPLAY_WIDTH {
            break;
        }
    }
    assert_eq!(steps, 128 + 830 + 1);
}
