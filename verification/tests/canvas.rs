use gpuwu::TextCanvas;

fn zeros(n: usize) -> Vec<u8> {
    vec![0; n]
}

#[test]
fn new_canvas_is_blank() {
    let canvas = TextCanvas::new(4, 3, 4, 3);
    assert_eq!(canvas.dimensions(), (4, 3));
    assert_eq!(canvas.pixel(3, 2), [0, 0, 0, 0]);
    assert_eq!(canvas.into_samples(), zeros(48));
}

#[test]
fn empty_canvas_has_no_samples() {
    let canvas = TextCanvas::new(0, 0, 0, 0);
    assert_eq!(canvas.dimensions(), (0, 0));
    assert_eq!(canvas.into_samples(), Vec::<u8>::new());
}

#[test]
fn draw_writes_one_scaled_pixel() {
    let mut canvas = TextCanvas::new(4, 3, 4, 3);
    assert!(canvas.draw_glyph(1, 2, 1, 1, 0x80FF_8040));
    assert_eq!(canvas.pixel(1, 2), [128, 64, 32, 64]);
    assert_eq!(canvas.pixel(0, 2), [0, 0, 0, 0]);
    assert_eq!(canvas.pixel(2, 2), [0, 0, 0, 0]);
    assert_eq!(canvas.pixel(1, 1), [0, 0, 0, 0]);
    let samples = canvas.into_samples();
    let mut expected = zeros(48);
    expected[36..40].copy_from_slice(&[128, 64, 32, 64]);
    assert_eq!(samples, expected);
}

#[test]
fn draw_overwrites_earlier_pixel() {
    let mut canvas = TextCanvas::new(2, 2, 2, 2);
    assert!(canvas.draw_glyph(1, 0, 1, 1, 0xFFFF_FFFF));
    assert!(canvas.draw_glyph(1, 0, 1, 1, 0xFF10_2030));
    assert_eq!(canvas.pixel(1, 0), [0x10, 0x20, 0x30, 0xFF]);
}

#[test]
fn draw_outside_bounds_leaves_canvas_unchanged() {
    // the image is one pixel larger than the bounds, as when the width rounds up
    let mut canvas = TextCanvas::new(5, 5, 4, 4);
    assert!(!canvas.draw_glyph(4, 1, 1, 1, 0xFFFF_FFFF));
    assert!(!canvas.draw_glyph(1, 4, 1, 1, 0xFFFF_FFFF));
    assert!(!canvas.draw_glyph(-1, 1, 1, 1, 0xFFFF_FFFF));
    assert!(!canvas.draw_glyph(1, 1, 1, 1, 0x00FF_FFFF));
    assert!(!canvas.draw_glyph(1, 1, 2, 2, 0xFFFF_FFFF));
    assert_eq!(canvas.into_samples(), zeros(100));
}

#[test]
fn draw_twice_same_as_once() {
    let mut once = TextCanvas::new(3, 3, 3, 3);
    let mut twice = TextCanvas::new(3, 3, 3, 3);
    once.draw_glyph(2, 1, 1, 1, 0xC040_80C0);
    twice.draw_glyph(2, 1, 1, 1, 0xC040_80C0);
    twice.draw_glyph(2, 1, 1, 1, 0xC040_80C0);
    assert_eq!(once.into_samples(), twice.into_samples());
}

#[test]
fn draws_at_different_pixels_commute() {
    let mut ab = TextCanvas::new(3, 2, 3, 2);
    let mut ba = TextCanvas::new(3, 2, 3, 2);
    ab.draw_glyph(0, 1, 1, 1, 0xFF01_0203);
    ab.draw_glyph(2, 0, 1, 1, 0x8040_4040);
    ba.draw_glyph(2, 0, 1, 1, 0x8040_4040);
    ba.draw_glyph(0, 1, 1, 1, 0xFF01_0203);
    assert_eq!(ab.into_samples(), ba.into_samples());
}
