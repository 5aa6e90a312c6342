use gpuwu::{glyph_pixel, glyph_texel, scale_channel};

#[test]
fn scale_channel_exact_values() {
    assert_eq!(scale_channel(255, 255), 255);
    assert_eq!(scale_channel(200, 128), 100);
    assert_eq!(scale_channel(128, 128), 64);
    assert_eq!(scale_channel(1, 254), 0);
    assert_eq!(scale_channel(17, 15), 1);
}

#[test]
fn scale_channel_zero_and_opaque_alpha() {
    for c in 0..=255u8 {
        assert_eq!(scale_channel(c, 0), 0);
        assert_eq!(scale_channel(c, 255), c);
        assert_eq!(scale_channel(255, c), c);
        assert_eq!(scale_channel(0, c), 0);
    }
}

#[test]
fn scale_channel_never_brightens() {
    for c in 0..=255u8 {
        for a in 0..=255u8 {
            let s = scale_channel(c, a);
            assert!(s <= c && s <= a);
        }
    }
}

#[test]
fn glyph_texel_scales_every_channel_by_alpha() {
    // alpha 0x80, red 0xFF, green 0x80, blue 0x40
    assert_eq!(glyph_texel(0x80FF_8040), [128, 64, 32, 64]);
    // opaque white keeps every channel
    assert_eq!(glyph_texel(0xFFFF_FFFF), [255, 255, 255, 255]);
    // opaque colour keeps its channels in order
    assert_eq!(glyph_texel(0xFF12_3456), [0x12, 0x34, 0x56, 0xFF]);
}

#[test]
fn glyph_pixel_accepts_single_pixels_inside_bounds() {
    assert_eq!(glyph_pixel(0, 0, 1, 1, 0xFF12_3456, 4, 3), Some([0x12, 0x34, 0x56, 0xFF]));
    assert_eq!(glyph_pixel(3, 2, 1, 1, 0x80FF_8040, 4, 3), Some([128, 64, 32, 64]));
}

#[test]
fn glyph_pixel_skips_transparent_pixels() {
    assert_eq!(glyph_pixel(1, 1, 1, 1, 0x00FF_FFFF, 4, 3), None);
}

#[test]
fn glyph_pixel_skips_pixels_outside_bounds() {
    assert_eq!(glyph_pixel(-1, 0, 1, 1, 0xFFFF_FFFF, 4, 3), None);
    assert_eq!(glyph_pixel(0, -1, 1, 1, 0xFFFF_FFFF, 4, 3), None);
    assert_eq!(glyph_pixel(4, 0, 1, 1, 0xFFFF_FFFF, 4, 3), None);
    assert_eq!(glyph_pixel(0, 3, 1, 1, 0xFFFF_FFFF, 4, 3), None);
    assert_eq!(glyph_pixel(0, 0, 1, 1, 0xFFFF_FFFF, 0, 0), None);
}

#[test]
fn glyph_pixel_skips_larger_rectangles() {
    assert_eq!(glyph_pixel(0, 0, 2, 1, 0xFFFF_FFFF, 4, 3), None);
    assert_eq!(glyph_pixel(0, 0, 1, 2, 0xFFFF_FFFF, 4, 3), None);
    assert_eq!(glyph_pixel(0, 0, 0, 1, 0xFFFF_FFFF, 4, 3), None);
}
