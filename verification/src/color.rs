use vstd::prelude::*;

verus! {

/// A colour channel scaled by an alpha value, as an integer in `0..=255`:
/// `channel * alpha / 255`, rounded down.
pub open spec fn scaled(channel: int, alpha: int) -> int {
    channel * alpha / 255
}

/// Scales one colour channel by alpha, which mimics blending with black.
pub fn scale_channel(channel: u8, alpha: u8) -> (out: u8)
    ensures
        out == scaled(channel as int, alpha as int),
        255 * out <= channel * alpha < 255 * out + 255,
{
    assert(0 <= channel as int * alpha as int <= 255 * 255) by (nonlinear_arith)
        requires
            channel <= 255,
            alpha <= 255,
    ;
    let product: i32 = channel as i32 * alpha as i32;
    let quotient: i32 = product / 255;
    // Restrict to the channel range; the quotient already lies in it.
    let clamped: i32 = if quotient < 0 {
        0
    } else if quotient > 255 {
        255
    } else {
        quotient
    };
    clamped as u8
}


/// Scaling by alpha only darkens: the result never exceeds the channel nor
/// the alpha; a fully opaque alpha keeps the channel, a zero alpha clears it,
/// and a full channel becomes the alpha itself.
pub proof fn lemma_scaled_bounds(channel: u8, alpha: u8)
    ensures
        0 <= scaled(channel as int, alpha as int) <= channel,
        scaled(channel as int, alpha as int) <= alpha,
        scaled(channel as int, 255) == channel,
        scaled(channel as int, 0) == 0,
        scaled(255, alpha as int) == alpha,
{
    let c = channel as int;
    let a = alpha as int;
    assert(0 <= c * a / 255 <= c) by (nonlinear_arith)
        requires
            0 <= c <= 255,
            0 <= a <= 255,
    ;
    assert(c * a / 255 <= a) by (nonlinear_arith)
        requires
            0 <= c <= 255,
            0 <= a <= 255,
    ;
    assert(c * 255 / 255 == c) by (nonlinear_arith);
    assert(255 * a / 255 == a) by (nonlinear_arith);
}

/// Scaling is monotonic in the channel and in the alpha.
pub proof fn lemma_scaled_monotonic(c1: u8, c2: u8, a1: u8, a2: u8)
    requires
        c1 <= c2,
        a1 <= a2,
    ensures
        scaled(c1 as int, a1 as int) <= scaled(c2 as int, a2 as int),
{
    let (c1, c2, a1, a2) = (c1 as int, c2 as int, a1 as int, a2 as int);
    assert(c1 * a1 <= c2 * a2) by (nonlinear_arith)
        requires
            0 <= c1 <= c2,
            0 <= a1 <= a2,
    ;
    assert(c1 * a1 / 255 <= c2 * a2 / 255) by (nonlinear_arith)
        requires
            c1 * a1 <= c2 * a2,
    ;
}

/// The red channel of a colour packed as cosmic-text packs it (`0xAARRGGBB`).
pub open spec fn red_of(packed: u32) -> u8 {
    ((packed & 0x00FF_0000) >> 16) as u8
}

/// The green channel of a packed colour.
pub open spec fn green_of(packed: u32) -> u8 {
    ((packed & 0x0000_FF00) >> 8) as u8
}

/// The blue channel of a packed colour.
pub open spec fn blue_of(packed: u32) -> u8 {
    (packed & 0x0000_00FF) as u8
}

/// The alpha channel of a packed colour.
pub open spec fn alpha_of(packed: u32) -> u8 {
    ((packed & 0xFF00_0000) >> 24) as u8
}

/// Calls `cosmic_text::Color::r`. Trusted to return bits 16..24 of the packed
/// value, as that method's source computes them.
#[verifier::external_body]
fn color_red(packed: u32) -> (r: u8)
    ensures
        r == red_of(packed),
{
    cosmic_text::Color(packed).r()
}

/// Calls `cosmic_text::Color::g`. Trusted to return bits 8..16 of the packed value.
#[verifier::external_body]
fn color_green(packed: u32) -> (g: u8)
    ensures
        g == green_of(packed),
{
    cosmic_text::Color(packed).g()
}

/// Calls `cosmic_text::Color::b`. Trusted to return bits 0..8 of the packed value.
#[verifier::external_body]
fn color_blue(packed: u32) -> (b: u8)
    ensures
        b == blue_of(packed),
{
    cosmic_text::Color(packed).b()
}

/// Calls `cosmic_text::Color::a`. Trusted to return bits 24..32 of the packed value.
#[verifier::external_body]
fn color_alpha(packed: u32) -> (a: u8)
    ensures
        a == alpha_of(packed),
{
    cosmic_text::Color(packed).a()
}

/// The texel written for a glyph pixel of colour `packed`: every channel,
/// alpha included, scaled by the colour's alpha.
pub open spec fn glyph_texel_spec(packed: u32) -> Seq<u8> {
    let a = alpha_of(packed) as int;
    seq![
        scaled(red_of(packed) as int, a) as u8,
        scaled(green_of(packed) as int, a) as u8,
        scaled(blue_of(packed) as int, a) as u8,
        scaled(a, a) as u8,
    ]
}

/// Whether the draw callback keeps a coverage rectangle at `(x, y)` of size
/// `w` by `h` with colour `packed`, given the canvas bounds `clip_width` and
/// `clip_height`: it keeps single pixels of non-zero alpha inside the bounds.
pub open spec fn glyph_accepted(
    x: i32,
    y: i32,
    w: u32,
    h: u32,
    packed: u32,
    clip_width: i32,
    clip_height: i32,
) -> bool {
    &&& alpha_of(packed) != 0
    &&& 0 <= x < clip_width
    &&& 0 <= y < clip_height
    &&& w == 1
    &&& h == 1
}

/// The texel for a glyph pixel of the given packed colour.
pub fn glyph_texel(packed: u32) -> (texel: [u8; 4])
    ensures
        texel@ == glyph_texel_spec(packed),
        texel[0] == scaled(red_of(packed) as int, alpha_of(packed) as int),
        texel[1] == scaled(green_of(packed) as int, alpha_of(packed) as int),
        texel[2] == scaled(blue_of(packed) as int, alpha_of(packed) as int),
        texel[3] == scaled(alpha_of(packed) as int, alpha_of(packed) as int),
{
    proof {
        lemma_glyph_texel_channels(packed);
    }
    let a = color_alpha(packed);
    let r = scale_channel(color_red(packed), a);
    let g = scale_channel(color_green(packed), a);
    let b = scale_channel(color_blue(packed), a);
    let alpha = scale_channel(a, a);
    let texel = [r, g, b, alpha];
    assert(texel@ =~= glyph_texel_spec(packed));
    texel
}

/// Decides what the draw callback does with one coverage rectangle: `None`
/// where it is skipped (zero alpha, outside the canvas bounds, or not a single
/// pixel), else the texel to write at `(x, y)`.
pub fn glyph_pixel(
    x: i32,
    y: i32,
    w: u32,
    h: u32,
    packed: u32,
    clip_width: i32,
    clip_height: i32,
) -> (out: Option<[u8; 4]>)
    ensures
        out is Some <==> glyph_accepted(x, y, w, h, packed, clip_width, clip_height),
        out matches Some(t) ==> t@ == glyph_texel_spec(packed),
        out is Some <==> (alpha_of(packed) != 0 && 0 <= x < clip_width && 0 <= y < clip_height
            && w == 1 && h == 1),
        out matches Some(t) ==> {
            &&& t[0] == scaled(red_of(packed) as int, alpha_of(packed) as int)
            &&& t[1] == scaled(green_of(packed) as int, alpha_of(packed) as int)
            &&& t[2] == scaled(blue_of(packed) as int, alpha_of(packed) as int)
            &&& t[3] == scaled(alpha_of(packed) as int, alpha_of(packed) as int)
        },
{
    proof {
        lemma_glyph_acceptance(x, y, w, h, packed, clip_width, clip_height);
        lemma_glyph_texel_channels(packed);
    }
    let a = color_alpha(packed);
    if a == 0 || x < 0 || x >= clip_width || y < 0 || y >= clip_height || w != 1 || h != 1 {
        return None;
    }
    Some(glyph_texel(packed))
}

/// Scaling rounds down: `scaled(c, a)` is the largest `s` with
/// `255 * s <= c * a`, so it is the floor of `c * a / 255`.
pub proof fn lemma_scaled_is_floor_quotient(channel: u8, alpha: u8)
    ensures
        255 * scaled(channel as int, alpha as int) <= channel * alpha,
        channel * alpha < 255 * scaled(channel as int, alpha as int) + 255,
        0 <= scaled(channel as int, alpha as int) <= 255,
{
    let p = channel as int * alpha as int;
    assert(0 <= p <= 255 * 255) by (nonlinear_arith)
        requires
            p == channel as int * alpha as int,
            channel <= 255,
            alpha <= 255,
    ;
    assert(255 * (p / 255) <= p < 255 * (p / 255) + 255) by (nonlinear_arith)
        requires
            0 <= p,
    ;
    assert(p / 255 <= 255) by (nonlinear_arith)
        requires
            0 <= p <= 255 * 255,
    ;
}

/// Every channel of a glyph texel, alpha included, is that channel of the
/// colour scaled by the colour's alpha (rounded down).
pub proof fn lemma_glyph_texel_channels(packed: u32)
    ensures
        glyph_texel_spec(packed).len() == 4,
        glyph_texel_spec(packed)[0] == scaled(red_of(packed) as int, alpha_of(packed) as int),
        glyph_texel_spec(packed)[1] == scaled(green_of(packed) as int, alpha_of(packed) as int),
        glyph_texel_spec(packed)[2] == scaled(blue_of(packed) as int, alpha_of(packed) as int),
        glyph_texel_spec(packed)[3] == scaled(alpha_of(packed) as int, alpha_of(packed) as int),
{
    lemma_scaled_is_floor_quotient(red_of(packed), alpha_of(packed));
    lemma_scaled_is_floor_quotient(green_of(packed), alpha_of(packed));
    lemma_scaled_is_floor_quotient(blue_of(packed), alpha_of(packed));
    lemma_scaled_is_floor_quotient(alpha_of(packed), alpha_of(packed));
}

/// A glyph pixel is kept exactly when it is a single pixel (`w == 1`,
/// `h == 1`) inside the bounds with non-zero alpha: every alpha from 1 to
/// 255 is kept, so faint anti-aliased edges are drawn too.
pub proof fn lemma_glyph_acceptance(
    x: i32,
    y: i32,
    w: u32,
    h: u32,
    packed: u32,
    clip_width: i32,
    clip_height: i32,
)
    ensures
        (alpha_of(packed) != 0 && 0 <= x < clip_width && 0 <= y < clip_height && w == 1 && h
            == 1) ==> glyph_accepted(x, y, w, h, packed, clip_width, clip_height),
        alpha_of(packed) == 0 ==> !glyph_accepted(x, y, w, h, packed, clip_width, clip_height),
        !(0 <= x < clip_width && 0 <= y < clip_height) ==> !glyph_accepted(
            x,
            y,
            w,
            h,
            packed,
            clip_width,
            clip_height,
        ),
        (w != 1 || h != 1) ==> !glyph_accepted(x, y, w, h, packed, clip_width, clip_height),
{
}

} // verus!
