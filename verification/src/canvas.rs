use vstd::prelude::*;

use crate::color::{
    alpha_of, blue_of, glyph_accepted, glyph_pixel, glyph_texel_spec, green_of,
    lemma_glyph_acceptance, lemma_glyph_texel_channels, red_of, scaled,
};
use image::RgbaImage;

verus! {

/// An `image::RgbaImage`, held where Verus sees nothing of it: what it holds
/// is known only through `image_samples` and `image_dimensions`.
#[verifier::external_body]
pub struct RgbaPixels {
    image: RgbaImage,
}

/// The raw samples of an RGBA image: row-major, four bytes per pixel.
pub uninterp spec fn image_samples(img: RgbaPixels) -> Seq<u8>;

/// The width and height an RGBA image was made with.
pub uninterp spec fn image_dimensions(img: RgbaPixels) -> (u32, u32);

/// Calls `image::ImageBuffer::new`: an image of the given size whose samples
/// are all zero. Its source panics when `4 * width`, or that times `height`,
/// overflows `usize`, which `requires` rules out.
#[verifier::external_body]
fn image_new(width: u32, height: u32) -> (img: RgbaPixels)
    requires
        4 * width <= usize::MAX,
        4 * width * height <= usize::MAX,
    ensures
        image_dimensions(img) == (width, height),
        image_samples(img) == Seq::new((4 * width * height) as nat, |i: int| 0u8),
{
    RgbaPixels { image: image::ImageBuffer::new(width, height) }
}

/// Calls `image::ImageBuffer::put_pixel`, which assigns the four samples of
/// pixel `(x, y)`, starting at index `4 * (y * width + x)`, and nothing else.
/// Its source panics outside the image, which `requires` rules out.
#[verifier::external_body]
fn image_put_pixel(img: &mut RgbaPixels, x: u32, y: u32, rgba: [u8; 4])
    requires
        x < image_dimensions(*old(img)).0,
        y < image_dimensions(*old(img)).1,
    ensures
        image_dimensions(*final(img)) == image_dimensions(*old(img)),
        image_samples(*final(img)) == with_pixel(
            image_samples(*old(img)),
            pixel_base(image_dimensions(*old(img)).0 as int, x as int, y as int),
            rgba@,
        ),
{
    img.image.put_pixel(x, y, image::Rgba(rgba))
}

/// Calls `image::ImageBuffer::get_pixel`: the four samples of pixel `(x, y)`.
/// Its source panics outside the image, which `requires` rules out.
#[verifier::external_body]
fn image_get_pixel(img: &RgbaPixels, x: u32, y: u32) -> (rgba: [u8; 4])
    requires
        x < image_dimensions(*img).0,
        y < image_dimensions(*img).1,
    ensures
        rgba@ == image_samples(*img).subrange(
            pixel_base(image_dimensions(*img).0 as int, x as int, y as int),
            pixel_base(image_dimensions(*img).0 as int, x as int, y as int) + 4,
        ),
{
    img.image.get_pixel(x, y).0
}

/// Calls `image::ImageBuffer::dimensions`: the width and height the image
/// was made with.
#[verifier::external_body]
fn image_get_dimensions(img: &RgbaPixels) -> (dims: (u32, u32))
    ensures
        dims == image_dimensions(*img),
{
    img.image.dimensions()
}

/// Calls `image::ImageBuffer::into_raw`: the samples the image holds.
#[verifier::external_body]
fn image_into_raw(img: RgbaPixels) -> (raw: Vec<u8>)
    ensures
        raw@ == image_samples(img),
{
    img.image.into_raw()
}

/// Index of the first sample of pixel `(x, y)` in an image `width` pixels wide.
pub open spec fn pixel_base(width: int, x: int, y: int) -> int {
    4 * (y * width + x)
}

/// `samples` with the four samples from `base` on replaced by `rgba`.
pub open spec fn with_pixel(samples: Seq<u8>, base: int, rgba: Seq<u8>) -> Seq<u8> {
    Seq::new(
        samples.len(),
        |i: int|
            if base <= i < base + 4 {
                rgba[i - base]
            } else {
                samples[i]
            },
    )
}

/// The samples after the draw callback ran once on a canvas `width` pixels wide
/// whose bounds are `clip_width` by `clip_height`.
pub open spec fn draw_glyph_spec(
    samples: Seq<u8>,
    width: u32,
    clip_width: i32,
    clip_height: i32,
    x: i32,
    y: i32,
    w: u32,
    h: u32,
    packed: u32,
) -> Seq<u8> {
    if glyph_accepted(x, y, w, h, packed, clip_width, clip_height) {
        with_pixel(samples, pixel_base(width as int, x as int, y as int), glyph_texel_spec(packed))
    } else {
        samples
    }
}

/// The texture a text object is rasterised into: an RGBA image together with
/// the bounds, in whole pixels, inside which glyph pixels are kept.
pub struct TextCanvas {
    image: RgbaPixels,
    clip_width: i32,
    clip_height: i32,
}

impl TextCanvas {
    /// Width of the image in pixels.
    pub closed spec fn image_width(&self) -> u32 {
        image_dimensions(self.image).0
    }

    /// Height of the image in pixels.
    pub closed spec fn image_height(&self) -> u32 {
        image_dimensions(self.image).1
    }

    /// Glyph pixels are kept only where `x < clip_width`.
    pub closed spec fn clip_width(&self) -> i32 {
        self.clip_width
    }

    /// Glyph pixels are kept only where `y < clip_height`.
    pub closed spec fn clip_height(&self) -> i32 {
        self.clip_height
    }

    /// The image's samples: row-major, four bytes (R, G, B, A) per pixel.
    pub closed spec fn samples(&self) -> Seq<u8> {
        image_samples(self.image)
    }

    /// The canvas invariant: the samples cover the image exactly, and the
    /// bounds lie inside the image.
    pub closed spec fn wf(&self) -> bool {
        &&& self.samples().len() == 4 * self.image_width() * self.image_height()
        &&& 4 * self.image_width() * self.image_height() <= usize::MAX
        &&& self.clip_width <= self.image_width()
        &&& self.clip_height <= self.image_height()
    }

    /// A blank (all zero) canvas of `image_width` by `image_height` pixels that
    /// keeps glyph pixels with `0 <= x < clip_width` and `0 <= y < clip_height`.
    pub fn new(image_width: u32, image_height: u32, clip_width: i32, clip_height: i32) -> (canvas:
        Self)
        requires
            4 * image_width <= usize::MAX,
            4 * image_width * image_height <= usize::MAX,
            clip_width <= image_width,
            clip_height <= image_height,
        ensures
            canvas.wf(),
            canvas.image_width() == image_width,
            canvas.image_height() == image_height,
            canvas.clip_width() == clip_width,
            canvas.clip_height() == clip_height,
            canvas.samples() == Seq::new(
                (4 * image_width * image_height) as nat,
                |i: int| 0u8,
            ),
    {
        let image = image_new(image_width, image_height);
        TextCanvas { image, clip_width, clip_height }
    }

    /// The draw callback for one coverage rectangle reported by the text
    /// shaper: a single pixel of non-zero alpha inside the bounds is written,
    /// every channel scaled by its alpha; anything else is ignored. Returns
    /// whether a pixel was written.
    pub fn draw_glyph(&mut self, x: i32, y: i32, w: u32, h: u32, packed: u32) -> (drawn: bool)
        requires
            old(self).wf(),
        ensures
            final(self).wf(),
            final(self).image_width() == old(self).image_width(),
            final(self).image_height() == old(self).image_height(),
            final(self).clip_width() == old(self).clip_width(),
            final(self).clip_height() == old(self).clip_height(),
            drawn == glyph_accepted(
                x,
                y,
                w,
                h,
                packed,
                old(self).clip_width(),
                old(self).clip_height(),
            ),
            final(self).samples() == draw_glyph_spec(
                old(self).samples(),
                old(self).image_width(),
                old(self).clip_width(),
                old(self).clip_height(),
                x,
                y,
                w,
                h,
                packed,
            ),
    {
        match glyph_pixel(x, y, w, h, packed, self.clip_width, self.clip_height) {
            None => false,
            Some(texel) => {
                image_put_pixel(&mut self.image, x as u32, y as u32, texel);
                true
            },
        }
    }

    /// The four samples (R, G, B, A) of pixel `(x, y)`.
    pub fn pixel(&self, x: u32, y: u32) -> (rgba: [u8; 4])
        requires
            self.wf(),
            x < self.image_width(),
            y < self.image_height(),
        ensures
            rgba@ == self.samples().subrange(
                pixel_base(self.image_width() as int, x as int, y as int),
                pixel_base(self.image_width() as int, x as int, y as int) + 4,
            ),
    {
        image_get_pixel(&self.image, x, y)
    }

    /// Width and height of the image in pixels.
    pub fn dimensions(&self) -> (dims: (u32, u32))
        ensures
            dims == (self.image_width(), self.image_height()),
    {
        image_get_dimensions(&self.image)
    }

    /// Gives up the canvas for its samples (row-major RGBA), to be uploaded
    /// as a texture.
    pub fn into_samples(self) -> (raw: Vec<u8>)
        ensures
            raw@ == self.samples(),
    {
        image_into_raw(self.image)
    }
}

/// Two distinct pixels of an image `width` pixels wide have disjoint sample ranges.
proof fn lemma_pixel_ranges_disjoint(width: int, x1: int, y1: int, x2: int, y2: int)
    requires
        0 <= x1 < width,
        0 <= x2 < width,
        0 <= y1,
        0 <= y2,
        x1 != x2 || y1 != y2,
    ensures
        pixel_base(width, x1, y1) + 4 <= pixel_base(width, x2, y2) || pixel_base(width, x2, y2)
            + 4 <= pixel_base(width, x1, y1),
{
    if y1 == y2 {
    } else if y1 < y2 {
        assert(y1 * width + width <= y2 * width) by (nonlinear_arith)
            requires
                y1 < y2,
                0 <= width,
        ;
    } else {
        assert(y2 * width + width <= y1 * width) by (nonlinear_arith)
            requires
                y2 < y1,
                0 <= width,
        ;
    }
}

/// Drawing never changes a pixel outside the canvas bounds: for every pixel
/// `(px, py)` of the image with `px >= clip_width` or `py >= clip_height`,
/// its samples are the same after the draw as before.
pub proof fn lemma_draw_keeps_outside_clip(
    samples: Seq<u8>,
    width: u32,
    clip_width: i32,
    clip_height: i32,
    x: i32,
    y: i32,
    w: u32,
    h: u32,
    packed: u32,
    px: u32,
    py: u32,
)
    requires
        clip_width <= width,
        px < width,
        px >= clip_width || py >= clip_height,
    ensures
        forall|k: int|
            0 <= k < 4 && pixel_base(width as int, px as int, py as int) + k < samples.len()
                ==> #[trigger] draw_glyph_spec(
                samples,
                width,
                clip_width,
                clip_height,
                x,
                y,
                w,
                h,
                packed,
            )[pixel_base(width as int, px as int, py as int) + k] == samples[pixel_base(
                width as int,
                px as int,
                py as int,
            ) + k],
{
    if glyph_accepted(x, y, w, h, packed, clip_width, clip_height) {
        lemma_pixel_ranges_disjoint(width as int, x as int, y as int, px as int, py as int);
    }
}

/// Drawing is idempotent: running the callback twice on the same rectangle
/// leaves the canvas as running it once does.
pub proof fn lemma_draw_idempotent(
    samples: Seq<u8>,
    width: u32,
    clip_width: i32,
    clip_height: i32,
    x: i32,
    y: i32,
    w: u32,
    h: u32,
    packed: u32,
)
    ensures
        draw_glyph_spec(
            draw_glyph_spec(samples, width, clip_width, clip_height, x, y, w, h, packed),
            width,
            clip_width,
            clip_height,
            x,
            y,
            w,
            h,
            packed,
        ) == draw_glyph_spec(samples, width, clip_width, clip_height, x, y, w, h, packed),
{
    let once = draw_glyph_spec(samples, width, clip_width, clip_height, x, y, w, h, packed);
    let twice = draw_glyph_spec(once, width, clip_width, clip_height, x, y, w, h, packed);
    assert(twice =~= once);
}

/// Glyph pixels at different positions commute: the order in which the
/// shaper reports them does not change the result.
pub proof fn lemma_draws_commute(
    samples: Seq<u8>,
    width: u32,
    clip_width: i32,
    clip_height: i32,
    x1: i32,
    y1: i32,
    w1: u32,
    h1: u32,
    packed1: u32,
    x2: i32,
    y2: i32,
    w2: u32,
    h2: u32,
    packed2: u32,
)
    requires
        clip_width <= width,
        x1 != x2 || y1 != y2,
    ensures
        draw_glyph_spec(
            draw_glyph_spec(samples, width, clip_width, clip_height, x1, y1, w1, h1, packed1),
            width,
            clip_width,
            clip_height,
            x2,
            y2,
            w2,
            h2,
            packed2,
        ) == draw_glyph_spec(
            draw_glyph_spec(samples, width, clip_width, clip_height, x2, y2, w2, h2, packed2),
            width,
            clip_width,
            clip_height,
            x1,
            y1,
            w1,
            h1,
            packed1,
        ),
{
    let a = draw_glyph_spec(
        draw_glyph_spec(samples, width, clip_width, clip_height, x1, y1, w1, h1, packed1),
        width,
        clip_width,
        clip_height,
        x2,
        y2,
        w2,
        h2,
        packed2,
    );
    let b = draw_glyph_spec(
        draw_glyph_spec(samples, width, clip_width, clip_height, x2, y2, w2, h2, packed2),
        width,
        clip_width,
        clip_height,
        x1,
        y1,
        w1,
        h1,
        packed1,
    );
    if glyph_accepted(x1, y1, w1, h1, packed1, clip_width, clip_height) && glyph_accepted(
        x2,
        y2,
        w2,
        h2,
        packed2,
        clip_width,
        clip_height,
    ) {
        lemma_pixel_ranges_disjoint(width as int, x1 as int, y1 as int, x2 as int, y2 as int);
    }
    assert(a =~= b);
}

/// The effect of one draw on the samples: the length never changes; a
/// single pixel of non-zero alpha inside the bounds gets its four samples set
/// to its colour's red, green, blue and alpha, each scaled by that alpha, and
/// every other sample keeps its value; any other rectangle changes nothing.
pub proof fn lemma_draw_glyph_effect(
    samples: Seq<u8>,
    width: u32,
    clip_width: i32,
    clip_height: i32,
    x: i32,
    y: i32,
    w: u32,
    h: u32,
    packed: u32,
)
    ensures
        draw_glyph_spec(samples, width, clip_width, clip_height, x, y, w, h, packed).len()
            == samples.len(),
        !(alpha_of(packed) != 0 && 0 <= x < clip_width && 0 <= y < clip_height && w == 1 && h
            == 1) ==> draw_glyph_spec(samples, width, clip_width, clip_height, x, y, w, h, packed)
            == samples,
        (alpha_of(packed) != 0 && 0 <= x < clip_width && 0 <= y < clip_height && w == 1 && h
            == 1) ==> {
            let out = draw_glyph_spec(samples, width, clip_width, clip_height, x, y, w, h, packed);
            let base = 4 * (y * width + x);
            let a = alpha_of(packed) as int;
            &&& forall|i: int|
                0 <= i < samples.len() && !(base <= i < base + 4) ==> #[trigger] out[i]
                    == samples[i]
            &&& (0 <= base && base + 4 <= samples.len()) ==> {
                &&& out[base] == scaled(red_of(packed) as int, a)
                &&& out[base + 1] == scaled(green_of(packed) as int, a)
                &&& out[base + 2] == scaled(blue_of(packed) as int, a)
                &&& out[base + 3] == scaled(a, a)
            }
        },
{
    lemma_glyph_acceptance(x, y, w, h, packed, clip_width, clip_height);
    lemma_glyph_texel_channels(packed);
}

/// Every pixel of a `width` by `height` image has its four samples inside
/// the `4 * width * height` samples, and distinct pixels have disjoint ones.
pub proof fn lemma_pixel_layout(width: u32, height: u32, x1: u32, y1: u32, x2: u32, y2: u32)
    requires
        x1 < width,
        y1 < height,
        x2 < width,
        y2 < height,
    ensures
        0 <= pixel_base(width as int, x1 as int, y1 as int),
        pixel_base(width as int, x1 as int, y1 as int) + 4 <= 4 * width * height,
        (x1 != x2 || y1 != y2) ==> (pixel_base(width as int, x1 as int, y1 as int) + 4
            <= pixel_base(width as int, x2 as int, y2 as int) || pixel_base(
            width as int,
            x2 as int,
            y2 as int,
        ) + 4 <= pixel_base(width as int, x1 as int, y1 as int)),
{
    let (w, x, y, hh) = (width as int, x1 as int, y1 as int, height as int);
    assert(0 <= y * w + x && y * w + x + 1 <= w * hh) by (nonlinear_arith)
        requires
            0 <= x < w,
            0 <= y < hh,
    ;
    assert(4 * (y * w + x) + 4 <= 4 * w * hh) by (nonlinear_arith)
        requires
            y * w + x + 1 <= w * hh,
    ;
    if x1 != x2 || y1 != y2 {
        lemma_pixel_ranges_disjoint(w, x, y, x2 as int, y2 as int);
    }
}

} // verus!
