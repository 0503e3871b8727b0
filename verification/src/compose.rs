use crate::errors::{dimension_error, Errors};
use crate::raster::{
    height_of, pixel_at, raster_of, samples_of, set_pixel, width_of, PixelKind, Raster,
};
use crate::resize::room;
use image::{ColorType, DynamicImage};
use vstd::arithmetic::div_mod::lemma_fundamental_div_mod_converse;
use vstd::prelude::*;

verus! {

/// `n` zero bytes.
pub open spec fn zeros(n: nat) -> Seq<u8> {
    Seq::new(n, |i: int| 0u8)
}

/// A buffer of the given kind and size in which every sample is zero.
pub open spec fn cleared(kind: PixelKind, width: nat, height: nat) -> Raster {
    Raster::build(kind, width, height, |x: int, y: int| zeros(kind.pixel_bytes()))
}

/// A buffer of the given kind and size in which every pixel holds the given
/// red, green, blue and alpha.
pub open spec fn painted(kind: PixelKind, width: nat, height: nat, rgba: Seq<u8>) -> Raster {
    Raster::build(kind, width, height, |x: int, y: int| samples_of(kind, rgba))
}

/// A pixel averaged with a colour: red, green and blue each become half of
/// the pixel's plus half of the colour's, both halves rounded down; alpha
/// stays.
pub open spec fn blend_rgba(rgba: Seq<u8>, color: Seq<u8>) -> Seq<u8> {
    seq![
        (rgba[0] / 2 + color[0] / 2) as u8,
        (rgba[1] / 2 + color[1] / 2) as u8,
        (rgba[2] / 2 + color[2] / 2) as u8,
        rgba[3],
    ]
}

/// The buffer with every pixel averaged with the colour.
pub open spec fn blended(r: Raster, color: Seq<u8>) -> Raster {
    Raster::build(
        r.kind,
        r.width,
        r.height,
        |x: int, y: int| samples_of(r.kind, blend_rgba(r.rgba_at(x, y), color)),
    )
}

/// How the image crate composes a translucent pixel over another: both are
/// given, and the result comes, as red, green, blue and alpha.
pub uninterp spec fn mixed(under: Seq<u8>, over: Seq<u8>) -> Seq<u8>;

/// One pixel composed over another. A clear pixel changes nothing, an
/// opaque one takes the place, and a translucent one is mixed in.
pub open spec fn composed(under: Seq<u8>, over: Seq<u8>, mix: spec_fn(Seq<u8>, Seq<u8>) -> Seq<u8>) -> Seq<u8> {
    if over[3] == 0 {
        under
    } else if over[3] == 255 {
        over
    } else {
        mix(under, over)
    }
}

/// The buffer `under` with `over` composed onto it, the top left corner of
/// `over` at `(x, y)`. What of `over` lies beyond `under` is left out.
pub open spec fn overlaid_with(
    under: Raster,
    over: Raster,
    x: int,
    y: int,
    mix: spec_fn(Seq<u8>, Seq<u8>) -> Seq<u8>,
) -> Raster {
    Raster::build(
        under.kind,
        under.width,
        under.height,
        |i: int, j: int|
            if over.holds(i - x, j - y) {
                samples_of(under.kind, composed(under.rgba_at(i, j), over.rgba_at(i - x, j - y), mix))
            } else {
                under.pixels[(i, j)]
            },
    )
}

/// The buffer `under` with `over` composed onto it at `(x, y)`.
pub open spec fn overlaid(under: Raster, over: Raster, x: int, y: int) -> Raster {
    overlaid_with(under, over, x, y, |a: Seq<u8>, b: Seq<u8>| mixed(a, b))
}

/// The buffer `under` with the pixels of `over` written onto it, the top
/// left corner of `over` at `(x, y)`. What of `over` lies beyond `under` is
/// left out.
pub open spec fn replaced(under: Raster, over: Raster, x: int, y: int) -> Raster {
    Raster::build(
        under.kind,
        under.width,
        under.height,
        |i: int, j: int|
            if over.holds(i - x, j - y) {
                samples_of(under.kind, over.rgba_at(i - x, j - y))
            } else {
                under.pixels[(i, j)]
            },
    )
}

/// The buffer `under` covered by copies of `pattern` laid side by side from
/// the top left corner: every pixel is overwritten.
pub open spec fn tiled(under: Raster, pattern: Raster) -> Raster {
    Raster::build(
        under.kind,
        under.width,
        under.height,
        |i: int, j: int|
            samples_of(
                under.kind,
                pattern.rgba_at(i % (pattern.width as int), j % (pattern.height as int)),
            ),
    )
}

/// `imageops::overlay`: composes `over` onto the buffer with its top left
/// corner at `(x, y)`, pixel by pixel, leaving out what lies beyond the
/// buffer. A translucent pixel is mixed in by the image crate's own rule.
#[verifier::external_body]
pub(crate) fn overlay_onto(img: &mut DynamicImage, over: &DynamicImage, x: i64, y: i64)
    ensures
        raster_of(*final(img)) == overlaid_with(
            raster_of(*old(img)),
            raster_of(*over),
            x as int,
            y as int,
            |a: Seq<u8>, b: Seq<u8>| mixed(a, b),
        ),
{
    image::imageops::overlay(img, over, x, y);
}

/// `imageops::replace`: writes the pixels of `over` onto the buffer with
/// its top left corner at `(x, y)`, leaving out what lies beyond the buffer.
#[verifier::external_body]
pub(crate) fn replace_onto(img: &mut DynamicImage, over: &DynamicImage, x: i64, y: i64)
    ensures
        raster_of(*final(img)) == replaced(raster_of(*old(img)), raster_of(*over), x as int, y as int),
{
    image::imageops::replace(img, over, x, y);
}

/// `DynamicImage::new`: a new buffer of the given kind and size with every
/// sample zero.
#[verifier::external_body]
pub(crate) fn blank(kind: PixelKind, w: u32, h: u32) -> (out: DynamicImage)
    requires
        room(kind, w as int, h as int),
    ensures
        raster_of(out) == cleared(kind, w as nat, h as nat),
{
    let color = match kind {
        PixelKind::Luma8 => ColorType::L8,
        PixelKind::LumaA8 => ColorType::La8,
        PixelKind::Rgb8 => ColorType::Rgb8,
        PixelKind::Rgba8 => ColorType::Rgba8,
        PixelKind::Luma16 => ColorType::L16,
        PixelKind::LumaA16 => ColorType::La16,
        PixelKind::Rgb16 => ColorType::Rgb16,
        PixelKind::Rgba16 => ColorType::Rgba16,
        PixelKind::Rgb32F => ColorType::Rgb32F,
        PixelKind::Rgba32F => ColorType::Rgba32F,
    };
    DynamicImage::new(w, h, color)
}

/// An opaque buffer of 8-bit red, green and blue of the given size, every
/// pixel of which is `color`.
pub fn fill_color(color: [u8; 3], size: (u32, u32)) -> (out: DynamicImage)
    requires
        room(PixelKind::Rgb8, size.0 as int, size.1 as int),
    ensures
        raster_of(out) == painted(
            PixelKind::Rgb8,
            size.0 as nat,
            size.1 as nat,
            seq![color[0], color[1], color[2], 255u8],
        ),
{
    let mut img = blank(PixelKind::Rgb8, size.0, size.1);
    let rgba: [u8; 4] = [color[0], color[1], color[2], 255];
    let ghost want = painted(PixelKind::Rgb8, size.0 as nat, size.1 as nat, rgba@);
    let ghost start = raster_of(img);
    let mut x: u32 = 0;
    while x < size.0
        invariant
            x <= size.0,
            rgba@ == seq![color[0], color[1], color[2], 255u8],
            want == painted(PixelKind::Rgb8, size.0 as nat, size.1 as nat, rgba@),
            start == cleared(PixelKind::Rgb8, size.0 as nat, size.1 as nat),
            raster_of(img).kind == PixelKind::Rgb8,
            raster_of(img).width == size.0,
            raster_of(img).height == size.1,
            forall|i: int, j: int|
                0 <= i < size.0 && 0 <= j < size.1 ==> #[trigger] raster_of(img).pixels[(i, j)] == (
                if i < x {
                    want.pixels[(i, j)]
                } else {
                    start.pixels[(i, j)]
                }),
        decreases size.0 - x,
    {
        let mut y: u32 = 0;
        while y < size.1
            invariant
                x < size.0,
                y <= size.1,
                rgba@ == seq![color[0], color[1], color[2], 255u8],
                want == painted(PixelKind::Rgb8, size.0 as nat, size.1 as nat, rgba@),
                start == cleared(PixelKind::Rgb8, size.0 as nat, size.1 as nat),
                raster_of(img).kind == PixelKind::Rgb8,
                raster_of(img).width == size.0,
                raster_of(img).height == size.1,
                forall|i: int, j: int|
                    0 <= i < size.0 && 0 <= j < size.1 ==> #[trigger] raster_of(img).pixels[(i, j)]
                        == (if i < x || (i == x && j < y) {
                        want.pixels[(i, j)]
                    } else {
                        start.pixels[(i, j)]
                    }),
            decreases size.1 - y,
        {
            set_pixel(&mut img, x, y, rgba);
            y += 1;
        }
        x += 1;
    }
    assert(raster_of(img).pixels =~= want.pixels);
    img
}

/// Averages every pixel of the buffer with the colour `(r, g, b)`: red,
/// green and blue each become half of their own value plus half of the
/// colour's, both halves rounded down. Alpha is left as it is, and so are
/// the buffer's kind and size.
pub fn color_blend(image: DynamicImage, r: u8, g: u8, b: u8) -> (out: DynamicImage)
    ensures
        raster_of(out) == blended(raster_of(image), seq![r, g, b]),
{
    let mut img = image;
    let ghost start = raster_of(img);
    let ghost color = seq![r, g, b];
    let ghost want = blended(start, color);
    let h = height_of(&img);
    let w = width_of(&img);
    let mut x: u32 = 0;
    while x < w
        invariant
            x <= w,
            w == start.width,
            h == start.height,
            start == raster_of(image),
            color == seq![r, g, b],
            want == blended(start, color),
            raster_of(img).kind == start.kind,
            raster_of(img).width == start.width,
            raster_of(img).height == start.height,
            forall|i: int, j: int|
                0 <= i < w && 0 <= j < h ==> #[trigger] raster_of(img).pixels[(i, j)] == (if i < x {
                    want.pixels[(i, j)]
                } else {
                    start.pixels[(i, j)]
                }),
        decreases w - x,
    {
        let mut y: u32 = 0;
        while y < h
            invariant
                x < w,
                y <= h,
                w == start.width,
                h == start.height,
                start == raster_of(image),
                color == seq![r, g, b],
                want == blended(start, color),
                raster_of(img).kind == start.kind,
                raster_of(img).width == start.width,
                raster_of(img).height == start.height,
                forall|i: int, j: int|
                    0 <= i < w && 0 <= j < h ==> #[trigger] raster_of(img).pixels[(i, j)] == (if i
                        < x || (i == x && j < y) {
                        want.pixels[(i, j)]
                    } else {
                        start.pixels[(i, j)]
                    }),
            decreases h - y,
        {
            let mut pixel = pixel_at(&img, x, y);
            assert(raster_of(img).pixels[(x as int, y as int)] == start.pixels[(x as int, y as int)]);
            assert(pixel@ == raster_of(img).rgba_at(x as int, y as int));
            assert(pixel@ == start.rgba_at(x as int, y as int));
            let ghost before = pixel@;
            pixel[0] = pixel[0] / 2 + r / 2;
            pixel[1] = pixel[1] / 2 + g / 2;
            pixel[2] = pixel[2] / 2 + b / 2;
            assert(pixel@ =~= blend_rgba(before, color));
            set_pixel(&mut img, x, y, pixel);
            y += 1;
        }
        x += 1;
    }
    assert(raster_of(img).pixels =~= want.pixels);
    img
}

/// Averaging with a colour changes nothing where every sample is one byte,
/// every pixel already shows that colour, and the colour's red, green and
/// blue are even.
pub proof fn law_blend_fixed_point(r: Raster, color: Seq<u8>)
    requires
        r.well_formed(),
        r.kind.eight_bit(),
        color.len() == 3,
        color[0] % 2 == 0,
        color[1] % 2 == 0,
        color[2] % 2 == 0,
        forall|x: int, y: int|
            r.holds(x, y) ==> {
                &&& (#[trigger] r.rgba_at(x, y))[0] == color[0]
                &&& r.rgba_at(x, y)[1] == color[1]
                &&& r.rgba_at(x, y)[2] == color[2]
            },
    ensures
        blended(r, color) == r,
{
    let after = blended(r, color);
    assert forall|p: (int, int)| after.pixels.dom().contains(p) <==> r.pixels.dom().contains(p) by {
        assert(r.pixels.dom().contains((p.0, p.1)) <==> r.holds(p.0, p.1));
    }
    assert forall|p: (int, int)| after.pixels.dom().contains(p) implies after.pixels[p]
        == r.pixels[p] by {
        let (x, y) = p;
        let px = r.pixels[(x, y)];
        let seen = r.rgba_at(x, y);
        assert(r.holds(x, y));
        assert(px.len() == r.kind.pixel_bytes());
        let mix = blend_rgba(seen, color);
        assert(mix[0] == seen[0] && mix[1] == seen[1] && mix[2] == seen[2] && mix[3] == seen[3]);
        assert(samples_of(r.kind, mix) =~= px);
    }
    assert(after.pixels =~= r.pixels);
}

/// Composes `over` onto the buffer with its top left corner at `coords`.
/// The corner may lie anywhere: what of `over` falls beyond the buffer is
/// left out, and the buffer keeps its kind and size.
pub fn overlay(image: DynamicImage, over: &DynamicImage, coords: (i64, i64)) -> (out: DynamicImage)
    ensures
        raster_of(out) == overlaid(raster_of(image), raster_of(*over), coords.0 as int, coords.1 as int),
{
    let mut img = image;
    overlay_onto(&mut img, over, coords.0, coords.1);
    assert(raster_of(img).pixels =~= overlaid(
        raster_of(image),
        raster_of(*over),
        coords.0 as int,
        coords.1 as int,
    ).pixels);
    img
}

/// Covers the buffer with copies of `pattern`, laid side by side from the
/// top left corner and cut at the right and bottom edges. Every pixel is
/// overwritten; the buffer keeps its kind and size. An empty pattern covers
/// nothing and is refused with an image error.
pub fn tile(image: DynamicImage, pattern: &DynamicImage) -> (res: Result<DynamicImage, Errors>)
    ensures
        match res {
            Ok(out) => {
                &&& raster_of(*pattern).width > 0 && raster_of(*pattern).height > 0
                &&& raster_of(out) == tiled(raster_of(image), raster_of(*pattern))
            },
            Err(e) => {
                &&& raster_of(*pattern).width == 0 || raster_of(*pattern).height == 0
                &&& e is ImageError
            },
        },
{
    let tw = width_of(pattern);
    let th = height_of(pattern);
    if tw == 0 || th == 0 {
        return Err(Errors::ImageError(dimension_error()));
    }
    let mut img = image;
    let w = width_of(&img);
    let h = height_of(&img);
    let ghost start = raster_of(img);
    let ghost top = raster_of(*pattern);
    let ghost want = tiled(start, top);
    let mut x: u64 = 0;
    let ghost mut col: int = 0;
    while x < w as u64
        invariant
            tw > 0 && th > 0,
            tw == top.width && th == top.height,
            top == raster_of(*pattern),
            w == start.width && h == start.height,
            want == tiled(start, top),
            x == col * tw,
            0 <= col,
            x < w + tw,
            raster_of(img).kind == start.kind,
            raster_of(img).width == start.width,
            raster_of(img).height == start.height,
            forall|i: int, j: int|
                0 <= i < w && 0 <= j < h ==> #[trigger] raster_of(img).pixels[(i, j)] == (if i < x {
                    want.pixels[(i, j)]
                } else {
                    start.pixels[(i, j)]
                }),
        decreases w + tw - x,
    {
        let mut y: u64 = 0;
        let ghost mut row: int = 0;
        while y < h as u64
            invariant
                tw > 0 && th > 0,
                tw == top.width && th == top.height,
                top == raster_of(*pattern),
                w == start.width && h == start.height,
                want == tiled(start, top),
                x == col * tw,
                0 <= col,
                x < w,
                y == row * th,
                0 <= row,
                y < h + th,
                raster_of(img).kind == start.kind,
                raster_of(img).width == start.width,
                raster_of(img).height == start.height,
                forall|i: int, j: int|
                    0 <= i < w && 0 <= j < h ==> #[trigger] raster_of(img).pixels[(i, j)] == (if i
                        < x || (i < x + tw && j < y) {
                        want.pixels[(i, j)]
                    } else {
                        start.pixels[(i, j)]
                    }),
            decreases h + th - y,
        {
            let ghost before = raster_of(img);
            replace_onto(&mut img, pattern, x as i64, y as i64);
            assert forall|i: int, j: int| 0 <= i < w && 0 <= j < h implies #[trigger] raster_of(
                img,
            ).pixels[(i, j)] == (if i < x || (i < x + tw && j < y + th) {
                want.pixels[(i, j)]
            } else {
                start.pixels[(i, j)]
            }) by {
                assert(raster_of(img).pixels[(i, j)] == replaced(before, top, x as int, y as int).pixels[(
                    i,
                    j,
                )]);
                assert(before.pixels[(i, j)] == (if i < x || (i < x + tw && j < y) {
                    want.pixels[(i, j)]
                } else {
                    start.pixels[(i, j)]
                }));
                if top.holds(i - x, j - y) {
                    lemma_fundamental_div_mod_converse(i, tw as int, col, i - x);
                    lemma_fundamental_div_mod_converse(j, th as int, row, j - y);
                }
            }
            y += th as u64;
            proof {
                assert((row + 1) * th == row * th + th) by (nonlinear_arith);
                row = row + 1;
            }
        }
        x += tw as u64;
        proof {
            assert((col + 1) * tw == col * tw + tw) by (nonlinear_arith);
            col = col + 1;
        }
    }
    assert(raster_of(img).pixels =~= want.pixels);
    Ok(img)
}

} // verus!
