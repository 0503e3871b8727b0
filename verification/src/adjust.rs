use crate::compose::blank;
use crate::errors::{dimension_error, Errors};
use crate::raster::{
    height_of, image_kind, kind_of, luma8, raster_of, width_of, PixelKind, Raster,
};
use crate::resize::{buffer_fits, fits, lemma_empty_has_room, LONGEST_SIDE};
use image::DynamicImage;
use vstd::prelude::*;

verus! {

/// The exponent field of an IEEE 754 single, given as its bits.
pub open spec fn exponent_of(bits: u32) -> u32 {
    (bits >> 23) & 0xff
}

/// Whether the bits are those of a single that is neither infinite nor NaN.
pub open spec fn finite_single(bits: u32) -> bool {
    exponent_of(bits) != 0xff
}

/// The bits of the single 2^-60, the smallest positive width of a blur:
/// the square of a smaller one may underflow to zero.
pub const SMALLEST_BLUR: u32 = 0x2180_0000;

/// The bits of the single 2^120, the largest width of a blur: a larger one
/// may overflow when the height of the bell curve is worked out.
pub const LARGEST_BLUR: u32 = 0x7b80_0000;

/// Whether the bits are those of a single that can measure a blur: zero, a
/// finite negative number, or a positive number from 2^-60 to 2^120. Zero
/// and negative numbers stand for a blur of one.
pub open spec fn blur_amount(bits: u32) -> bool {
    bits == 0 || (bits >> 31 == 1 && finite_single(bits)) || SMALLEST_BLUR <= bits <= LARGEST_BLUR
}

/// Whether a buffer of `w` by `h` can be blurred by the width whose bits
/// are `sigma`: the width can measure a blur, no side is longer than 2^23,
/// and the working buffers can be held.
pub open spec fn can_blur(sigma: u32, w: int, h: int) -> bool {
    blur_amount(sigma) && w <= LONGEST_SIDE && h <= LONGEST_SIDE && fits(w, h)
}

/// Whether the bits are those of a finite single.
pub fn is_finite_single(bits: u32) -> (ok: bool)
    ensures
        ok == finite_single(bits),
{
    (bits >> 23) & 0xff != 0xff
}

/// Whether the bits are those of a single that can measure a blur.
pub fn is_blur_amount(bits: u32) -> (ok: bool)
    ensures
        ok == blur_amount(bits),
{
    bits == 0 || (bits >> 31 == 1 && is_finite_single(bits)) || (SMALLEST_BLUR <= bits && bits
        <= LARGEST_BLUR)
}

/// Whether a buffer of `w` by `h` can be blurred by the width whose bits
/// are `sigma`.
pub fn blur_allowed(sigma: u32, w: u32, h: u32) -> (ok: bool)
    ensures
        ok == can_blur(sigma, w as int, h as int),
{
    is_blur_amount(sigma) && w <= LONGEST_SIDE && h <= LONGEST_SIDE && buffer_fits(w, h)
}

/// Whether two buffers have the same kind and the same size.
pub open spec fn same_shape(before: Raster, after: Raster) -> bool {
    &&& after.kind == before.kind
    &&& after.width == before.width
    &&& after.height == before.height
}

/// Whether `after` is an 8-bit buffer of red, green, blue and alpha of the
/// same size as `before`.
pub open spec fn same_size_rgba8(before: Raster, after: Raster) -> bool {
    &&& after.kind == PixelKind::Rgba8
    &&& after.width == before.width
    &&& after.height == before.height
}

/// The largest value of a sample of this kind, for the kinds whose samples
/// are whole numbers.
pub open spec fn sample_max(kind: PixelKind) -> int {
    if kind.sample_bytes() == 1 {
        255
    } else {
        65535
    }
}

/// The bits of the single that sample `c` of a floating pixel is.
pub open spec fn single_bits(px: Seq<u8>, c: int) -> u32 {
    (px[4 * c] + 0x100 * px[4 * c + 1] + 0x1_0000 * px[4 * c + 2] + 0x100_0000 * px[4 * c + 3]) as u32
}

/// The samples of a floating buffer as their bits, row by row from the top,
/// in each row from the left, and in each pixel from the first sample.
pub open spec fn float_values(r: Raster) -> Seq<u32> {
    Seq::new(
        r.width * r.height * r.kind.channels(),
        |i: int|
            single_bits(
                r.pixels[(
                    (i / (r.kind.channels() as int)) % (r.width as int),
                    (i / (r.kind.channels() as int)) / (r.width as int),
                )],
                i % (r.kind.channels() as int),
            ),
    )
}

/// Whether the bits are those of a single between -2^30 and 2^30.
pub open spec fn small_single(bits: u32) -> bool {
    exponent_of(bits) < 157
}

/// The largest move of a floating buffer, up or down.
pub const LARGEST_MOVE: i32 = 0x4000_0000;

/// Whether the buffer can be brightened by `value`. The sum of a sample, as
/// a whole number, and `value` must be an `i32`. With whole-number samples
/// it is where the largest sample plus `value` is one. With floating
/// samples it is where every sample lies between -2^30 and 2^30 and `value`
/// from -2^30 to 2^30.
pub open spec fn can_brighten(r: Raster, value: int) -> bool {
    if r.kind.sample_bytes() == 4 {
        &&& -LARGEST_MOVE <= value <= LARGEST_MOVE
        &&& forall|i: int|
            0 <= i < float_values(r).len() ==> small_single(#[trigger] float_values(r)[i])
    } else {
        value + sample_max(r.kind) <= i32::MAX
    }
}

/// How the image crate inverts a pixel of a 16-bit or floating kind.
pub uninterp spec fn wide_inverted(kind: PixelKind, samples: Seq<u8>) -> Seq<u8>;

/// How the image crate brightens a pixel of a 16-bit or floating kind.
pub uninterp spec fn wide_brightened(kind: PixelKind, samples: Seq<u8>, value: int) -> Seq<u8>;

/// A sample turned into its complement.
pub open spec fn complement(v: u8) -> u8 {
    (255 - v) as u8
}

/// A pixel with its colour samples turned into their complements; alpha
/// stays.
pub open spec fn inverted_samples(kind: PixelKind, px: Seq<u8>) -> Seq<u8> {
    match kind {
        PixelKind::Luma8 => seq![complement(px[0])],
        PixelKind::LumaA8 => seq![complement(px[0]), px[1]],
        PixelKind::Rgb8 => seq![complement(px[0]), complement(px[1]), complement(px[2])],
        PixelKind::Rgba8 => seq![complement(px[0]), complement(px[1]), complement(px[2]), px[3]],
        _ => wide_inverted(kind, px),
    }
}

/// The buffer with every pixel inverted.
pub open spec fn inverted(r: Raster) -> Raster {
    Raster::build(r.kind, r.width, r.height, |x: int, y: int| inverted_samples(r.kind, r.pixels[(x, y)]))
}

/// A sample moved by `value` and kept between 0 and 255.
pub open spec fn shifted(v: u8, value: int) -> u8 {
    if v + value < 0 {
        0
    } else if v + value > 255 {
        255
    } else {
        (v + value) as u8
    }
}

/// A pixel with its colour samples moved by `value`; alpha stays.
pub open spec fn brightened_samples(kind: PixelKind, px: Seq<u8>, value: int) -> Seq<u8> {
    match kind {
        PixelKind::Luma8 => seq![shifted(px[0], value)],
        PixelKind::LumaA8 => seq![shifted(px[0], value), px[1]],
        PixelKind::Rgb8 => seq![shifted(px[0], value), shifted(px[1], value), shifted(px[2], value)],
        PixelKind::Rgba8 => seq![
            shifted(px[0], value),
            shifted(px[1], value),
            shifted(px[2], value),
            px[3],
        ],
        _ => wide_brightened(kind, px, value),
    }
}

/// The buffer with every pixel brightened by `value`.
pub open spec fn brightened(r: Raster, value: int) -> Raster {
    Raster::build(
        r.kind,
        r.width,
        r.height,
        |x: int, y: int| brightened_samples(r.kind, r.pixels[(x, y)], value),
    )
}

/// The buffer as 8-bit gray without alpha: every pixel keeps the brightness
/// of its red, green and blue.
pub open spec fn grayed(r: Raster) -> Raster {
    Raster::build(
        PixelKind::Luma8,
        r.width,
        r.height,
        |x: int, y: int| seq![luma8(r.rgba_at(x, y)[0], r.rgba_at(x, y)[1], r.rgba_at(x, y)[2])],
    )
}

/// `DynamicImage::blur` with the single whose bits are `sigma`: a new buffer
/// of the same kind and size.
#[verifier::external_body]
pub(crate) fn blur_by(img: &DynamicImage, sigma: u32) -> (out: DynamicImage)
    requires
        can_blur(sigma, raster_of(*img).width as int, raster_of(*img).height as int),
    ensures
        same_shape(raster_of(*img), raster_of(out)),
{
    img.blur(bytemuck::cast(sigma))
}

/// `imageops::unsharpen` of a `DynamicImage` with the single whose bits are
/// `sigma`: a new 8-bit buffer of red, green, blue and alpha of the same
/// size.
#[verifier::external_body]
pub(crate) fn unsharpen_by(img: &DynamicImage, sigma: u32, threshold: i32) -> (out: DynamicImage)
    requires
        can_blur(sigma, raster_of(*img).width as int, raster_of(*img).height as int),
    ensures
        same_size_rgba8(raster_of(*img), raster_of(out)),
{
    image::imageops::unsharpen(img, bytemuck::cast(sigma), threshold).into()
}

/// `DynamicImage::as_flat_samples_f32` and `FlatSamples::image_slice`: the
/// samples of a floating buffer in the order in which they are stored,
/// each as its bits; nothing for a buffer of another kind.
#[verifier::external_body]
pub(crate) fn float_samples(img: &DynamicImage) -> (bits: Option<Vec<u32>>)
    ensures
        match bits {
            Some(v) => image_kind(*img).sample_bytes() == 4 && v@ == float_values(raster_of(*img)),
            None => image_kind(*img).sample_bytes() != 4,
        },
{
    let flat = img.as_flat_samples_f32()?;
    let used: &[_] = flat.image_slice()?;
    Some(used.iter().map(|v| v.to_bits()).collect())
}

/// `DynamicImage::brighten`: a new buffer in which every colour sample is
/// moved by `value` and kept inside the range of its kind; alpha stays. For
/// a 16-bit or floating kind the samples are moved as the image crate
/// moves them. The buffer must hold a pixel: the image crate walks through
/// it in a way that fails on a buffer without width.
#[verifier::external_body]
pub(crate) fn brighten_by(img: &DynamicImage, value: i32) -> (out: DynamicImage)
    requires
        can_brighten(raster_of(*img), value as int),
        raster_of(*img).width >= 1 && raster_of(*img).height >= 1,
    ensures
        raster_of(out) == Raster::build(
            raster_of(*img).kind,
            raster_of(*img).width,
            raster_of(*img).height,
            |x: int, y: int|
                if raster_of(*img).kind.eight_bit() {
                    brightened_samples(raster_of(*img).kind, raster_of(*img).pixels[(x, y)], value as int)
                } else {
                    wide_brightened(raster_of(*img).kind, raster_of(*img).pixels[(x, y)], value as int)
                },
        ),
{
    img.brighten(value)
}

/// `DynamicImage::adjust_contrast` with the single whose bits are
/// `contrast`: a new buffer of the same kind and size. The buffer must hold
/// a pixel: the image crate walks through it in a way that fails on a
/// buffer without width.
#[verifier::external_body]
pub(crate) fn contrast_by(img: &DynamicImage, contrast: u32) -> (out: DynamicImage)
    requires
        finite_single(contrast),
        raster_of(*img).width >= 1 && raster_of(*img).height >= 1,
    ensures
        same_shape(raster_of(*img), raster_of(out)),
{
    img.adjust_contrast(bytemuck::cast(contrast))
}

/// `DynamicImage::huerotate`: a new buffer of the same kind and size.
#[verifier::external_body]
pub(crate) fn huerotate_by(img: &DynamicImage, degrees: i32) -> (out: DynamicImage)
    ensures
        same_shape(raster_of(*img), raster_of(out)),
{
    img.huerotate(degrees)
}

/// `DynamicImage::invert`: every colour sample becomes its complement in
/// the range of its kind; alpha stays.
#[verifier::external_body]
pub(crate) fn invert_in_place(img: &mut DynamicImage)
    ensures
        raster_of(*final(img)) == Raster::build(
            raster_of(*old(img)).kind,
            raster_of(*old(img)).width,
            raster_of(*old(img)).height,
            |x: int, y: int|
                if raster_of(*old(img)).kind.eight_bit() {
                    inverted_samples(raster_of(*old(img)).kind, raster_of(*old(img)).pixels[(x, y)])
                } else {
                    wide_inverted(raster_of(*old(img)).kind, raster_of(*old(img)).pixels[(x, y)])
                },
        ),
{
    img.invert();
}

/// `imageops::grayscale` of a `DynamicImage`: a new 8-bit gray buffer
/// without alpha, of the same size, each pixel the brightness of the red,
/// green and blue that `get_pixel` reads. The buffer must hold a pixel: the
/// image crate walks through it in a way that fails on a buffer without
/// width.
#[verifier::external_body]
pub(crate) fn grayscale_of(img: &DynamicImage) -> (out: DynamicImage)
    requires
        raster_of(*img).width >= 1 && raster_of(*img).height >= 1,
    ensures
        raster_of(out) == grayed(raster_of(*img)),
{
    image::imageops::grayscale(img).into()
}

/// Blurs the buffer with a Gaussian of the width whose bits are `sigma`.
///
/// Where the buffer can be blurred (see `can_blur`), the result has the
/// buffer's kind and size. Else the blur is refused with an image error.
pub fn blur(image: &DynamicImage, sigma: u32) -> (res: Result<DynamicImage, Errors>)
    ensures
        match res {
            Ok(out) => {
                &&& can_blur(sigma, raster_of(*image).width as int, raster_of(*image).height as int)
                &&& same_shape(raster_of(*image), raster_of(out))
            },
            Err(e) => {
                &&& !can_blur(sigma, raster_of(*image).width as int, raster_of(*image).height as int)
                &&& e is ImageError
            },
        },
{
    if !blur_allowed(sigma, width_of(image), height_of(image)) {
        return Err(Errors::ImageError(dimension_error()));
    }
    Ok(blur_by(image, sigma))
}

/// Sharpens the buffer with an unsharp mask: it is blurred by the width
/// whose bits are `sigma`, and a sample that differs from its blur by more
/// than `threshold` is pushed away from it.
///
/// Where the buffer can be blurred (see `can_blur`), the result is an 8-bit
/// buffer of red, green, blue and alpha of the same size. Else the mask is
/// refused with an image error.
pub fn unsharpen(image: &DynamicImage, sigma: u32, threshold: i32) -> (res: Result<
    DynamicImage,
    Errors,
>)
    ensures
        match res {
            Ok(out) => {
                &&& can_blur(sigma, raster_of(*image).width as int, raster_of(*image).height as int)
                &&& same_size_rgba8(raster_of(*image), raster_of(out))
            },
            Err(e) => {
                &&& !can_blur(sigma, raster_of(*image).width as int, raster_of(*image).height as int)
                &&& e is ImageError
            },
        },
{
    if !blur_allowed(sigma, width_of(image), height_of(image)) {
        return Err(Errors::ImageError(dimension_error()));
    }
    Ok(unsharpen_by(image, sigma, threshold))
}

/// Whether the buffer can be brightened by `value`.
pub fn brighten_allowed(image: &DynamicImage, value: i32) -> (ok: bool)
    ensures
        ok == can_brighten(raster_of(*image), value as int),
{
    match float_samples(image) {
        Some(samples) => {
            if value < -LARGEST_MOVE || value > LARGEST_MOVE {
                return false;
            }
            let mut i: usize = 0;
            while i < samples.len()
                invariant
                    i <= samples.len(),
                    raster_of(*image).kind.sample_bytes() == 4,
                    -LARGEST_MOVE <= value <= LARGEST_MOVE,
                    samples@ == float_values(raster_of(*image)),
                    forall|k: int| 0 <= k < i ==> small_single(#[trigger] samples@[k]),
                decreases samples.len() - i,
            {
                if (samples[i] >> 23) & 0xff >= 157 {
                    assert(!small_single(float_values(raster_of(*image))[i as int]));
                    return false;
                }
                i += 1;
            }
            true
        },
        None => {
            if is_eight_bit(kind_of(image)) {
                value <= i32::MAX - 255
            } else {
                value <= i32::MAX - 65535
            }
        },
    }
}

/// Whether every sample of this kind is one byte.
pub fn is_eight_bit(kind: PixelKind) -> (ok: bool)
    ensures
        ok == kind.eight_bit(),
{
    match kind {
        PixelKind::Luma8 | PixelKind::LumaA8 | PixelKind::Rgb8 | PixelKind::Rgba8 => true,
        _ => false,
    }
}

/// Moves every colour sample of the buffer by `value` and keeps it inside
/// the range of its kind; alpha stays.
///
/// Where the buffer can be brightened (see `can_brighten`), the result is
/// the buffer that `brightened` describes. Else the change is refused with
/// an image error.
pub fn brighten(image: &DynamicImage, value: i32) -> (res: Result<DynamicImage, Errors>)
    ensures
        match res {
            Ok(out) => {
                &&& can_brighten(raster_of(*image), value as int)
                &&& raster_of(out) == brightened(raster_of(*image), value as int)
            },
            Err(e) => !can_brighten(raster_of(*image), value as int) && e is ImageError,
        },
{
    if !brighten_allowed(image, value) {
        return Err(Errors::ImageError(dimension_error()));
    }
    let out = if width_of(image) == 0 || height_of(image) == 0 {
        proof {
            let r = raster_of(*image);
            lemma_empty_has_room(r.kind, r.width as int, r.height as int);
        }
        blank(kind_of(image), width_of(image), height_of(image))
    } else {
        brighten_by(image, value)
    };
    assert(raster_of(out).pixels =~= brightened(raster_of(*image), value as int).pixels);
    Ok(out)
}

/// Changes the contrast of the buffer by the amount whose bits are
/// `contrast`.
///
/// For a finite amount the result has the buffer's kind and size. An
/// infinite one or a NaN is refused with an image error.
pub fn adjust_contrast(image: &DynamicImage, contrast: u32) -> (res: Result<DynamicImage, Errors>)
    ensures
        match res {
            Ok(out) => finite_single(contrast) && same_shape(raster_of(*image), raster_of(out)),
            Err(e) => !finite_single(contrast) && e is ImageError,
        },
{
    if !is_finite_single(contrast) {
        return Err(Errors::ImageError(dimension_error()));
    }
    if width_of(image) == 0 || height_of(image) == 0 {
        proof {
            let r = raster_of(*image);
            lemma_empty_has_room(r.kind, r.width as int, r.height as int);
        }
        return Ok(blank(kind_of(image), width_of(image), height_of(image)));
    }
    Ok(contrast_by(image, contrast))
}

/// Turns the hue of every pixel by `degrees`. The result has the buffer's
/// kind and size.
pub fn hue_rotate(image: &DynamicImage, degrees: i32) -> (out: DynamicImage)
    ensures
        same_shape(raster_of(*image), raster_of(out)),
{
    huerotate_by(image, degrees)
}

/// Inverts the buffer: every colour sample becomes its complement; alpha
/// stays, and so do the kind and the size.
pub fn invert(image: DynamicImage) -> (out: DynamicImage)
    ensures
        raster_of(out) == inverted(raster_of(image)),
{
    let mut img = image;
    invert_in_place(&mut img);
    assert(raster_of(img).pixels =~= inverted(raster_of(image)).pixels);
    img
}

/// The buffer as 8-bit gray without alpha.
pub fn grayscale(image: &DynamicImage) -> (out: DynamicImage)
    ensures
        raster_of(out) == grayed(raster_of(*image)),
{
    let out = if width_of(image) == 0 || height_of(image) == 0 {
        proof {
            let r = raster_of(*image);
            lemma_empty_has_room(PixelKind::Luma8, r.width as int, r.height as int);
        }
        blank(PixelKind::Luma8, width_of(image), height_of(image))
    } else {
        grayscale_of(image)
    };
    assert(raster_of(out).pixels =~= grayed(raster_of(*image)).pixels);
    out
}

} // verus!
