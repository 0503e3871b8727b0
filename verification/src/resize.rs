use crate::errors::{dimension_error, Errors};
use crate::raster::{
    height_of, kind_of, least, most, raster_of, width_of, PixelKind, Raster,
};
use crate::geometry::{crop, cropped};
use image::imageops::FilterType;
use image::DynamicImage;
use vstd::prelude::*;
use vstd::string::StringExecFns;

verus! {

#[verifier::external_type_specification]
pub struct ExFilterType(FilterType);

/// How a resize treats the requested box.
#[derive(Clone, Copy, Debug, PartialEq, Eq, Structural)]
pub enum ResizeMode {
    /// Keep the aspect ratio and stay inside the box.
    Fit,
    /// Stretch to the box, whatever the aspect ratio.
    Exact,
    /// Keep the aspect ratio, cover the box, and cut what reaches beyond it.
    Fill,
}

impl Default for ResizeMode {
    fn default() -> (mode: Self)
        ensures
            mode == ResizeMode::Fit,
    {
        ResizeMode::Fit
    }
}

/// The resampling filter that a name stands for, if it is one.
pub open spec fn filter_named(name: Seq<char>) -> Option<FilterType> {
    if name == "Nearest"@ {
        Some(FilterType::Nearest)
    } else if name == "Triangle"@ {
        Some(FilterType::Triangle)
    } else if name == "CatmullRom"@ {
        Some(FilterType::CatmullRom)
    } else if name == "Gaussian"@ {
        Some(FilterType::Gaussian)
    } else if name == "Lanczos3"@ {
        Some(FilterType::Lanczos3)
    } else {
        None
    }
}

/// The filter with the given name; a name that is none is refused.
pub fn filter_from_str(filter: String) -> (res: Result<FilterType, Errors>)
    ensures
        match filter_named(filter@) {
            Some(f) => res == Ok::<FilterType, Errors>(f),
            None => res == Err::<FilterType, Errors>(Errors::InvalidResizeFilter),
        },
{
    if filter == String::from_str("Nearest") {
        Ok(FilterType::Nearest)
    } else if filter == String::from_str("Triangle") {
        Ok(FilterType::Triangle)
    } else if filter == String::from_str("CatmullRom") {
        Ok(FilterType::CatmullRom)
    } else if filter == String::from_str("Gaussian") {
        Ok(FilterType::Gaussian)
    } else if filter == String::from_str("Lanczos3") {
        Ok(FilterType::Lanczos3)
    } else {
        Err(Errors::InvalidResizeFilter)
    }
}

/// Whether a buffer of `w` by `h` pixels of the largest kind, sixteen bytes
/// each, is one that a vector can hold.
pub open spec fn fits(w: int, h: int) -> bool {
    w * h * 16 <= isize::MAX
}

/// Whether a buffer of this size can be held.
pub fn buffer_fits(w: u32, h: u32) -> (ok: bool)
    ensures
        ok == fits(w as int, h as int),
{
    assert(w * h <= 0xffff_ffff * 0xffff_ffff) by (nonlinear_arith)
        requires
            0 <= w <= 0xffff_ffff,
            0 <= h <= 0xffff_ffff,
    ;
    let area: u64 = (w as u64) * (h as u64);
    (area as u128) * 16 <= isize::MAX as u128
}

/// Whether a buffer of `w` by `h` pixels of the given kind is one that a
/// vector can hold.
pub open spec fn room(kind: PixelKind, w: int, h: int) -> bool {
    w * h * kind.pixel_bytes() <= isize::MAX
}

/// A buffer without a pixel can be held, whatever its kind.
pub proof fn lemma_empty_has_room(kind: PixelKind, w: int, h: int)
    requires
        w == 0 || h == 0,
    ensures
        room(kind, w, h),
{
    assert(w * h * kind.pixel_bytes() == 0) by (nonlinear_arith)
        requires
            w == 0 || h == 0,
    ;
}

/// Whether a buffer of this kind and size can be held.
pub fn has_room(kind: PixelKind, w: u32, h: u32) -> (ok: bool)
    ensures
        ok == room(kind, w as int, h as int),
{
    assert(w * h <= 0xffff_ffff * 0xffff_ffff) by (nonlinear_arith)
        requires
            0 <= w <= 0xffff_ffff,
            0 <= h <= 0xffff_ffff,
    ;
    let area: u64 = (w as u64) * (h as u64);
    let bytes: u128 = match kind {
        PixelKind::Luma8 => 1,
        PixelKind::LumaA8 | PixelKind::Luma16 => 2,
        PixelKind::Rgb8 => 3,
        PixelKind::Rgba8 | PixelKind::LumaA16 => 4,
        PixelKind::Rgb16 => 6,
        PixelKind::Rgba16 => 8,
        PixelKind::Rgb32F => 12,
        PixelKind::Rgba32F => 16,
    };
    assert(area * bytes <= 0xffff_ffff * 0xffff_ffff * 16) by (nonlinear_arith)
        requires
            0 <= area <= 0xffff_ffff * 0xffff_ffff,
            0 <= bytes <= 16,
    ;
    (area as u128) * bytes <= isize::MAX as u128
}

/// The longest side of a buffer that is blurred or resampled: up to 2^23
/// the middle of every pixel is a single of its own, so that the weights
/// of the pixels around it never add up to nothing.
pub const LONGEST_SIDE: u32 = 0x80_0000;

/// The larger of a requested length and one.
pub open spec fn at_least_one(n: int) -> int {
    if n < 1 {
        1
    } else {
        n
    }
}

/// An upper bound of the length that `side` gets when the buffer is scaled
/// so that `from` becomes `to`.
pub open spec fn scaled_bound(side: int, from: int, to: int) -> int {
    side * to / from + 1
}

/// Whether a buffer of `sw` by `sh` can be resized to the box `w` by `h` in
/// the given mode.
///
/// The source must not be empty, no side of the source, of the box or of a
/// buffer between them may be longer than 2^23, and every buffer that the
/// resize builds must be one that a vector can hold. `Exact` builds one of the source's
/// width and the box's height, then the result. `Fit` builds the same two,
/// with a box of at least one by one. `Fill` needs a box that is not empty
/// either, scales the source until it covers the box, and so builds
/// buffers up to the bounds of that scaling.
pub open spec fn can_resize(mode: ResizeMode, sw: int, sh: int, w: int, h: int) -> bool {
    &&& 1 <= sw <= LONGEST_SIDE && 1 <= sh <= LONGEST_SIDE
    &&& w <= LONGEST_SIDE && h <= LONGEST_SIDE
    &&& match mode {
        ResizeMode::Exact => fits(sw, h) && fits(w, h),
        ResizeMode::Fit => fits(sw, at_least_one(h)) && fits(at_least_one(w), at_least_one(h)),
        ResizeMode::Fill => {
            &&& w >= 1 && h >= 1
            &&& most(w, scaled_bound(sw, sh, h)) <= LONGEST_SIDE
            &&& most(h, scaled_bound(sh, sw, w)) <= LONGEST_SIDE
            &&& fits(sw, most(h, scaled_bound(sh, sw, w)))
            &&& fits(most(w, scaled_bound(sw, sh, h)), most(h, scaled_bound(sh, sw, w)))
        },
    }
}

/// Whether a buffer of `sw` by `sh` can be resized to the box in this mode.
pub fn resize_allowed(mode: ResizeMode, sw: u32, sh: u32, w: u32, h: u32) -> (ok: bool)
    ensures
        ok == can_resize(mode, sw as int, sh as int, w as int, h as int),
{
    if sw < 1 || sh < 1 || sw > LONGEST_SIDE || sh > LONGEST_SIDE || w > LONGEST_SIDE || h
        > LONGEST_SIDE {
        return false;
    }
    match mode {
        ResizeMode::Exact => buffer_fits(sw, h) && buffer_fits(w, h),
        ResizeMode::Fit => {
            let w1: u32 = if w < 1 { 1 } else { w };
            let h1: u32 = if h < 1 { 1 } else { h };
            buffer_fits(sw, h1) && buffer_fits(w1, h1)
        },
        ResizeMode::Fill => {
            if w < 1 || h < 1 {
                return false;
            }
            assert(sw * h <= 0xffff_ffff * 0xffff_ffff && sh * w <= 0xffff_ffff * 0xffff_ffff)
                by (nonlinear_arith)
                requires
                    0 <= sw <= 0xffff_ffff,
                    0 <= sh <= 0xffff_ffff,
                    0 <= w <= 0xffff_ffff,
                    0 <= h <= 0xffff_ffff,
            ;
            let across: u64 = (sw as u64) * (h as u64) / (sh as u64) + 1;
            let down: u64 = (sh as u64) * (w as u64) / (sw as u64) + 1;
            let wide: u64 = if w as u64 >= across { w as u64 } else { across };
            let high: u64 = if h as u64 >= down { h as u64 } else { down };
            if wide > LONGEST_SIDE as u64 || high > LONGEST_SIDE as u64 {
                return false;
            }
            buffer_fits(sw, high as u32) && buffer_fits(wide as u32, high as u32)
        },
    }
}

/// How much room the sum of a block of samples needs for each sample: one
/// more than the largest value of a whole-number sample, and one for a
/// floating sample, whose sums do not overflow.
pub open spec fn sum_weight(kind: PixelKind) -> int {
    if kind.sample_bytes() == 1 {
        256
    } else if kind.sample_bytes() == 2 {
        65536
    } else {
        1
    }
}

/// An upper bound of the side of the block of source pixels that one pixel
/// of a thumbnail averages, along an axis on which `side` source pixels are
/// scaled by at least one in `shrink`: the shrinking itself, two for the
/// rounding at both ends, and what single precision loses on a long side;
/// never more than the side.
pub open spec fn block_side(side: int, shrink: int) -> int {
    least(side, shrink + 2 + side / 0x10_0000)
}

/// An upper bound of how much a thumbnail of the box `w` by `h` shrinks a
/// buffer of `sw` by `sh`, on either axis. An exact thumbnail shrinks each
/// axis by its own ratio; one that keeps the aspect ratio shrinks both by
/// at most twice the larger ratio.
pub open spec fn shrink_bound(sw: int, sh: int, w: int, h: int, exact: bool) -> (int, int) {
    let across = sw / at_least_one(w) + 1;
    let down = sh / at_least_one(h) + 1;
    if exact {
        (across, down)
    } else {
        (2 * most(across, down), 2 * most(across, down))
    }
}

/// Whether a thumbnail that keeps the aspect ratio has nothing to scale:
/// the buffer lies inside the box already, or the buffer or the box is
/// empty.
pub open spec fn nothing_to_shrink(sw: int, sh: int, w: int, h: int) -> bool {
    (sw <= w && sh <= h) || sw == 0 || sh == 0 || w == 0 || h == 0
}

/// Whether the thumbnail routine can scale a buffer of the given kind, `sw`
/// wide and `sh` high, to the box `w` by `h`: the result must be one that a
/// vector can hold, and the samples of a block must add up within 32 bits.
/// A result that keeps the aspect ratio lies inside the box and inside the
/// buffer.
pub open spec fn can_scale(kind: PixelKind, sw: int, sh: int, w: int, h: int, exact: bool) -> bool {
    let shrink = shrink_bound(sw, sh, w, h, exact);
    &&& if exact {
        room(kind, w, h)
    } else {
        room(kind, least(w, sw), least(h, sh))
    }
    &&& block_side(sw, shrink.0) * block_side(sh, shrink.1) * sum_weight(kind) <= u32::MAX
}

/// Whether a thumbnail of the box `w` by `h` can be made of a buffer of the
/// given kind, `sw` wide and `sh` high: there is nothing to scale, or the
/// thumbnail routine can scale it.
pub open spec fn can_thumbnail(kind: PixelKind, sw: int, sh: int, w: int, h: int, exact: bool) -> bool {
    (!exact && nothing_to_shrink(sw, sh, w, h)) || can_scale(kind, sw, sh, w, h, exact)
}

/// Whether the thumbnail routine can scale a buffer of the given kind and
/// size to the box.
pub fn scale_allowed(kind: PixelKind, sw: u32, sh: u32, w: u32, h: u32, exact: bool) -> (ok: bool)
    ensures
        ok == can_scale(kind, sw as int, sh as int, w as int, h as int, exact),
{
    let w1: u64 = if w < 1 { 1 } else { w as u64 };
    let h1: u64 = if h < 1 { 1 } else { h as u64 };
    let held = if exact {
        has_room(kind, w, h)
    } else {
        has_room(kind, if w <= sw { w } else { sw }, if h <= sh { h } else { sh })
    };
    let across: u64 = sw as u64 / w1 + 1;
    let down: u64 = sh as u64 / h1 + 1;
    let both: u64 = if across >= down { 2 * across } else { 2 * down };
    let shrink_x: u64 = if exact { across } else { both };
    let shrink_y: u64 = if exact { down } else { both };
    let long_x: u64 = shrink_x + 2 + sw as u64 / 0x10_0000;
    let long_y: u64 = shrink_y + 2 + sh as u64 / 0x10_0000;
    let block_x: u64 = if sw as u64 <= long_x { sw as u64 } else { long_x };
    let block_y: u64 = if sh as u64 <= long_y { sh as u64 } else { long_y };
    let weight: u64 = match kind {
        PixelKind::Luma8 | PixelKind::LumaA8 | PixelKind::Rgb8 | PixelKind::Rgba8 => 256,
        PixelKind::Luma16 | PixelKind::LumaA16 | PixelKind::Rgb16 | PixelKind::Rgba16 => 65536,
        PixelKind::Rgb32F | PixelKind::Rgba32F => 1,
    };
    assert(block_x * block_y <= 0xffff_ffff * 0xffff_ffff) by (nonlinear_arith)
        requires
            0 <= block_x <= 0xffff_ffff,
            0 <= block_y <= 0xffff_ffff,
    ;
    let area: u128 = (block_x as u128) * (block_y as u128);
    assert(area * weight <= 0xffff_ffff * 0xffff_ffff * 65536) by (nonlinear_arith)
        requires
            0 <= area <= 0xffff_ffff * 0xffff_ffff,
            0 <= weight <= 65536,
    ;
    held && area * (weight as u128) <= u32::MAX as u128
}

/// Whether a thumbnail of the box `w` by `h` can be made of a buffer of the
/// given kind and size.
pub fn thumbnail_allowed(kind: PixelKind, sw: u32, sh: u32, w: u32, h: u32, exact: bool) -> (ok:
    bool)
    ensures
        ok == can_thumbnail(kind, sw as int, sh as int, w as int, h as int, exact),
{
    if !exact && ((sw <= w && sh <= h) || sw == 0 || sh == 0 || w == 0 || h == 0) {
        return true;
    }
    scale_allowed(kind, sw, sh, w, h, exact)
}

/// What a thumbnail leaves of the buffer: its kind stays. An exact one has
/// the size of the box. One that keeps the aspect ratio lies inside the
/// box and is never larger than the buffer on either axis.
pub open spec fn thumbnail_shape(before: Raster, w: int, h: int, exact: bool, after: Raster) -> bool {
    &&& after.kind == before.kind
    &&& if exact {
        after.width == w && after.height == h
    } else {
        &&& after.width <= w && after.height <= h
        &&& after.width <= before.width && after.height <= before.height
    }
}

/// The size to which the image crate scales a buffer of `sw` by `sh` so
/// that it keeps its aspect ratio and is the largest that stays inside the
/// box `w` by `h`.
pub uninterp spec fn fit_size(sw: nat, sh: nat, w: nat, h: nat) -> (nat, nat);

/// The size to which the image crate scales a buffer of `sw` by `sh` so
/// that it keeps its aspect ratio and is the smallest that covers the box
/// `w` by `h`.
pub uninterp spec fn cover_size(sw: nat, sh: nat, w: nat, h: nat) -> (nat, nat);

/// The buffer that the image crate resamples a buffer to with a filter, at
/// exactly the size `w` by `h`.
pub uninterp spec fn resampled(r: Raster, w: nat, h: nat, filter: FilterType) -> Raster;

/// The buffer that the image crate's thumbnail routine scales a buffer to,
/// at exactly the size `w` by `h`.
pub uninterp spec fn thumbnailed(r: Raster, w: nat, h: nat) -> Raster;

/// Whether resampling with the filter gives the same samples everywhere:
/// the filters whose weights are sums and products of single-precision
/// numbers. The others take sines, exponentials or powers, which may differ
/// in the last bit from one machine to another.
pub open spec fn steady(filter: FilterType) -> bool {
    filter is Nearest || filter is Triangle
}

/// What a resize or a thumbnail leaves of the buffer, whatever the filter:
/// its kind stays, and its size follows the mode. `Exact` and `Fill` give
/// the box itself. `Fit` gives the largest size of the buffer's aspect
/// ratio inside the box, taken as at least one by one.
pub open spec fn resized(mode: ResizeMode, before: Raster, w: int, h: int, after: Raster) -> bool {
    &&& after.kind == before.kind
    &&& match mode {
        ResizeMode::Exact | ResizeMode::Fill => after.width == w && after.height == h,
        ResizeMode::Fit => {
            &&& (after.width, after.height) == fit_size(before.width, before.height, w as nat, h as nat)
            &&& after.width <= at_least_one(w)
            &&& after.height <= at_least_one(h)
        },
    }
}

/// A buffer that covers the box `w` by `h`, cut to exactly the box: what
/// reaches beyond it is cut off evenly on both sides, along the one axis on
/// which the buffer is too long for the box's aspect ratio.
pub open spec fn cut_to_box(r: Raster, w: int, h: int) -> Raster {
    if w * r.height > r.width * h {
        cropped(r, 0, (r.height - h) / 2, w, h)
    } else {
        cropped(r, (r.width - w) / 2, 0, w, h)
    }
}

/// The buffer that a resize with a steady filter leaves: the buffer
/// resampled to the box, to the size that fits the box, or to the size that
/// covers the box and then cut to it.
pub open spec fn resize_of(mode: ResizeMode, before: Raster, w: int, h: int, filter: FilterType) -> Raster {
    match mode {
        ResizeMode::Exact => resampled(before, w as nat, h as nat, filter),
        ResizeMode::Fit => resampled(
            before,
            fit_size(before.width, before.height, w as nat, h as nat).0,
            fit_size(before.width, before.height, w as nat, h as nat).1,
            filter,
        ),
        ResizeMode::Fill => cut_to_box(
            resampled(
                before,
                cover_size(before.width, before.height, w as nat, h as nat).0,
                cover_size(before.width, before.height, w as nat, h as nat).1,
                filter,
            ),
            w,
            h,
        ),
    }
}

/// The buffer that a thumbnail leaves. An exact one is the buffer scaled to
/// the box. One that keeps the aspect ratio never enlarges: a buffer inside
/// the box is left as it is; of an empty buffer or in an empty box, what
/// the box covers of the buffer is left, which is empty; else the buffer is
/// scaled down to the size that fits the box.
pub open spec fn thumbnail_of(before: Raster, w: int, h: int, exact: bool) -> Raster {
    if exact {
        thumbnailed(before, w as nat, h as nat)
    } else if before.width <= w && before.height <= h {
        before
    } else if nothing_to_shrink(before.width as int, before.height as int, w, h) {
        cropped(before, 0, 0, w, h)
    } else {
        thumbnailed(
            before,
            fit_size(before.width, before.height, w as nat, h as nat).0,
            fit_size(before.width, before.height, w as nat, h as nat).1,
        )
    }
}

/// `DynamicImage::resize_exact`: a new buffer of the same kind and of
/// exactly the requested size, resampled with the filter.
#[verifier::external_body]
pub(crate) fn resize_exact(img: &DynamicImage, w: u32, h: u32, filter: FilterType) -> (out:
    DynamicImage)
    requires
        can_resize(
            ResizeMode::Exact,
            raster_of(*img).width as int,
            raster_of(*img).height as int,
            w as int,
            h as int,
        ),
    ensures
        resized(ResizeMode::Exact, raster_of(*img), w as int, h as int, raster_of(out)),
        steady(filter) ==> raster_of(out) == resampled(raster_of(*img), w as nat, h as nat, filter),
{
    img.resize_exact(w, h, filter)
}

/// `DynamicImage::resize`: a new buffer of the same kind, resampled with
/// the filter to the largest size of the buffer's aspect ratio that stays
/// inside the box.
#[verifier::external_body]
pub(crate) fn resize_fit(img: &DynamicImage, w: u32, h: u32, filter: FilterType) -> (out:
    DynamicImage)
    requires
        can_resize(
            ResizeMode::Fit,
            raster_of(*img).width as int,
            raster_of(*img).height as int,
            w as int,
            h as int,
        ),
    ensures
        resized(ResizeMode::Fit, raster_of(*img), w as int, h as int, raster_of(out)),
        (raster_of(out).width, raster_of(out).height) == fit_size(
            raster_of(*img).width,
            raster_of(*img).height,
            w as nat,
            h as nat,
        ),
        steady(filter) ==> raster_of(out) == resampled(
            raster_of(*img),
            fit_size(raster_of(*img).width, raster_of(*img).height, w as nat, h as nat).0,
            fit_size(raster_of(*img).width, raster_of(*img).height, w as nat, h as nat).1,
            filter,
        ),
{
    img.resize(w, h, filter)
}

/// `DynamicImage::resize_to_fill`: a new buffer of the same kind, resampled
/// with the filter to the smallest size of the buffer's aspect ratio that
/// covers the box, and then cut to exactly the box, evenly on both sides.
#[verifier::external_body]
pub(crate) fn resize_fill(img: &DynamicImage, w: u32, h: u32, filter: FilterType) -> (out:
    DynamicImage)
    requires
        can_resize(
            ResizeMode::Fill,
            raster_of(*img).width as int,
            raster_of(*img).height as int,
            w as int,
            h as int,
        ),
    ensures
        resized(ResizeMode::Fill, raster_of(*img), w as int, h as int, raster_of(out)),
        steady(filter) ==> raster_of(out) == cut_to_box(
            resampled(
                raster_of(*img),
                cover_size(raster_of(*img).width, raster_of(*img).height, w as nat, h as nat).0,
                cover_size(raster_of(*img).width, raster_of(*img).height, w as nat, h as nat).1,
                filter,
            ),
            w as int,
            h as int,
        ),
{
    img.resize_to_fill(w, h, filter)
}

/// `DynamicImage::thumbnail_exact`: a new buffer of the same kind and of
/// exactly the requested size, scaled by the thumbnail routine.
#[verifier::external_body]
pub(crate) fn thumbnail_exact(img: &DynamicImage, w: u32, h: u32) -> (out: DynamicImage)
    requires
        can_scale(
            raster_of(*img).kind,
            raster_of(*img).width as int,
            raster_of(*img).height as int,
            w as int,
            h as int,
            true,
        ),
    ensures
        resized(ResizeMode::Exact, raster_of(*img), w as int, h as int, raster_of(out)),
        raster_of(out) == thumbnailed(raster_of(*img), w as nat, h as nat),
{
    img.thumbnail_exact(w, h)
}

/// `DynamicImage::thumbnail`: a new buffer of the same kind, scaled by the
/// thumbnail routine to the largest size of the buffer's aspect ratio that
/// stays inside the box. Where the buffer reaches beyond the box on an
/// axis, it is scaled down: the result is no larger than the buffer on
/// either axis.
#[verifier::external_body]
pub(crate) fn thumbnail_fit(img: &DynamicImage, w: u32, h: u32) -> (out: DynamicImage)
    requires
        !nothing_to_shrink(
            raster_of(*img).width as int,
            raster_of(*img).height as int,
            w as int,
            h as int,
        ),
        can_scale(
            raster_of(*img).kind,
            raster_of(*img).width as int,
            raster_of(*img).height as int,
            w as int,
            h as int,
            false,
        ),
    ensures
        resized(ResizeMode::Fit, raster_of(*img), w as int, h as int, raster_of(out)),
        raster_of(out).width <= raster_of(*img).width,
        raster_of(out).height <= raster_of(*img).height,
        raster_of(out) == thumbnailed(
            raster_of(*img),
            fit_size(raster_of(*img).width, raster_of(*img).height, w as nat, h as nat).0,
            fit_size(raster_of(*img).width, raster_of(*img).height, w as nat, h as nat).1,
        ),
{
    img.thumbnail(w, h)
}

/// Resizes the buffer to the box `w` by `h` in the given mode.
///
/// Where the buffer can be resized (see `can_resize`), the result has the
/// buffer's kind, and its size follows the mode: the box itself for `Exact`
/// and `Fill`, the largest size of the buffer's aspect ratio inside the box
/// for `Fit`. With a steady filter the result is the resampled buffer
/// itself. Where the buffer cannot be resized, the resize is refused with
/// an image error and nothing is computed.
pub fn resize(image: &DynamicImage, w: u32, h: u32, filter: FilterType, mode: ResizeMode) -> (res:
    Result<DynamicImage, Errors>)
    ensures
        match res {
            Ok(out) => {
                &&& can_resize(
                    mode,
                    raster_of(*image).width as int,
                    raster_of(*image).height as int,
                    w as int,
                    h as int,
                )
                &&& resized(mode, raster_of(*image), w as int, h as int, raster_of(out))
                &&& steady(filter) ==> raster_of(out) == resize_of(
                    mode,
                    raster_of(*image),
                    w as int,
                    h as int,
                    filter,
                )
            },
            Err(e) => {
                &&& !can_resize(
                    mode,
                    raster_of(*image).width as int,
                    raster_of(*image).height as int,
                    w as int,
                    h as int,
                )
                &&& e is ImageError
            },
        },
{
    let sw = width_of(image);
    let sh = height_of(image);
    if !resize_allowed(mode, sw, sh, w, h) {
        return Err(Errors::ImageError(dimension_error()));
    }
    match mode {
        ResizeMode::Fit => Ok(resize_fit(image, w, h, filter)),
        ResizeMode::Exact => Ok(resize_exact(image, w, h, filter)),
        ResizeMode::Fill => Ok(resize_fill(image, w, h, filter)),
    }
}

/// Scales the buffer quickly to the box `w` by `h`: to exactly the box where
/// `exact` is set, else with its aspect ratio kept to a size inside the
/// box. A thumbnail that keeps the aspect ratio never enlarges: a buffer
/// that lies inside the box already is handed back as it is.
///
/// Where the thumbnail can be made (see `can_thumbnail`), it is the buffer
/// that `thumbnail_of` describes. Where it cannot, it is refused with an
/// image error.
pub fn thumbnail(image: &DynamicImage, w: u32, h: u32, exact: bool) -> (res: Result<
    DynamicImage,
    Errors,
>)
    ensures
        match res {
            Ok(out) => {
                &&& can_thumbnail(
                    raster_of(*image).kind,
                    raster_of(*image).width as int,
                    raster_of(*image).height as int,
                    w as int,
                    h as int,
                    exact,
                )
                &&& raster_of(out) == thumbnail_of(raster_of(*image), w as int, h as int, exact)
                &&& thumbnail_shape(raster_of(*image), w as int, h as int, exact, raster_of(out))
            },
            Err(e) => {
                &&& !can_thumbnail(
                    raster_of(*image).kind,
                    raster_of(*image).width as int,
                    raster_of(*image).height as int,
                    w as int,
                    h as int,
                    exact,
                )
                &&& e is ImageError
            },
        },
{
    let sw = width_of(image);
    let sh = height_of(image);
    if !exact && ((sw <= w && sh <= h) || sw == 0 || sh == 0 || w == 0 || h == 0) {
        let out = crop(image, 0, 0, w, h);
        proof {
            if sw <= w && sh <= h {
                assert(raster_of(out).pixels =~= raster_of(*image).pixels);
            }
        }
        return Ok(out);
    }
    if !scale_allowed(kind_of(image), sw, sh, w, h, exact) {
        return Err(Errors::ImageError(dimension_error()));
    }
    if exact {
        Ok(thumbnail_exact(image, w, h))
    } else {
        Ok(thumbnail_fit(image, w, h))
    }
}

} // verus!
