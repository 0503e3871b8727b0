use crate::adjust::{
    adjust_contrast, blur, brighten, brightened, can_blur, can_brighten, finite_single, grayed,
    grayscale, hue_rotate, invert, inverted, same_shape, same_size_rgba8, unsharpen,
};
use crate::compose::{blended, color_blend, overlaid, overlay, tile, tiled};
use crate::errors::{Failure, Errors};
use crate::geometry::{
    crop, cropped, flip_horizontal, flip_vertical, flipped_horizontal, flipped_vertical,
    law_rotate180_twice, law_rotate90_four_times, rotate180, rotate270, rotate90, rotated180,
    rotated270, rotated90,
};
use crate::input::{outcome_of, FontInput, ImageInputType};
use crate::raster::{raster_of, Raster};
use crate::resize::{
    can_resize, can_thumbnail, filter_from_str, filter_named, fits, resize, resize_of, resized,
    steady, thumbnail, thumbnail_of, thumbnail_shape, ResizeMode,
};
use crate::font::ScaleTuple;
use crate::text::{draw_text, drawable, text_drawn, wrap_text, wrapped_text, LineMeasure};
use image::DynamicImage;
use vstd::prelude::*;

verus! {

/// A source and the operations that are applied to what it resolves to, in
/// order.
pub struct ImageInput {
    pub image_input_type: ImageInputType,
    pub operations: Vec<ImageOperation>,
}

/// One step of a pipeline. A step takes the buffer that the step before it
/// left and leaves a buffer of its own.
pub enum ImageOperation {
    /// Scale quickly to the box `w` by `h`: exactly, or inside it with the
    /// aspect ratio kept.
    Thumbnail { w: u32, h: u32, exact: bool },
    /// Resize to the box `w` by `h` with the named filter.
    Resize { h: u32, w: u32, filter: String, mode: ResizeMode },
    /// Keep what the rectangle covers.
    Crop { x: u32, y: u32, w: u32, h: u32 },
    /// Compose another image onto the buffer, its top left corner at
    /// `coords`.
    Overlay { layer_image_input: ImageInput, coords: (i64, i64) },
    /// Cover the buffer with copies of another image.
    Tile { tile_image: ImageInput },
    /// Draw a text centred on `mid`. It is wrapped to `max_width` columns
    /// where a width is given and it holds no line feed. `measures` holds
    /// what was measured of each line of the text as it is drawn.
    DrawText {
        text: String,
        color: [u8; 4],
        font: FontInput,
        scale: ScaleTuple,
        mid: (i32, i32),
        max_width: Option<usize>,
        measures: Vec<LineMeasure>,
    },
    /// Average every pixel with a colour.
    ColorBlend { r: u8, g: u8, b: u8 },
    /// Blur by the width whose bits are `sigma`.
    Blur { sigma: u32 },
    /// Sharpen with an unsharp mask.
    Unsharpen { sigma: u32, threshold: i32 },
    /// Move every colour sample by a value.
    Brighten(i32),
    /// Change the contrast by the amount whose bits are given.
    AdjustContrast(u32),
    /// Turn the hue by degrees.
    HueRotate(i32),
    Invert,
    Grayscale,
    FlipHorizontal,
    FlipVertical,
    Rotate90,
    Rotate180,
    Rotate270,
}

/// A failure stays: where `before` is one, `out` is the same.
pub open spec fn failure_kept(before: Result<Raster, Failure>, out: Result<Raster, Failure>) -> bool {
    before matches Err(kind) ==> out == Err::<Raster, Failure>(kind)
}

/// The outcome of a step whose result is one buffer if it is allowed at all.
pub open spec fn only(allowed: bool, after: Raster, out: Result<Raster, Failure>) -> bool {
    if allowed {
        out == Ok::<Raster, Failure>(after)
    } else {
        out == Err::<Raster, Failure>(Failure::Image)
    }
}

/// Whether `out` can be the outcome of applying `op` to the buffer
/// `before`.
///
/// A step that cannot be taken (see `can_resize`, `can_thumbnail`,
/// `can_blur`, `finite_single`, `can_brighten`, `drawable`, and an empty
/// pattern to tile with) ends in an image error. A name that is no filter
/// ends in `InvalidResizeFilter`. A source or a font inside the step that
/// does not resolve ends in its own failure. Else the step leaves a
/// buffer: the one that the operation's own function describes. Of a
/// result that a routine works out with sines, exponentials or powers,
/// only the kind and the size are stated: such a result may differ in the
/// last bit from one machine to another.
pub open spec fn op_gives(op: ImageOperation, before: Raster, out: Result<Raster, Failure>) -> bool
    decreases op, 0int,
{
    match op {
        ImageOperation::Thumbnail { w, h, exact } => if can_thumbnail(
            before.kind,
            before.width as int,
            before.height as int,
            w as int,
            h as int,
            exact,
        ) {
            &&& out matches Ok(after)
            &&& after == thumbnail_of(before, w as int, h as int, exact)
            &&& thumbnail_shape(before, w as int, h as int, exact, after)
        } else {
            out == Err::<Raster, Failure>(Failure::Image)
        },
        ImageOperation::Resize { h, w, filter, mode } => match filter_named(filter@) {
            None => out == Err::<Raster, Failure>(Failure::InvalidResizeFilter),
            Some(f) => if can_resize(
                mode,
                before.width as int,
                before.height as int,
                w as int,
                h as int,
            ) {
                &&& out matches Ok(after)
                &&& resized(mode, before, w as int, h as int, after)
                &&& steady(f) ==> after == resize_of(mode, before, w as int, h as int, f)
            } else {
                out == Err::<Raster, Failure>(Failure::Image)
            },
        },
        ImageOperation::Crop { x, y, w, h } => out == Ok::<Raster, Failure>(
            cropped(before, x as int, y as int, w as int, h as int),
        ),
        ImageOperation::Overlay { layer_image_input, coords } => exists|
            layer: Result<Raster, Failure>,
        |
            {
                &&& input_gives(layer_image_input, layer)
                &&& #[trigger] failure_kept(layer, out)
                &&& layer matches Ok(over) ==> out == Ok::<Raster, Failure>(
                    overlaid(before, over, coords.0 as int, coords.1 as int),
                )
            },
        ImageOperation::Tile { tile_image } => exists|pattern: Result<Raster, Failure>|
            {
                &&& input_gives(tile_image, pattern)
                &&& #[trigger] failure_kept(pattern, out)
                &&& pattern matches Ok(p) ==> only(
                    p.width > 0 && p.height > 0,
                    tiled(before, p),
                    out,
                )
            },
        ImageOperation::DrawText { text, color, font, scale, mid, max_width, measures } => match font.outcome() {
            Err(kind) => out == Err::<Raster, Failure>(kind),
            Ok(face) => if drawable(face, wrapped_text(text@, max_width), measures@, scale, mid) {
                &&& out matches Ok(after)
                &&& after == text_drawn(
                    before,
                    color@,
                    face,
                    scale,
                    wrapped_text(text@, max_width),
                    measures@,
                    mid,
                )
                &&& same_shape(before, after)
            } else {
                out == Err::<Raster, Failure>(Failure::Image)
            },
        },
        ImageOperation::ColorBlend { r, g, b } => out == Ok::<Raster, Failure>(
            blended(before, seq![r, g, b]),
        ),
        ImageOperation::Blur { sigma } => if can_blur(
            sigma,
            before.width as int,
            before.height as int,
        ) {
            out matches Ok(after) && same_shape(before, after)
        } else {
            out == Err::<Raster, Failure>(Failure::Image)
        },
        ImageOperation::Unsharpen { sigma, threshold } => if can_blur(
            sigma,
            before.width as int,
            before.height as int,
        ) {
            out matches Ok(after) && same_size_rgba8(before, after)
        } else {
            out == Err::<Raster, Failure>(Failure::Image)
        },
        ImageOperation::Brighten(value) => only(
            can_brighten(before, value as int),
            brightened(before, value as int),
            out,
        ),
        ImageOperation::AdjustContrast(contrast) => if finite_single(contrast) {
            out matches Ok(after) && same_shape(before, after)
        } else {
            out == Err::<Raster, Failure>(Failure::Image)
        },
        ImageOperation::HueRotate(_) => out matches Ok(after) && same_shape(before, after),
        ImageOperation::Invert => out == Ok::<Raster, Failure>(inverted(before)),
        ImageOperation::Grayscale => out == Ok::<Raster, Failure>(grayed(before)),
        ImageOperation::FlipHorizontal => out == Ok::<Raster, Failure>(flipped_horizontal(before)),
        ImageOperation::FlipVertical => out == Ok::<Raster, Failure>(flipped_vertical(before)),
        ImageOperation::Rotate90 => out == Ok::<Raster, Failure>(rotated90(before)),
        ImageOperation::Rotate180 => out == Ok::<Raster, Failure>(rotated180(before)),
        ImageOperation::Rotate270 => out == Ok::<Raster, Failure>(rotated270(before)),
    }
}

/// Whether `out` can be the outcome of the first `n` of the operations,
/// applied in order to what `start` is. Each operation is applied to the
/// buffer that the one before it left; the first failure ends the run and
/// is its outcome.
pub open spec fn run_gives(
    ops: Vec<ImageOperation>,
    start: Result<Raster, Failure>,
    n: int,
    out: Result<Raster, Failure>,
) -> bool
    decreases ops, n,
{
    if n <= 0 {
        out == start
    } else if n > ops.len() {
        false
    } else {
        exists|prev: Result<Raster, Failure>|
            {
                &&& run_gives(ops, start, n - 1, prev)
                &&& #[trigger] failure_kept(prev, out)
                &&& prev matches Ok(before) ==> op_gives(ops[n - 1], before, out)
            }
    }
}

/// Whether `out` can be the outcome of resolving the source and applying
/// all its operations in order.
pub open spec fn input_gives(input: ImageInput, out: Result<Raster, Failure>) -> bool
    decreases input, 0int,
{
    run_gives(input.operations, input.image_input_type.outcome(), input.operations.len() as int, out)
}

/// Once a run has failed, the failure is its outcome whatever follows.
pub proof fn lemma_failure_runs_through(
    ops: Vec<ImageOperation>,
    start: Result<Raster, Failure>,
    i: int,
    n: int,
    kind: Failure,
)
    requires
        0 <= i <= n <= ops.len(),
        run_gives(ops, start, i, Err(kind)),
    ensures
        run_gives(ops, start, n, Err(kind)),
    decreases n - i,
{
    if i < n {
        lemma_failure_runs_through(ops, start, i, n - 1, kind);
        assert(failure_kept(Err(kind), Err(kind)));
    }
}

/// A resize in the mode `Exact` or `Fill` that succeeds leaves a buffer of
/// exactly the requested width and height, whatever the size and the
/// aspect ratio of the buffer before it.
pub proof fn law_resize_gives_the_box(op: ImageOperation, before: Raster, after: Raster)
    requires
        op matches ImageOperation::Resize { mode, .. } && (mode == ResizeMode::Exact || mode
            == ResizeMode::Fill),
        op_gives(op, before, Ok(after)),
    ensures
        op matches ImageOperation::Resize { w, h, .. } && after.width == w && after.height == h,
{
}

/// A thumbnail that keeps the aspect ratio stays inside the requested box
/// on both axes and never enlarges: what it leaves is no larger than the
/// buffer before it, whatever the size of the buffer and of the box.
pub proof fn law_thumbnail_stays_in_the_box(op: ImageOperation, before: Raster, after: Raster)
    requires
        op matches ImageOperation::Thumbnail { exact, .. } && !exact,
        op_gives(op, before, Ok(after)),
    ensures
        op matches ImageOperation::Thumbnail { w, h, .. } && after.width <= w && after.height <= h,
        after.width <= before.width && after.height <= before.height,
{
}

/// A thumbnail that keeps the aspect ratio leaves a buffer that lies inside
/// the box as it is.
pub proof fn law_thumbnail_keeps_the_small(op: ImageOperation, before: Raster, after: Raster)
    requires
        op matches ImageOperation::Thumbnail { w, h, exact } && !exact && before.width <= w
            && before.height <= h,
        op_gives(op, before, Ok(after)),
    ensures
        after == before,
{
}

/// A resize with a name that is no filter fails with `InvalidResizeFilter`,
/// whatever the buffer and the box.
pub proof fn law_unknown_filter_refused(
    op: ImageOperation,
    before: Raster,
    out: Result<Raster, Failure>,
)
    requires
        op matches ImageOperation::Resize { filter, .. } && filter_named(filter@).is_none(),
        op_gives(op, before, out),
    ensures
        out == Err::<Raster, Failure>(Failure::InvalidResizeFilter),
{
}

/// A half turn applied twice leaves the buffer as it was.
pub proof fn law_rotate180_step_twice(before: Raster, mid: Raster, after: Raster)
    requires
        before.well_formed(),
        op_gives(ImageOperation::Rotate180, before, Ok(mid)),
        op_gives(ImageOperation::Rotate180, mid, Ok(after)),
    ensures
        after == before,
{
    law_rotate180_twice(before);
}

/// Four quarter turns leave the buffer as it was.
pub proof fn law_rotate90_step_four_times(
    before: Raster,
    first: Raster,
    second: Raster,
    third: Raster,
    after: Raster,
)
    requires
        before.well_formed(),
        op_gives(ImageOperation::Rotate90, before, Ok(first)),
        op_gives(ImageOperation::Rotate90, first, Ok(second)),
        op_gives(ImageOperation::Rotate90, second, Ok(third)),
        op_gives(ImageOperation::Rotate90, third, Ok(after)),
    ensures
        after == before,
{
    law_rotate90_four_times(before);
}

impl ImageOperation {
    /// Applies the operation to the buffer and hands out the buffer that it
    /// leaves, or the failure that it ends in: see `op_gives`.
    pub fn apply(self, image: DynamicImage) -> (res: Result<DynamicImage, Errors>)
        ensures
            op_gives(self, raster_of(image), outcome_of(res)),
        decreases self, 0int,
    {
        match self {
            ImageOperation::Thumbnail { w, h, exact } => thumbnail(&image, w, h, exact),
            ImageOperation::Resize { h, w, filter, mode } => {
                let filter = filter_from_str(filter)?;
                resize(&image, w, h, filter, mode)
            },
            ImageOperation::Crop { x, y, w, h } => Ok(crop(&image, x, y, w, h)),
            ImageOperation::Overlay { layer_image_input, coords } => {
                let layer = layer_image_input.get_image();
                let ghost under = raster_of(image);
                match layer {
                    Ok(over) => {
                        let out = overlay(image, &over, coords);
                        assert(failure_kept(outcome_of(layer), Ok(raster_of(out))));
                        Ok(out)
                    },
                    Err(e) => {
                        assert(failure_kept(outcome_of(layer), Err(e.seen())));
                        Err(e)
                    },
                }
            },
            ImageOperation::Tile { tile_image } => {
                let pattern = tile_image.get_image();
                match pattern {
                    Ok(p) => {
                        let res = tile(image, &p);
                        assert(failure_kept(outcome_of(pattern), outcome_of(res)));
                        res
                    },
                    Err(e) => {
                        assert(failure_kept(outcome_of(pattern), Err(e.seen())));
                        Err(e)
                    },
                }
            },
            ImageOperation::DrawText { text, color, font, scale, mid, max_width, measures } => {
                let text = wrap_text(text, max_width);
                let font = font.get_font()?;
                draw_text(image, color, &font, text.as_str(), scale, mid, &measures)
            },
            ImageOperation::ColorBlend { r, g, b } => Ok(color_blend(image, r, g, b)),
            ImageOperation::Blur { sigma } => blur(&image, sigma),
            ImageOperation::Unsharpen { sigma, threshold } => unsharpen(&image, sigma, threshold),
            ImageOperation::Brighten(value) => brighten(&image, value),
            ImageOperation::AdjustContrast(value) => adjust_contrast(&image, value),
            ImageOperation::HueRotate(value) => Ok(hue_rotate(&image, value)),
            ImageOperation::Invert => Ok(invert(image)),
            ImageOperation::Grayscale => Ok(grayscale(&image)),
            ImageOperation::FlipHorizontal => Ok(flip_horizontal(&image)),
            ImageOperation::FlipVertical => Ok(flip_vertical(&image)),
            ImageOperation::Rotate90 => Ok(rotate90(&image)),
            ImageOperation::Rotate180 => Ok(rotate180(&image)),
            ImageOperation::Rotate270 => Ok(rotate270(&image)),
        }
    }
}

/// Applies the operations in order to the buffer: each to what the one
/// before it left. The first failure ends the run and is handed out; no
/// buffer is kept then.
pub fn apply_all(operations: Vec<ImageOperation>, image: DynamicImage) -> (res: Result<
    DynamicImage,
    Errors,
>)
    ensures
        run_gives(operations, Ok(raster_of(image)), operations.len() as int, outcome_of(res)),
    decreases operations, 1int,
{
    let ghost start = Ok::<Raster, Failure>(raster_of(image));
    let mut current = image;
    for op in it: operations
        invariant
            it.seq() == operations@,
            start == Ok::<Raster, Failure>(raster_of(image)),
            run_gives(operations, start, it.index() as int, Ok(raster_of(current))),
    {
        let ghost done = it.index() as int;
        let ghost before = raster_of(current);
        assert(op == operations@[done]);
        let step = op.apply(current);
        proof {
            assert(op_gives(operations[done + 1 - 1], before, outcome_of(step)));
            assert(run_gives(operations, start, done + 1 - 1, Ok(before)));
            assert(failure_kept(Ok(before), outcome_of(step)));
            assert(run_gives(operations, start, done + 1, outcome_of(step)));
        }
        match step {
            Ok(next) => {
                current = next;
            },
            Err(e) => {
                proof {
                    lemma_failure_runs_through(
                        operations,
                        start,
                        done + 1,
                        operations.len() as int,
                        e.seen(),
                    );
                }
                return Err(e);
            },
        }
    }
    Ok(current)
}

impl ImageInput {
    /// Resolves the source and applies the operations to it in order: see
    /// `input_gives`.
    pub fn get_image(self) -> (res: Result<DynamicImage, Errors>)
        ensures
            input_gives(self, outcome_of(res)),
        decreases self, 0int,
    {
        let ImageInput { image_input_type, operations } = self;
        match image_input_type.get_image() {
            Ok(image) => apply_all(operations, image),
            Err(e) => {
                proof {
                    lemma_failure_runs_through(
                        operations,
                        image_input_type.outcome(),
                        0,
                        operations.len() as int,
                        e.seen(),
                    );
                }
                Err(e)
            },
        }
    }
}

} // verus!
