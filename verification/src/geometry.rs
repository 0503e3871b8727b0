use crate::raster::{least, raster_of, Raster};
use image::DynamicImage;
use vstd::prelude::*;

verus! {

/// The buffer turned a quarter clockwise: width and height change places.
pub open spec fn rotated90(r: Raster) -> Raster {
    Raster::build(r.kind, r.height, r.width, |x: int, y: int| r.pixels[(y, r.height - 1 - x)])
}

/// The buffer turned upside down.
pub open spec fn rotated180(r: Raster) -> Raster {
    Raster::build(
        r.kind,
        r.width,
        r.height,
        |x: int, y: int| r.pixels[(r.width - 1 - x, r.height - 1 - y)],
    )
}

/// The buffer turned three quarters clockwise: width and height change
/// places.
pub open spec fn rotated270(r: Raster) -> Raster {
    Raster::build(r.kind, r.height, r.width, |x: int, y: int| r.pixels[(r.width - 1 - y, x)])
}

/// The buffer mirrored left to right.
pub open spec fn flipped_horizontal(r: Raster) -> Raster {
    Raster::build(r.kind, r.width, r.height, |x: int, y: int| r.pixels[(r.width - 1 - x, y)])
}

/// The buffer mirrored top to bottom.
pub open spec fn flipped_vertical(r: Raster) -> Raster {
    Raster::build(r.kind, r.width, r.height, |x: int, y: int| r.pixels[(x, r.height - 1 - y)])
}

/// The part of the buffer that the rectangle at `(x, y)` of size `w` by `h`
/// covers. A corner beyond the buffer is moved onto its edge, and a size
/// that reaches beyond it is cut: the result may be empty.
pub open spec fn cropped(r: Raster, x: int, y: int, w: int, h: int) -> Raster {
    let left = least(x, r.width as int);
    let top = least(y, r.height as int);
    Raster::build(
        r.kind,
        least(w, r.width - left) as nat,
        least(h, r.height - top) as nat,
        |i: int, j: int| r.pixels[(left + i, top + j)],
    )
}

/// Turning a buffer upside down twice gives the buffer back.
pub proof fn law_rotate180_twice(r: Raster)
    requires
        r.well_formed(),
    ensures
        rotated180(rotated180(r)) == r,
{
    let twice = rotated180(rotated180(r));
    assert forall|p: (int, int)| twice.pixels.dom().contains(p) <==> r.pixels.dom().contains(p) by {
        assert(r.pixels.dom().contains((p.0, p.1)) <==> r.holds(p.0, p.1));
    }
    assert(twice.pixels =~= r.pixels);
}

/// Four quarter turns give the buffer back.
pub proof fn law_rotate90_four_times(r: Raster)
    requires
        r.well_formed(),
    ensures
        rotated90(rotated90(rotated90(rotated90(r)))) == r,
{
    let once = rotated90(r);
    let twice = rotated90(once);
    let thrice = rotated90(twice);
    let back = rotated90(thrice);
    assert forall|p: (int, int)| back.pixels.dom().contains(p) <==> r.pixels.dom().contains(p) by {
        assert(r.pixels.dom().contains((p.0, p.1)) <==> r.holds(p.0, p.1));
    }
    assert forall|p: (int, int)| back.pixels.dom().contains(p) implies back.pixels[p] == r.pixels[p] by {
        let (x, y) = p;
        assert(back.pixels[p] == thrice.pixels[(y, thrice.height - 1 - x)]);
        assert(thrice.pixels[(y, r.width - 1 - x)] == twice.pixels[(r.width - 1 - x, twice.height - 1 - y)]);
        assert(twice.pixels[(r.width - 1 - x, r.height - 1 - y)] == once.pixels[(r.height - 1 - y, once.height - 1 - (r.width - 1 - x))]);
        assert(once.pixels[(r.height - 1 - y, x)] == r.pixels[(x, r.height - 1 - (r.height - 1 - y))]);
    }
    assert(back.pixels =~= r.pixels);
}

/// Two quarter turns are one half turn.
pub proof fn law_rotate90_twice_is_rotate180(r: Raster)
    requires
        r.well_formed(),
    ensures
        rotated90(rotated90(r)) == rotated180(r),
{
    let once = rotated90(r);
    let twice = rotated90(once);
    assert forall|p: (int, int)| twice.pixels.dom().contains(p) implies twice.pixels[p] == rotated180(r).pixels[p] by {
        let (x, y) = p;
        assert(twice.pixels[p] == once.pixels[(y, once.height - 1 - x)]);
        assert(once.pixels[(y, r.width - 1 - x)] == r.pixels[(r.width - 1 - x, r.height - 1 - y)]);
    }
    assert(twice.pixels =~= rotated180(r).pixels);
}

/// A quarter turn and then three quarters give the buffer back.
pub proof fn law_rotate270_undoes_rotate90(r: Raster)
    requires
        r.well_formed(),
    ensures
        rotated270(rotated90(r)) == r,
{
    let once = rotated90(r);
    let back = rotated270(once);
    assert forall|p: (int, int)| back.pixels.dom().contains(p) <==> r.pixels.dom().contains(p) by {
        assert(r.pixels.dom().contains((p.0, p.1)) <==> r.holds(p.0, p.1));
    }
    assert forall|p: (int, int)| back.pixels.dom().contains(p) implies back.pixels[p] == r.pixels[p] by {
        let (x, y) = p;
        assert(back.pixels[p] == once.pixels[(once.width - 1 - y, x)]);
        assert(once.pixels[(r.height - 1 - y, x)] == r.pixels[(x, r.height - 1 - (r.height - 1 - y))]);
    }
    assert(back.pixels =~= r.pixels);
}

/// Mirroring twice the same way gives the buffer back.
pub proof fn law_flip_twice(r: Raster)
    requires
        r.well_formed(),
    ensures
        flipped_horizontal(flipped_horizontal(r)) == r,
        flipped_vertical(flipped_vertical(r)) == r,
{
    let hh = flipped_horizontal(flipped_horizontal(r));
    let vv = flipped_vertical(flipped_vertical(r));
    assert forall|p: (int, int)| r.pixels.dom().contains(p) <==> r.holds(p.0, p.1) by {
        assert(r.pixels.dom().contains((p.0, p.1)) <==> r.holds(p.0, p.1));
    }
    assert(hh.pixels =~= r.pixels);
    assert(vv.pixels =~= r.pixels);
}

/// `DynamicImage::rotate90`: a new buffer, the given one turned a quarter
/// clockwise.
#[verifier::external_body]
pub(crate) fn rotate90(img: &DynamicImage) -> (out: DynamicImage)
    ensures
        raster_of(out) == rotated90(raster_of(*img)),
{
    img.rotate90()
}

/// `DynamicImage::rotate180`: a new buffer, the given one turned upside down.
#[verifier::external_body]
pub(crate) fn rotate180(img: &DynamicImage) -> (out: DynamicImage)
    ensures
        raster_of(out) == rotated180(raster_of(*img)),
{
    img.rotate180()
}

/// `DynamicImage::rotate270`: a new buffer, the given one turned three
/// quarters clockwise.
#[verifier::external_body]
pub(crate) fn rotate270(img: &DynamicImage) -> (out: DynamicImage)
    ensures
        raster_of(out) == rotated270(raster_of(*img)),
{
    img.rotate270()
}

/// `DynamicImage::fliph`: a new buffer, the given one mirrored left to right.
#[verifier::external_body]
pub(crate) fn flip_horizontal(img: &DynamicImage) -> (out: DynamicImage)
    ensures
        raster_of(out) == flipped_horizontal(raster_of(*img)),
{
    img.fliph()
}

/// `DynamicImage::flipv`: a new buffer, the given one mirrored top to bottom.
#[verifier::external_body]
pub(crate) fn flip_vertical(img: &DynamicImage) -> (out: DynamicImage)
    ensures
        raster_of(out) == flipped_vertical(raster_of(*img)),
{
    img.flipv()
}

/// `DynamicImage::crop_imm`: a new buffer with the pixels under the
/// rectangle, after the rectangle was cut to the buffer's bounds.
#[verifier::external_body]
pub(crate) fn crop(img: &DynamicImage, x: u32, y: u32, w: u32, h: u32) -> (out: DynamicImage)
    ensures
        raster_of(out) == cropped(raster_of(*img), x as int, y as int, w as int, h as int),
{
    img.crop_imm(x, y, w, h)
}

} // verus!
