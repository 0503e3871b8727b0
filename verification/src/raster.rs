use image::{DynamicImage, GenericImage, GenericImageView, Rgba};
use vstd::prelude::*;

verus! {

#[verifier::external_type_specification]
#[verifier::external_body]
pub struct ExDynamicImage(DynamicImage);

/// The smaller of two numbers.
pub open spec fn least(a: int, b: int) -> int {
    if a <= b {
        a
    } else {
        b
    }
}

/// The larger of two numbers.
pub open spec fn most(a: int, b: int) -> int {
    if a >= b {
        a
    } else {
        b
    }
}

/// The channel layout of a pixel buffer.
#[derive(Clone, Copy, Debug, PartialEq, Eq, Structural)]
pub enum PixelKind {
    Luma8,
    LumaA8,
    Rgb8,
    Rgba8,
    Luma16,
    LumaA16,
    Rgb16,
    Rgba16,
    Rgb32F,
    Rgba32F,
}

impl PixelKind {
    /// How many samples a pixel of this kind has.
    pub open spec fn channels(self) -> nat {
        match self {
            PixelKind::Luma8 | PixelKind::Luma16 => 1,
            PixelKind::LumaA8 | PixelKind::LumaA16 => 2,
            PixelKind::Rgb8 | PixelKind::Rgb16 | PixelKind::Rgb32F => 3,
            PixelKind::Rgba8 | PixelKind::Rgba16 | PixelKind::Rgba32F => 4,
        }
    }

    /// How many bytes one sample of this kind takes.
    pub open spec fn sample_bytes(self) -> nat {
        match self {
            PixelKind::Luma8 | PixelKind::LumaA8 | PixelKind::Rgb8 | PixelKind::Rgba8 => 1,
            PixelKind::Luma16 | PixelKind::LumaA16 | PixelKind::Rgb16 | PixelKind::Rgba16 => 2,
            PixelKind::Rgb32F | PixelKind::Rgba32F => 4,
        }
    }

    /// How many bytes a pixel of this kind takes.
    pub open spec fn pixel_bytes(self) -> nat {
        self.channels() * self.sample_bytes()
    }

    /// Whether every sample is one byte.
    pub open spec fn eight_bit(self) -> bool {
        self.sample_bytes() == 1
    }
}

/// The mathematical model of a pixel buffer: its kind, its size, and for each
/// position inside it the pixel's samples. A sample is written as its bytes
/// from the lowest up: one byte for an 8-bit sample, two for a 16-bit one,
/// four for the IEEE 754 bits of a floating one.
pub struct Raster {
    pub kind: PixelKind,
    pub width: nat,
    pub height: nat,
    pub pixels: Map<(int, int), Seq<u8>>,
}

impl Raster {
    /// Whether `(x, y)` lies inside the buffer.
    pub open spec fn holds(self, x: int, y: int) -> bool {
        0 <= x < self.width && 0 <= y < self.height
    }

    /// The pixels are exactly those inside the buffer, and each has as many
    /// bytes as its kind takes.
    pub open spec fn well_formed(self) -> bool {
        &&& forall|x: int, y: int| self.pixels.dom().contains((x, y)) <==> self.holds(x, y)
        &&& forall|x: int, y: int| self.holds(x, y) ==> (#[trigger] self.pixels[(x, y)]).len() == self.kind.pixel_bytes()
    }

    /// The pixel at `(x, y)`, read as red, green, blue and alpha.
    pub open spec fn rgba_at(self, x: int, y: int) -> Seq<u8> {
        rgba_view(self.kind, self.pixels[(x, y)])
    }

    /// This buffer with the pixel at `(x, y)` replaced.
    pub open spec fn with_pixel(self, x: int, y: int, samples: Seq<u8>) -> Raster {
        Raster { pixels: self.pixels.insert((x, y), samples), ..self }
    }

    /// This buffer with red, green, blue and alpha written to `(x, y)`.
    pub open spec fn with_rgba(self, x: int, y: int, rgba: Seq<u8>) -> Raster {
        self.with_pixel(x, y, samples_of(self.kind, rgba))
    }

    /// A buffer of the given kind and size whose pixel at `(x, y)` is
    /// `pixel(x, y)`.
    pub open spec fn build(
        kind: PixelKind,
        width: nat,
        height: nat,
        pixel: spec_fn(int, int) -> Seq<u8>,
    ) -> Raster {
        Raster {
            kind,
            width,
            height,
            pixels: Map::new(
                |p: (int, int)| 0 <= p.0 < width && 0 <= p.1 < height,
                |p: (int, int)| pixel(p.0, p.1),
            ),
        }
    }
}

/// What the image crate calls the variant of a `DynamicImage`.
pub uninterp spec fn image_kind(img: DynamicImage) -> PixelKind;

/// What `DynamicImage::width` returns.
pub uninterp spec fn image_width(img: DynamicImage) -> nat;

/// What `DynamicImage::height` returns.
pub uninterp spec fn image_height(img: DynamicImage) -> nat;

/// The samples that a `DynamicImage` holds for each of its pixels.
pub uninterp spec fn image_pixels(img: DynamicImage) -> Map<(int, int), Seq<u8>>;

/// How the image crate reads a pixel of a 16-bit or floating kind as four
/// 8-bit samples.
pub uninterp spec fn wide_rgba(kind: PixelKind, samples: Seq<u8>) -> Seq<u8>;

/// How the image crate stores four 8-bit samples in a pixel of a 16-bit or
/// floating kind.
pub uninterp spec fn wide_samples(kind: PixelKind, rgba: Seq<u8>) -> Seq<u8>;

/// The first `n` bytes of `samples`, with zeros where it has fewer.
pub open spec fn sized(samples: Seq<u8>, n: nat) -> Seq<u8> {
    Seq::new(n, |i: int| if i < samples.len() { samples[i] } else { 0u8 })
}

/// The model of a `DynamicImage`: its kind, its size, and the samples of the
/// pixels inside it, each with as many bytes as the kind takes.
pub open spec fn raster_of(img: DynamicImage) -> Raster {
    Raster::build(
        image_kind(img),
        image_width(img),
        image_height(img),
        |x: int, y: int| sized(image_pixels(img)[(x, y)], image_kind(img).pixel_bytes()),
    )
}

/// The model of any `DynamicImage` is well formed: what is proved of well
/// formed buffers holds of every buffer that the library is handed.
pub proof fn law_model_well_formed(img: DynamicImage)
    ensures
        raster_of(img).well_formed(),
{
}

/// The brightness of a colour: the weighted mean of red, green and blue that
/// the image crate takes for 8-bit samples.
pub open spec fn luma8(r: u8, g: u8, b: u8) -> u8 {
    ((2126 * r + 7152 * g + 722 * b) / 10000) as u8
}

/// A pixel's samples read as red, green, blue and alpha. Gray is repeated
/// three times, and a kind without alpha is opaque.
pub open spec fn rgba_view(kind: PixelKind, px: Seq<u8>) -> Seq<u8> {
    match kind {
        PixelKind::Luma8 => seq![px[0], px[0], px[0], 255u8],
        PixelKind::LumaA8 => seq![px[0], px[0], px[0], px[1]],
        PixelKind::Rgb8 => seq![px[0], px[1], px[2], 255u8],
        PixelKind::Rgba8 => seq![px[0], px[1], px[2], px[3]],
        _ => wide_rgba(kind, px),
    }
}

/// The samples that stand for red, green, blue and alpha in a pixel of the
/// given kind. Gray kinds keep the brightness, kinds without alpha drop it.
pub open spec fn samples_of(kind: PixelKind, rgba: Seq<u8>) -> Seq<u8> {
    match kind {
        PixelKind::Luma8 => seq![luma8(rgba[0], rgba[1], rgba[2])],
        PixelKind::LumaA8 => seq![luma8(rgba[0], rgba[1], rgba[2]), rgba[3]],
        PixelKind::Rgb8 => seq![rgba[0], rgba[1], rgba[2]],
        PixelKind::Rgba8 => seq![rgba[0], rgba[1], rgba[2], rgba[3]],
        _ => wide_samples(kind, rgba),
    }
}

/// `DynamicImage::color`, read off the variant: the buffer's kind.
#[verifier::external_body]
pub(crate) fn kind_of(img: &DynamicImage) -> (k: PixelKind)
    ensures
        k == image_kind(*img),
{
    match img {
        DynamicImage::ImageLuma8(_) => PixelKind::Luma8,
        DynamicImage::ImageLumaA8(_) => PixelKind::LumaA8,
        DynamicImage::ImageRgb8(_) => PixelKind::Rgb8,
        DynamicImage::ImageRgba8(_) => PixelKind::Rgba8,
        DynamicImage::ImageLuma16(_) => PixelKind::Luma16,
        DynamicImage::ImageLumaA16(_) => PixelKind::LumaA16,
        DynamicImage::ImageRgb16(_) => PixelKind::Rgb16,
        DynamicImage::ImageRgba16(_) => PixelKind::Rgba16,
        DynamicImage::ImageRgb32F(_) => PixelKind::Rgb32F,
        _ => PixelKind::Rgba32F,
    }
}

/// `DynamicImage::width`: the buffer's width.
#[verifier::external_body]
pub(crate) fn width_of(img: &DynamicImage) -> (w: u32)
    ensures
        w == image_width(*img),
{
    img.width()
}

/// `DynamicImage::height`: the buffer's height.
#[verifier::external_body]
pub(crate) fn height_of(img: &DynamicImage) -> (h: u32)
    ensures
        h == image_height(*img),
{
    img.height()
}

/// `GenericImageView::get_pixel` of a `DynamicImage`: the pixel inside the
/// buffer at `(x, y)`, converted to 8-bit red, green, blue and alpha. For a
/// 16-bit or floating kind the conversion is the image crate's own.
#[verifier::external_body]
pub(crate) fn pixel_at(img: &DynamicImage, x: u32, y: u32) -> (p: [u8; 4])
    requires
        raster_of(*img).holds(x as int, y as int),
    ensures
        p@ == if image_kind(*img).eight_bit() {
            raster_of(*img).rgba_at(x as int, y as int)
        } else {
            wide_rgba(
                image_kind(*img),
                sized(image_pixels(*img)[(x as int, y as int)], image_kind(*img).pixel_bytes()),
            )
        },
{
    img.get_pixel(x, y).0
}

/// `GenericImage::put_pixel` of a `DynamicImage`: the pixel inside the buffer
/// at `(x, y)` becomes the given red, green, blue and alpha, converted to the
/// buffer's kind; nothing else changes. For a 16-bit or floating kind the
/// conversion is the image crate's own.
#[verifier::external_body]
pub(crate) fn set_pixel(img: &mut DynamicImage, x: u32, y: u32, p: [u8; 4])
    requires
        raster_of(*old(img)).holds(x as int, y as int),
    ensures
        raster_of(*final(img)) == raster_of(*old(img)).with_pixel(
            x as int,
            y as int,
            if image_kind(*old(img)).eight_bit() {
                samples_of(image_kind(*old(img)), p@)
            } else {
                wide_samples(image_kind(*old(img)), p@)
            },
        ),
{
    img.put_pixel(x, y, Rgba(p));
}

} // verus!
