use crate::codec::{base64_decoded, decode_base64, decode_image, decoded};
use crate::compose::{blank, cleared, fill_color, painted};
use crate::errors::{dimension_error, Failure, Errors};
use crate::raster::{raster_of, PixelKind, Raster};
use crate::resize::{has_room, room};
use crate::font::{parse_font, parsed_font};
use image::DynamicImage;
use rusttype::Font;
use vstd::prelude::*;
use vstd::string::StringExecFns;

verus! {

/// Where an image comes from. A source is resolved once, to one buffer.
pub enum ImageInputType {
    /// A buffer that is there already.
    DynamicImage(DynamicImage),
    /// An opaque buffer of one colour, `size` being its width and height.
    Color { r: u8, g: u8, b: u8, size: (u32, u32) },
    /// What reading a file gave: the bytes of an encoded image, or the
    /// failure to read it.
    File(Result<Vec<u8>, std::io::Error>),
    /// The bytes of an encoded image.
    Bytes(Vec<u8>),
    /// A fresh buffer with every sample zero, of the kind that `type_`
    /// names.
    New { h: u32, w: u32, type_: String },
    /// The bytes of an encoded image as base64 text.
    Base64(String),
    /// What fetching a remote image gave: the bytes of an encoded image, or
    /// the failure of the transfer.
    Fetched(Result<Vec<u8>, reqwest::Error>),
}

/// Where a font comes from. A source is resolved once, to one font.
pub enum FontInput {
    /// A font that is there already.
    Font(Font<'static>),
    /// What reading a file gave: the bytes of a font, or the failure to
    /// read it.
    File(Result<Vec<u8>, std::io::Error>),
    /// The bytes of a font.
    Bytes(Vec<u8>),
    /// The bytes of a font as base64 text.
    Base64(String),
    /// What fetching a remote font gave: the bytes of a font, or the
    /// failure of the transfer.
    Fetched(Result<Vec<u8>, reqwest::Error>),
}

/// The pixel kind that a name stands for, if it is one.
pub open spec fn kind_named(name: Seq<char>) -> Option<PixelKind> {
    if name == "RgbImage"@ {
        Some(PixelKind::Rgb8)
    } else if name == "RgbaImage"@ {
        Some(PixelKind::Rgba8)
    } else if name == "GrayImage"@ {
        Some(PixelKind::Luma8)
    } else if name == "GrayAlphaImage"@ {
        Some(PixelKind::LumaA8)
    } else if name == "Rgb32FImage"@ {
        Some(PixelKind::Rgb32F)
    } else if name == "Rgba32FImage"@ {
        Some(PixelKind::Rgba32F)
    } else {
        None
    }
}

/// The pixel kind with the given name; a name that is none is refused.
pub fn kind_from_name(name: &String) -> (res: Result<PixelKind, Errors>)
    ensures
        match kind_named(name@) {
            Some(kind) => res == Ok::<PixelKind, Errors>(kind),
            None => res == Err::<PixelKind, Errors>(Errors::InvalidImageType),
        },
{
    if *name == String::from_str("RgbImage") {
        Ok(PixelKind::Rgb8)
    } else if *name == String::from_str("RgbaImage") {
        Ok(PixelKind::Rgba8)
    } else if *name == String::from_str("GrayImage") {
        Ok(PixelKind::Luma8)
    } else if *name == String::from_str("GrayAlphaImage") {
        Ok(PixelKind::LumaA8)
    } else if *name == String::from_str("Rgb32FImage") {
        Ok(PixelKind::Rgb32F)
    } else if *name == String::from_str("Rgba32FImage") {
        Ok(PixelKind::Rgba32F)
    } else {
        Err(Errors::InvalidImageType)
    }
}

/// What decoding the bytes of an encoded image gives: the buffer, or an
/// image error.
pub open spec fn decoding(bytes: Seq<u8>) -> Result<Raster, Failure> {
    match decoded(bytes) {
        Some(r) => Ok(r),
        None => Err(Failure::Image),
    }
}

/// A buffer of the given size, where one of its kind and that size can be
/// held; else an image error.
pub open spec fn sized_or_refused(w: u32, h: u32, r: Raster) -> Result<Raster, Failure> {
    if room(r.kind, w as int, h as int) {
        Ok(r)
    } else {
        Err(Failure::Image)
    }
}

/// What reading a font from these bytes gives: the font, or `InvalidFont`
/// where they are none.
pub open spec fn parsing(bytes: Seq<u8>) -> Result<Font<'static>, Failure> {
    match parsed_font(bytes) {
        Some(font) => Ok(font),
        None => Err(Failure::InvalidFont),
    }
}

impl ImageInputType {
    /// What resolving the source gives: the model of the buffer, or the
    /// failure.
    ///
    /// A buffer is handed on as it is. A colour gives an opaque 8-bit buffer
    /// of that colour. Bytes, read from a file, given, written as base64 or
    /// fetched, are decoded, with the format guessed from them. A fresh
    /// buffer is of the named kind, with every sample zero. A read or a
    /// transfer that failed, a text that is not base64 and a name that is
    /// no kind each give their own failure; bytes that the codec refuses and
    /// a size that cannot be held give an image error.
    pub open spec fn outcome(self) -> Result<Raster, Failure> {
        match self {
            ImageInputType::DynamicImage(img) => Ok(raster_of(img)),
            ImageInputType::Color { r, g, b, size } => sized_or_refused(
                size.0,
                size.1,
                painted(PixelKind::Rgb8, size.0 as nat, size.1 as nat, seq![r, g, b, 255u8]),
            ),
            ImageInputType::File(Ok(bytes)) => decoding(bytes@),
            ImageInputType::File(Err(e)) => Err(Failure::Io(e)),
            ImageInputType::Bytes(bytes) => decoding(bytes@),
            ImageInputType::New { h, w, type_ } => match kind_named(type_@) {
                Some(kind) => sized_or_refused(w, h, cleared(kind, w as nat, h as nat)),
                None => Err(Failure::InvalidImageType),
            },
            ImageInputType::Base64(text) => match base64_decoded(text@) {
                Some(bytes) => decoding(bytes),
                None => Err(Failure::Base64Decode),
            },
            ImageInputType::Fetched(Ok(bytes)) => decoding(bytes@),
            ImageInputType::Fetched(Err(e)) => Err(Failure::Transport(e)),
        }
    }

    /// Resolves the source to its buffer.
    pub fn get_image(self) -> (res: Result<DynamicImage, Errors>)
        ensures
            outcome_of(res) == self.outcome(),
            self matches ImageInputType::DynamicImage(img) ==> res == Ok::<DynamicImage, Errors>(
                img,
            ),
    {
        match self {
            ImageInputType::DynamicImage(image) => Ok(image),
            ImageInputType::Color { r, g, b, size } => {
                if !has_room(PixelKind::Rgb8, size.0, size.1) {
                    return Err(Errors::ImageError(dimension_error()));
                }
                Ok(fill_color([r, g, b], size))
            },
            ImageInputType::File(read) => match read {
                Ok(bytes) => decode_image(&bytes),
                Err(e) => Err(Errors::IOError(e)),
            },
            ImageInputType::Bytes(bytes) => decode_image(&bytes),
            ImageInputType::New { h, w, type_ } => {
                let kind = kind_from_name(&type_)?;
                if !has_room(kind, w, h) {
                    return Err(Errors::ImageError(dimension_error()));
                }
                Ok(blank(kind, w, h))
            },
            ImageInputType::Base64(text) => {
                let bytes = decode_base64(&text)?;
                decode_image(&bytes)
            },
            ImageInputType::Fetched(fetched) => match fetched {
                Ok(bytes) => decode_image(&bytes),
                Err(e) => Err(Errors::ReqwestError(e)),
            },
        }
    }
}

/// A fresh buffer with a name that is no pixel kind fails with
/// `InvalidImageType`, whatever its size.
pub proof fn law_unknown_kind_refused(source: ImageInputType)
    requires
        source matches ImageInputType::New { type_, .. } && kind_named(type_@).is_none(),
    ensures
        source.outcome() == Err::<Raster, Failure>(Failure::InvalidImageType),
{
}

/// What a result of the pipeline says: the model of the buffer, or the
/// failure.
pub open spec fn outcome_of(res: Result<DynamicImage, Errors>) -> Result<Raster, Failure> {
    match res {
        Ok(img) => Ok(raster_of(img)),
        Err(e) => Err(e.seen()),
    }
}

impl FontInput {
    /// What resolving the source gives: the font, or the failure. A read or a transfer that failed and a text that is not
    /// base64 each give their own failure; bytes that are no font give
    /// `InvalidFont`.
    pub open spec fn outcome(self) -> Result<Font<'static>, Failure> {
        match self {
            FontInput::Font(font) => Ok(font),
            FontInput::File(Ok(bytes)) => parsing(bytes@),
            FontInput::File(Err(e)) => Err(Failure::Io(e)),
            FontInput::Bytes(bytes) => parsing(bytes@),
            FontInput::Base64(text) => match base64_decoded(text@) {
                Some(bytes) => parsing(bytes),
                None => Err(Failure::Base64Decode),
            },
            FontInput::Fetched(Ok(bytes)) => parsing(bytes@),
            FontInput::Fetched(Err(e)) => Err(Failure::Transport(e)),
        }
    }

    /// Resolves the source to its font. A font that is there already is
    /// handed on as it is.
    pub fn get_font(self) -> (res: Result<Font<'static>, Errors>)
        ensures
            match res {
                Ok(font) => self.outcome() == Ok::<Font<'static>, Failure>(font),
                Err(e) => self.outcome() == Err::<Font<'static>, Failure>(e.seen()),
            },
    {
        match self {
            FontInput::Font(font) => Ok(font),
            FontInput::File(read) => match read {
                Ok(bytes) => font_from_bytes(bytes),
                Err(e) => Err(Errors::IOError(e)),
            },
            FontInput::Bytes(bytes) => font_from_bytes(bytes),
            FontInput::Base64(text) => {
                let bytes = decode_base64(&text)?;
                font_from_bytes(bytes)
            },
            FontInput::Fetched(fetched) => match fetched {
                Ok(bytes) => font_from_bytes(bytes),
                Err(e) => Err(Errors::ReqwestError(e)),
            },
        }
    }
}

/// The font that the bytes hold; bytes that are none give `InvalidFont`.
pub fn font_from_bytes(bytes: Vec<u8>) -> (res: Result<Font<'static>, Errors>)
    ensures
        match res {
            Ok(font) => parsed_font(bytes@) == Some(font),
            Err(e) => parsed_font(bytes@).is_none() && e is InvalidFont,
        },
{
    match parse_font(bytes) {
        Some(font) => Ok(font),
        None => Err(Errors::InvalidFont),
    }
}

} // verus!
