use crate::errors::Errors;
use crate::raster::{raster_of, Raster};
use image::{DynamicImage, ImageOutputFormat};
use vstd::prelude::*;

verus! {

#[verifier::external_type_specification]
#[verifier::external_body]
pub struct ExImageOutputFormat(ImageOutputFormat);

/// The buffer that the image crate decodes from the bytes of an encoded
/// image, with the format guessed from the bytes; nothing where it refuses
/// them.
pub uninterp spec fn decoded(bytes: Seq<u8>) -> Option<Raster>;

/// The formats whose encoder works through the buffer in one fixed order,
/// and all the others.
#[derive(Clone, Copy, Debug, PartialEq, Eq, Structural)]
pub enum OutputKind {
    Png,
    Jpeg,
    Bmp,
    Other,
}

/// Which of these a format is.
pub uninterp spec fn format_kind(format: ImageOutputFormat) -> OutputKind;

/// The bytes that the image crate encodes a buffer to in a format; nothing
/// where it refuses. It stands for the formats whose encoder works in one
/// fixed order: PNG, JPEG and BMP.
pub uninterp spec fn encoded(r: Raster, format: ImageOutputFormat) -> Option<Seq<u8>>;

/// Whether the bytes of a buffer in this format are the same whenever it is
/// encoded. An encoder that hands its work out to threads may write the
/// parts in the order in which they are done.
pub open spec fn steady_format(format: ImageOutputFormat) -> bool {
    format_kind(format) != OutputKind::Other
}

/// The bytes that a base64 text stands for; nothing where the text is not
/// base64.
pub uninterp spec fn base64_decoded(text: Seq<char>) -> Option<Seq<u8>>;

/// `image::load_from_memory`: guesses the format from the bytes and decodes
/// them. What it returns is stated; that the decoder of every format
/// returns on every sequence of bytes is not: where one of them panics on
/// malformed bytes, so does this call.
#[verifier::external_body]
pub(crate) fn load_from_memory(bytes: &Vec<u8>) -> (res: Result<DynamicImage, image::ImageError>)
    ensures
        match res {
            Ok(img) => decoded(bytes@) == Some(raster_of(img)),
            Err(_) => decoded(bytes@).is_none(),
        },
{
    image::load_from_memory(bytes)
}

/// The variant of an `ImageOutputFormat`: PNG, JPEG, BMP, or another.
#[verifier::external_body]
pub(crate) fn kind_of_format(format: &ImageOutputFormat) -> (kind: OutputKind)
    ensures
        kind == format_kind(*format),
{
    match format {
        ImageOutputFormat::Png => OutputKind::Png,
        ImageOutputFormat::Jpeg(_) => OutputKind::Jpeg,
        ImageOutputFormat::Bmp => OutputKind::Bmp,
        _ => OutputKind::Other,
    }
}

/// `DynamicImage::write_to` into a vector: the buffer encoded in the format.
/// In a steady format the bytes are those that the buffer always gives; of
/// another format only success or failure is told.
#[verifier::external_body]
pub(crate) fn write_to_vec(img: &DynamicImage, format: ImageOutputFormat) -> (res: Result<
    Vec<u8>,
    image::ImageError,
>)
    ensures
        steady_format(format) ==> match res {
            Ok(bytes) => encoded(raster_of(*img), format) == Some(bytes@),
            Err(_) => encoded(raster_of(*img), format).is_none(),
        },
{
    let mut bytes: Vec<u8> = Vec::new();
    match img.write_to(&mut std::io::Cursor::new(&mut bytes), format) {
        Ok(()) => Ok(bytes),
        Err(e) => Err(e),
    }
}

/// `base64::decode`: the bytes that the text stands for in the standard
/// alphabet.
#[verifier::external_body]
pub(crate) fn base64_decode(text: &String) -> (res: Result<Vec<u8>, base64::DecodeError>)
    ensures
        match res {
            Ok(bytes) => base64_decoded(text@) == Some(bytes@),
            Err(_) => base64_decoded(text@).is_none(),
        },
{
    base64::decode(text)
}

/// Decodes an encoded image. The format is guessed from the bytes
/// themselves. Bytes that the codec refuses give an image error. Whether
/// the codec returns on every sequence of bytes is its own matter: a
/// decoder that panics on malformed bytes panics here.
pub fn decode_image(bytes: &Vec<u8>) -> (res: Result<DynamicImage, Errors>)
    ensures
        match res {
            Ok(img) => decoded(bytes@) == Some(raster_of(img)),
            Err(e) => decoded(bytes@).is_none() && e is ImageError,
        },
{
    match load_from_memory(bytes) {
        Ok(img) => Ok(img),
        Err(e) => Err(Errors::ImageError(e)),
    }
}

/// Which kind of format this is: one with a steady encoder, or another.
pub fn output_kind(format: &ImageOutputFormat) -> (kind: OutputKind)
    ensures
        kind == format_kind(*format),
{
    kind_of_format(format)
}

/// Encodes the buffer in the given format. What the codec refuses gives an
/// image error. In a steady format the bytes are those that the buffer
/// always gives, and the codec refuses whenever it refuses once.
pub fn image_to_bytes(image: DynamicImage, format: ImageOutputFormat) -> (res: Result<
    Vec<u8>,
    Errors,
>)
    ensures
        res matches Err(e) ==> e is ImageError,
        steady_format(format) ==> match res {
            Ok(bytes) => encoded(raster_of(image), format) == Some(bytes@),
            Err(_) => encoded(raster_of(image), format).is_none(),
        },
{
    match write_to_vec(&image, format) {
        Ok(bytes) => Ok(bytes),
        Err(e) => Err(Errors::ImageError(e)),
    }
}

/// Decodes a base64 text. A text that is not base64 gives a decoding error.
pub fn decode_base64(text: &String) -> (res: Result<Vec<u8>, Errors>)
    ensures
        match res {
            Ok(bytes) => base64_decoded(text@) == Some(bytes@),
            Err(e) => base64_decoded(text@).is_none() && e is Base64DecodeError,
        },
{
    match base64_decode(text) {
        Ok(bytes) => Ok(bytes),
        Err(e) => Err(Errors::Base64DecodeError(e)),
    }
}

} // verus!
