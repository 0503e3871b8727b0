use vstd::prelude::*;
use vstd::std_specs::convert::FromSpecImpl;

verus! {

#[verifier::external_type_specification]
#[verifier::external_body]
pub struct ExIoError(std::io::Error);

#[verifier::external_type_specification]
#[verifier::external_body]
pub struct ExImageError(image::ImageError);

#[verifier::external_type_specification]
#[verifier::external_body]
pub struct ExDecodeError(base64::DecodeError);

#[verifier::external_type_specification]
#[verifier::external_body]
pub struct ExReqwestError(reqwest::Error);

/// Everything that can stop a pipeline. Each failure is final: nothing is
/// retried, and no partial image is handed out.
#[derive(Debug)]
pub enum Errors {
    /// The font bytes do not parse.
    InvalidFont,
    /// A fresh buffer was asked for with a name that is no pixel kind.
    InvalidImageType,
    /// A resize was asked for with a name that is no resampling filter.
    InvalidResizeFilter,
    /// The pipeline was applied before and holds no source any more.
    InputImageAlreadyUsed,
    /// A file could not be read.
    IOError(std::io::Error),
    /// The codec refused the bytes or the image, or an operation was given
    /// sizes, amounts or a text that the pixel buffers or the font cannot
    /// take.
    ImageError(image::ImageError),
    /// The text is not base64.
    Base64DecodeError(base64::DecodeError),
    /// The transfer failed.
    ReqwestError(reqwest::Error),
}

/// Which of the failures an [`Errors`] value is, without what it carries.
#[derive(Clone, Copy, Debug, PartialEq, Eq, Structural)]
pub enum ErrorKind {
    InvalidFont,
    InvalidImageType,
    InvalidResizeFilter,
    InputImageAlreadyUsed,
    Io,
    Image,
    Base64Decode,
    Transport,
}

/// What an [`Errors`] value says in contracts: which failure it is, and
/// for a read or a transfer that failed, the very error that the caller
/// handed in. The errors that the codecs make are told by their kind.
pub enum Failure {
    InvalidFont,
    InvalidImageType,
    InvalidResizeFilter,
    InputImageAlreadyUsed,
    Io(std::io::Error),
    Image,
    Base64Decode,
    Transport(reqwest::Error),
}

impl Errors {
    /// What the error says in contracts.
    pub open spec fn seen(self) -> Failure {
        match self {
            Errors::InvalidFont => Failure::InvalidFont,
            Errors::InvalidImageType => Failure::InvalidImageType,
            Errors::InvalidResizeFilter => Failure::InvalidResizeFilter,
            Errors::InputImageAlreadyUsed => Failure::InputImageAlreadyUsed,
            Errors::IOError(e) => Failure::Io(e),
            Errors::ImageError(_) => Failure::Image,
            Errors::Base64DecodeError(_) => Failure::Base64Decode,
            Errors::ReqwestError(e) => Failure::Transport(e),
        }
    }

    /// The error's kind.
    pub open spec fn kind_of(self) -> ErrorKind {
        match self {
            Errors::InvalidFont => ErrorKind::InvalidFont,
            Errors::InvalidImageType => ErrorKind::InvalidImageType,
            Errors::InvalidResizeFilter => ErrorKind::InvalidResizeFilter,
            Errors::InputImageAlreadyUsed => ErrorKind::InputImageAlreadyUsed,
            Errors::IOError(_) => ErrorKind::Io,
            Errors::ImageError(_) => ErrorKind::Image,
            Errors::Base64DecodeError(_) => ErrorKind::Base64Decode,
            Errors::ReqwestError(_) => ErrorKind::Transport,
        }
    }

    /// The failure's kind.
    pub fn kind(&self) -> (k: ErrorKind)
        ensures
            k == self.kind_of(),
    {
        match self {
            Errors::InvalidFont => ErrorKind::InvalidFont,
            Errors::InvalidImageType => ErrorKind::InvalidImageType,
            Errors::InvalidResizeFilter => ErrorKind::InvalidResizeFilter,
            Errors::InputImageAlreadyUsed => ErrorKind::InputImageAlreadyUsed,
            Errors::IOError(_) => ErrorKind::Io,
            Errors::ImageError(_) => ErrorKind::Image,
            Errors::Base64DecodeError(_) => ErrorKind::Base64Decode,
            Errors::ReqwestError(_) => ErrorKind::Transport,
        }
    }
}

/// `ParameterError::from_kind` with `DimensionMismatch`, wrapped as the image
/// crate's error for dimensions that are too small or too large. The
/// library refuses with it what an operation cannot take.
#[verifier::external_body]
pub(crate) fn dimension_error() -> (e: image::ImageError) {
    image::ImageError::Parameter(image::error::ParameterError::from_kind(
        image::error::ParameterErrorKind::DimensionMismatch,
    ))
}

impl From<image::ImageError> for Errors {
    fn from(error: image::ImageError) -> (e: Self) {
        Errors::ImageError(error)
    }
}

impl FromSpecImpl<image::ImageError> for Errors {
    open spec fn obeys_from_spec() -> bool {
        true
    }

    open spec fn from_spec(error: image::ImageError) -> Self {
        Errors::ImageError(error)
    }
}

impl From<std::io::Error> for Errors {
    fn from(error: std::io::Error) -> (e: Self) {
        Errors::IOError(error)
    }
}

impl FromSpecImpl<std::io::Error> for Errors {
    open spec fn obeys_from_spec() -> bool {
        true
    }

    open spec fn from_spec(error: std::io::Error) -> Self {
        Errors::IOError(error)
    }
}

impl From<base64::DecodeError> for Errors {
    fn from(error: base64::DecodeError) -> (e: Self) {
        Errors::Base64DecodeError(error)
    }
}

impl FromSpecImpl<base64::DecodeError> for Errors {
    open spec fn obeys_from_spec() -> bool {
        true
    }

    open spec fn from_spec(error: base64::DecodeError) -> Self {
        Errors::Base64DecodeError(error)
    }
}

impl From<reqwest::Error> for Errors {
    fn from(error: reqwest::Error) -> (e: Self) {
        Errors::ReqwestError(error)
    }
}

impl FromSpecImpl<reqwest::Error> for Errors {
    open spec fn obeys_from_spec() -> bool {
        true
    }

    open spec fn from_spec(error: reqwest::Error) -> Self {
        Errors::ReqwestError(error)
    }
}

} // verus!
