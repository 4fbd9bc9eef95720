use ntex_multipart::MultipartError as StreamError;
use vstd::prelude::*;

verus! {

/// An I/O failure of the standard library, carried through unchanged.
#[verifier::external_type_specification]
#[verifier::external_body]
pub struct ExIoError(std::io::Error);

/// A failure of the multipart stream decoder, carried through unchanged.
#[verifier::external_type_specification]
#[verifier::external_body]
pub struct ExStreamError(StreamError);

/// Result of the operations of this library.
pub type MultipartResult<T> = Result<T, MultipartError>;

/// Why an upload could not be captured or stored.
#[derive(Debug)]
pub enum MultipartError {
    /// Writing the captured file failed.
    IoError(std::io::Error),
    /// No part of the request carried the requested field.
    NotUploaded,
    /// The part has no usable `content-type` header.
    InvalidContentType,
    /// The part has no usable `content-disposition` header, or it lacks
    /// the `name` or `filename` parameter.
    InvalidContentDisposition,
    /// The multipart stream itself failed.
    NtexError(StreamError),
    /// The captured field broke one of the caller's constraints.
    ValidationError(MultipartValidationError),
}

/// A constraint of the caller that the captured field broke.
#[derive(Debug, PartialEq, Eq, Structural, Clone, Copy)]
pub enum MultipartValidationError {
    /// Fewer bytes arrived than the lower bound asks for.
    LowerSizeError,
    /// More bytes arrived than the upper bound allows.
    UpperSizeError,
    /// The content type of the part is refused.
    InvalidMimeType,
}

impl From<std::io::Error> for MultipartError {
    fn from(value: std::io::Error) -> (r: Self)
        ensures
            r == MultipartError::IoError(value),
    {
        MultipartError::IoError(value)
    }
}

impl vstd::std_specs::convert::FromSpecImpl<std::io::Error> for MultipartError {
    open spec fn obeys_from_spec() -> bool {
        true
    }

    open spec fn from_spec(v: std::io::Error) -> MultipartError {
        MultipartError::IoError(v)
    }
}

} // verus!
