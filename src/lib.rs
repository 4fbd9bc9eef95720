//! Selection, validation and metadata of a single file field of a
//! multipart/form-data upload.
//!
//! [`FileInfo::create`] reads a part's file metadata from its
//! `content-type` and `content-disposition` headers. [`step`] decides, one
//! event of the multipart body at a time, which part is the requested field,
//! whether its content type and size are acceptable, and when the capture is
//! over; the caller reads the body, keeps the chunks it is told to keep, and
//! stores them once the file is accepted.
mod capture;
mod disposition;
mod file;
mod result;
mod text;

pub use capture::{step, CaptureAction, CaptureEvent, CaptureState, UploadData};
pub use disposition::DispositionVars;
pub use file::{FileInfo, PartHeaders};
pub use result::{MultipartError, MultipartResult, MultipartValidationError};
