//! The failure kinds of the library and their user-visible wording.

use vstd::prelude::*;
use vstd::string::*;

verus! {

/// What can go wrong while a photograph is processed.
///
/// Every variant carries the cause as text, so that an error can be reported
/// next to the path of the file it belongs to.
#[derive(Debug)]
pub enum PhotoBorderError {
    /// Decoding, compositing or encoding an image failed.
    ImageError(String),
    /// The file system refused something, or a path could not be derived.
    IoError(String),
    /// The metadata container of a file could not be read.
    ExifError(String),
    /// A font could not be parsed, or a style token was not recognised.
    FontError(String),
}

/// The mathematical value of a [`PhotoBorderError`].
pub enum ErrorView {
    ImageError(Seq<char>),
    IoError(Seq<char>),
    ExifError(Seq<char>),
    FontError(Seq<char>),
}

impl ErrorView {
    /// The sentence shown to the user: the kind's prefix, then the cause.
    pub open spec fn message(self) -> Seq<char> {
        match self {
            ErrorView::ImageError(cause) => "Image processing error: "@ + cause,
            ErrorView::IoError(cause) => "Input/output error: "@ + cause,
            ErrorView::ExifError(cause) => "EXIF reading error: "@ + cause,
            ErrorView::FontError(cause) => "Font error: "@ + cause,
        }
    }
}

impl View for PhotoBorderError {
    type V = ErrorView;

    open spec fn view(&self) -> ErrorView {
        match self {
            PhotoBorderError::ImageError(cause) => ErrorView::ImageError(cause@),
            PhotoBorderError::IoError(cause) => ErrorView::IoError(cause@),
            PhotoBorderError::ExifError(cause) => ErrorView::ExifError(cause@),
            PhotoBorderError::FontError(cause) => ErrorView::FontError(cause@),
        }
    }
}

impl PhotoBorderError {
    /// The sentence shown to the user for this error.
    pub fn to_string(&self) -> (text: String)
        ensures
            text@ == self@.message(),
    {
        match self {
            PhotoBorderError::ImageError(cause) => {
                String::from_str("Image processing error: ").concat(cause.as_str())
            },
            PhotoBorderError::IoError(cause) => {
                String::from_str("Input/output error: ").concat(cause.as_str())
            },
            PhotoBorderError::ExifError(cause) => {
                String::from_str("EXIF reading error: ").concat(cause.as_str())
            },
            PhotoBorderError::FontError(cause) => {
                String::from_str("Font error: ").concat(cause.as_str())
            },
        }
    }
}

} // verus!
