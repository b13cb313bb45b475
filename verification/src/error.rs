//! The ways in which decoding and encoding fail.

use vstd::prelude::*;
use crate::color::ColorType;

verus! {

/// Why an operation of this library failed.
#[derive(Clone, Copy, Debug, PartialEq, Eq, Structural)]
pub enum WebpError {
    /// The byte source ran dry before the codec recognised a header.
    Header,
    /// A header was recognised, but the codec could not decode the pixels.
    Data,
    /// A payload handed over in one piece could not be decoded.
    Decoding,
    /// The codec rejected the pixel buffer that it was asked to encode.
    Encoding,
    /// The buffer's tag names no layout that the entry point accepts.
    Unsupported(ColorType),
}

impl WebpError {
    /// Whether the failure arose while decoding.
    pub open spec fn decoding(self) -> bool {
        self is Header || self is Data || self is Decoding
    }

    /// Whether the failure arose while decoding.
    pub fn is_decoding(&self) -> (b: bool)
        ensures
            b == self.decoding(),
    {
        match self {
            WebpError::Header | WebpError::Data | WebpError::Decoding => true,
            _ => false,
        }
    }

    /// Whether the codec rejected a buffer to encode.
    pub fn is_encoding(&self) -> (b: bool)
        ensures
            b == (*self is Encoding),
    {
        match self {
            WebpError::Encoding => true,
            _ => false,
        }
    }

    /// The tag that the entry point does not accept, if that is the failure.
    pub fn unsupported_color(&self) -> (c: Option<ColorType>)
        ensures
            c == (match *self {
                WebpError::Unsupported(t) => Some(t),
                _ => None,
            }),
    {
        match self {
            WebpError::Unsupported(t) => Some(*t),
            _ => None,
        }
    }

    /// A short description of the failure.
    pub fn message(&self) -> (m: &'static str)
        ensures
            m@ == (match *self {
                WebpError::Header => "Invalid webp header"@,
                WebpError::Data => "Invalid webp data"@,
                WebpError::Decoding => "Webp Format Error"@,
                WebpError::Encoding => "Webp Format Error"@,
                WebpError::Unsupported(_) => "Unsupported color type"@,
            }),
    {
        match self {
            WebpError::Header => "Invalid webp header",
            WebpError::Data => "Invalid webp data",
            WebpError::Decoding => "Webp Format Error",
            WebpError::Encoding => "Webp Format Error",
            WebpError::Unsupported(_) => "Unsupported color type",
        }
    }
}

} // verus!
