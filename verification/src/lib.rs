//! A bridge between the WebP codec and in-memory pixel buffers: an
//! incremental reader that finds an image's dimensions in a byte stream of
//! unknown length and then decodes it, and an encoder that maps tagged pixel
//! buffers onto the layouts that the codec takes.
//!
//! The library does no input or output. A [`Reader`] says what it needs from
//! a byte source and takes the bytes that its caller read; over a
//! [`ByteSource`], which holds its bytes in memory, it makes the reads itself,
//! and so does a [`WebpDecoder`]. A [`WebpEncoder`] returns the encoded bytes,
//! or, for lossy compression, the call of the codec that yields them.
//!
//! What the codec and the `image` crate compute is taken on trust, as the
//! modules [`codec`] and [`convert`] state it; everything else is proved.

pub mod buffer;
pub mod codec;
pub mod color;
pub mod convert;
pub mod decoder;
pub mod encoder;
pub mod error;
pub mod frame;
pub mod laws;
pub mod reader;
pub mod source;

pub use buffer::DynamicImage;
pub use color::{ColorType, WebpColor};
pub use decoder::{
    webp_load, webp_load_from_memory, webp_load_rgb, webp_load_rgb_from_memory, webp_load_rgba,
    webp_load_rgba_from_memory, WebpDecoder, WebpReader,
};
pub use encoder::{
    completed, Compression, Encoded, LossyCall, WebpEncoder, DEFAULT_QUALITY_BITS, MAX_STRIDE,
};
pub use error::WebpError;
pub use frame::DecodedImage;
pub use reader::{Demand, Reader, Stage, READER_READ_UNIT};
pub use source::ByteSource;
