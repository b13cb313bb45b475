//! Decoded images: the pixels that the codec produced, framed in rows.

use vstd::prelude::*;
use vstd::slice::slice_to_vec;
use libwebp::boxed::WebpBox;
use crate::codec::{
    decoded_bgr, decoded_bgra, decoded_rgb, decoded_rgba, native_bytes, native_slice,
};
use crate::color::WebpColor;

verus! {

/// A decoded image as a value: layout, size, row stride and the samples in
/// scan order.
pub struct DecodedView {
    pub layout: WebpColor,
    pub width: u32,
    pub height: u32,
    pub stride: u32,
    pub pixels: Seq<u8>,
}

impl DecodedView {
    /// Rows are unpadded and the buffer holds exactly `height` of them.
    pub open spec fn framed(self) -> bool {
        &&& self.stride == self.width * self.layout.channels()
        &&& self.pixels.len() == self.stride * self.height
    }
}

/// The image that `pixels` is when read as `height` unpadded rows of `width`
/// pixels in `layout`; `None` where a row would not fit in 32 bits or the
/// buffer does not hold exactly that many rows.
pub open spec fn framing(layout: WebpColor, width: u32, height: u32, pixels: Seq<u8>) -> Option<
    DecodedView,
> {
    if width * layout.channels() <= u32::MAX && pixels.len() == width * layout.channels() * height {
        Some(
            DecodedView {
                layout,
                width,
                height,
                stride: (width * layout.channels()) as u32,
                pixels,
            },
        )
    } else {
        None
    }
}

/// What the codec's decoder for `layout` makes of `data`.
pub open spec fn decoded(layout: WebpColor, data: Seq<u8>) -> Option<(u32, u32, Seq<u8>)> {
    match layout {
        WebpColor::RGB => decoded_rgb(data),
        WebpColor::RGBA => decoded_rgba(data),
        WebpColor::BGR => decoded_bgr(data),
        WebpColor::BGRA => decoded_bgra(data),
    }
}

/// The image that `data` decodes to in `layout`: what the codec's decoder for
/// that layout returns, framed in rows.
pub open spec fn decoding(layout: WebpColor, data: Seq<u8>) -> Option<DecodedView> {
    match decoded(layout, data) {
        Some((width, height, pixels)) => framing(layout, width, height, pixels),
        None => None,
    }
}

/// A decoded image. The pixel buffer is the one that the codec allocated; it
/// goes back to the codec when the image is dropped.
#[derive(Debug)]
pub struct DecodedImage {
    layout: WebpColor,
    width: u32,
    height: u32,
    stride: u32,
    pixels: WebpBox<[u8]>,
}

impl View for DecodedImage {
    type V = DecodedView;

    closed spec fn view(&self) -> DecodedView {
        DecodedView {
            layout: self.layout,
            width: self.width,
            height: self.height,
            stride: self.stride,
            pixels: native_bytes(self.pixels),
        }
    }
}

/// The value of an image that may be absent.
pub open spec fn view_of(image: Option<DecodedImage>) -> Option<DecodedView> {
    match image {
        Some(image) => Some(image@),
        None => None,
    }
}

impl DecodedImage {
    /// Rows are unpadded and the buffer holds exactly `height` of them.
    pub open spec fn wf(&self) -> bool {
        self@.framed()
    }

    /// Frames a buffer that the codec returned for a `width` by `height`
    /// image in `layout`.
    pub fn frame(layout: WebpColor, width: u32, height: u32, pixels: WebpBox<[u8]>) -> (r: Option<
        DecodedImage,
    >)
        ensures
            view_of(r) == framing(layout, width, height, native_bytes(pixels)),
            r matches Some(image) ==> image.wf(),
    {
        let channels = layout.channel_count();
        match width.checked_mul(channels) {
            Some(stride) => {
                let len = native_slice(&pixels).len();
                assert(stride as u64 * height as u64 <= u64::MAX) by (nonlinear_arith)
                    requires
                        stride <= u32::MAX,
                        height <= u32::MAX,
                ;
                if len as u64 == stride as u64 * height as u64 {
                    Some(DecodedImage { layout, width, height, stride, pixels })
                } else {
                    None
                }
            },
            None => None,
        }
    }

    /// Decodes `data` with the codec's decoder for `layout`.
    pub fn decode(layout: WebpColor, data: &[u8]) -> (r: Option<DecodedImage>)
        ensures
            view_of(r) == decoding(layout, data@),
            r matches Some(image) ==> image.wf(),
    {
        let outcome = match layout {
            WebpColor::RGB => libwebp::WebPDecodeRGB(data),
            WebpColor::RGBA => libwebp::WebPDecodeRGBA(data),
            WebpColor::BGR => libwebp::WebPDecodeBGR(data),
            WebpColor::BGRA => libwebp::WebPDecodeBGRA(data),
        };
        match outcome {
            Ok((width, height, pixels)) => DecodedImage::frame(layout, width, height, pixels),
            Err(_) => None,
        }
    }

    /// The order and number of the samples of a pixel.
    pub fn layout(&self) -> (layout: WebpColor)
        ensures
            layout == self@.layout,
    {
        self.layout
    }

    /// Pixels per row.
    pub fn width(&self) -> (width: u32)
        ensures
            width == self@.width,
    {
        self.width
    }

    /// Number of rows.
    pub fn height(&self) -> (height: u32)
        ensures
            height == self@.height,
    {
        self.height
    }

    /// Width and height.
    pub fn dimensions(&self) -> (d: (u32, u32))
        ensures
            d == (self@.width, self@.height),
    {
        (self.width, self.height)
    }

    /// Bytes per row.
    pub fn stride(&self) -> (stride: u32)
        ensures
            stride == self@.stride,
    {
        self.stride
    }

    /// The samples in scan order.
    pub fn pixels(&self) -> (pixels: &[u8])
        ensures
            pixels@ == self@.pixels,
    {
        native_slice(&self.pixels)
    }

    /// A copy of the samples in a buffer of the caller's own.
    pub fn to_vec(&self) -> (pixels: Vec<u8>)
        ensures
            pixels@ == self@.pixels,
    {
        slice_to_vec(native_slice(&self.pixels))
    }
}

} // verus!
