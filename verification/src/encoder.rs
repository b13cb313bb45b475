//! The encoder: it picks the codec's primitive for a pixel buffer from the
//! buffer's layout and the compression mode, converting the buffer first
//! where the codec does not take its layout.
//!
//! The codec's lossy primitives take the quality as a floating-point number.
//! This library holds no floating-point numbers: it carries the quality as
//! its bit pattern, and hands the lossy call, ready to be made, to its caller
//! (`LossyCall`).

use vstd::pervasive::unreached;
use vstd::prelude::*;
use vstd::slice::slice_to_vec;
use crate::buffer::{holds_exactly, DynamicImage, ImageView};
use crate::codec::{lossless_bgr, lossless_bgra, lossless_rgb, lossless_rgba, native_slice};
use crate::color::{ColorType, WebpColor};
use crate::convert::{
    gray_alpha_as_rgba, gray_as_rgb, holdable, luma16_to_rgb8, luma8_to_rgb8,
    luma_alpha16_to_rgba8, luma_alpha8_to_rgba8, narrowed, rgb16_to_rgb8, rgba16_to_rgba8,
};
use crate::error::WebpError;

verus! {

/// The bit pattern of 0.75 as a 32-bit floating-point number: the quality
/// factor of an encoder that was given none.
pub const DEFAULT_QUALITY_BITS: u32 = 0x3f40_0000;

/// The largest row stride that the codec takes: it counts in signed 32-bit
/// integers.
pub const MAX_STRIDE: u32 = 0x7fff_ffff;

/// How to compress.
#[derive(Clone, Copy, Debug, PartialEq, Eq, Structural)]
pub enum Compression {
    /// Every pixel is kept as it is.
    Lossless,
    /// Pixels are approximated, the more closely the higher the quality.
    Lossy {
        /// The quality factor, a 32-bit floating-point number, as its bit
        /// pattern. It is handed to the codec as it is.
        quality_bits: u32,
    },
}

/// A call of one of the codec's lossy primitives, as a value.
pub struct LossyView {
    pub layout: WebpColor,
    pub pixels: Seq<u8>,
    pub width: u32,
    pub height: u32,
    pub stride: u32,
    pub quality_bits: u32,
}

/// What encoding comes to, as a value.
pub enum EncodedView {
    /// The encoded image.
    Bytes(Seq<u8>),
    /// The call that yields the encoded image.
    Pending(LossyView),
}

/// A buffer of `len` bytes is a `width` by `height` image in `layout` that
/// the codec can be asked to encode: it holds exactly the pixels of the
/// image, and the codec can count the bytes of a row.
pub open spec fn fits(layout: WebpColor, len: nat, width: u32, height: u32) -> bool {
    &&& len == width as nat * height as nat * layout.channels()
    &&& width * layout.channels() <= MAX_STRIDE
}

/// What the codec's lossless encoder for `layout` makes of `pixels`.
pub open spec fn lossless(
    layout: WebpColor,
    pixels: Seq<u8>,
    width: u32,
    height: u32,
    stride: u32,
) -> Option<Seq<u8>> {
    match layout {
        WebpColor::RGB => lossless_rgb(pixels, width, height, stride),
        WebpColor::RGBA => lossless_rgba(pixels, width, height, stride),
        WebpColor::BGR => lossless_bgr(pixels, width, height, stride),
        WebpColor::BGRA => lossless_bgra(pixels, width, height, stride),
    }
}

/// What an attempt of the codec to encode comes to: its bytes, or the failure
/// to encode.
pub open spec fn completion(outcome: Option<Seq<u8>>) -> Result<Seq<u8>, WebpError> {
    match outcome {
        Some(bytes) => Ok(bytes),
        None => Err(WebpError::Encoding),
    }
}

/// What encoding `pixels`, a `width` by `height` image in `layout`, comes
/// to. A buffer that does not fit is refused. For a buffer that fits, the
/// stride is that of unpadded rows; lossless compression yields what the
/// codec's lossless encoder for the layout makes of the buffer, lossy
/// compression the call of its lossy encoder for the layout.
pub open spec fn encoding(
    compression: Compression,
    layout: WebpColor,
    pixels: Seq<u8>,
    width: u32,
    height: u32,
) -> Result<EncodedView, WebpError> {
    if !fits(layout, pixels.len(), width, height) {
        Err(WebpError::Encoding)
    } else {
        let stride = (width * layout.channels()) as u32;
        match compression {
            Compression::Lossless => match completion(
                lossless(layout, pixels, width, height, stride),
            ) {
                Ok(bytes) => Ok(EncodedView::Bytes(bytes)),
                Err(e) => Err(e),
            },
            Compression::Lossy { quality_bits } => Ok(
                EncodedView::Pending(
                    LossyView { layout, pixels, width, height, stride, quality_bits },
                ),
            ),
        }
    }
}

/// The pixels of `image` in the layout in which it is encoded: its own
/// bytes where the codec takes its layout, else its conversion to RGB or
/// RGBA.
pub open spec fn rendered(image: ImageView) -> Seq<u8> {
    match image.color {
        ColorType::L8 => gray_as_rgb(image.bytes),
        ColorType::La8 => gray_alpha_as_rgba(image.bytes),
        ColorType::L16 => gray_as_rgb(narrowed(image.words)),
        ColorType::La16 => gray_alpha_as_rgba(narrowed(image.words)),
        ColorType::Rgb16 | ColorType::Rgba16 => narrowed(image.words),
        _ => image.bytes,
    }
}

/// What encoding a tagged image comes to. An image in a layout that the
/// codec takes is encoded as it is. Any other is converted first, to RGBA if
/// its pixels have alpha and to RGB if they have none; an image too large to
/// be converted on this machine is refused.
pub open spec fn image_encoding(compression: Compression, image: ImageView) -> Result<
    EncodedView,
    WebpError,
> {
    if image.color.native() is None && !holdable(image.width, image.height) {
        Err(WebpError::Encoding)
    } else {
        encoding(compression, image.color.target(), rendered(image), image.width, image.height)
    }
}

/// What encoding a raw buffer under an explicit tag comes to: the buffer is
/// encoded as it is where the codec takes the layout that the tag names, and
/// refused with the tag where it does not.
pub open spec fn raw_encoding(
    compression: Compression,
    pixels: Seq<u8>,
    width: u32,
    height: u32,
    color_type: ColorType,
) -> Result<EncodedView, WebpError> {
    match color_type.native() {
        Some(layout) => encoding(compression, layout, pixels, width, height),
        None => Err(WebpError::Unsupported(color_type)),
    }
}

/// A call of one of the codec's lossy primitives that is ready to be made:
/// the primitive is that for `layout`, its arguments are `pixels`, `width`,
/// `height`, `stride` and the quality factor whose bit pattern is
/// `quality_bits`. The buffer fits the size, so the call is in order.
#[derive(Debug)]
pub struct LossyCall {
    layout: WebpColor,
    pixels: Vec<u8>,
    width: u32,
    height: u32,
    stride: u32,
    quality_bits: u32,
}

impl View for LossyCall {
    type V = LossyView;

    closed spec fn view(&self) -> LossyView {
        LossyView {
            layout: self.layout,
            pixels: self.pixels@,
            width: self.width,
            height: self.height,
            stride: self.stride,
            quality_bits: self.quality_bits,
        }
    }
}

impl LossyView {
    /// The buffer fits the size, and the stride is that of unpadded rows.
    pub open spec fn valid(self) -> bool {
        &&& fits(self.layout, self.pixels.len(), self.width, self.height)
        &&& self.stride == self.width * self.layout.channels()
    }
}

impl LossyCall {
    /// The layout whose lossy primitive is to be called.
    pub fn layout(&self) -> (layout: WebpColor)
        ensures
            layout == self@.layout,
    {
        self.layout
    }

    /// The pixels to hand to the codec.
    pub fn pixels(&self) -> (pixels: &[u8])
        ensures
            pixels@ == self@.pixels,
    {
        self.pixels.as_slice()
    }

    /// Pixels per row.
    pub fn width(&self) -> (width: u32)
        ensures
            width == self@.width,
    {
        self.width
    }

    /// Number of rows.
    pub fn height(&self) -> (height: u32)
        ensures
            height == self@.height,
    {
        self.height
    }

    /// Bytes per row.
    pub fn stride(&self) -> (stride: u32)
        ensures
            stride == self@.stride,
    {
        self.stride
    }

    /// The bit pattern of the quality factor.
    pub fn quality_bits(&self) -> (quality_bits: u32)
        ensures
            quality_bits == self@.quality_bits,
    {
        self.quality_bits
    }

    /// Closes the call with what the codec returned: its bytes, or `None`
    /// where it failed.
    pub fn finish(self, outcome: Option<Vec<u8>>) -> (r: Result<Vec<u8>, WebpError>)
        ensures
            bytes_of(r) == completion(seq_of(outcome)),
    {
        completed(outcome)
    }
}

/// The encoded image, or the call that yields it.
#[derive(Debug)]
pub enum Encoded {
    /// The encoded image, to be written to the sink in full.
    Bytes(Vec<u8>),
    /// The call of the codec that the caller has to make. What it returns,
    /// handed to `LossyCall::finish`, gives the encoded image.
    Pending(LossyCall),
}

impl View for Encoded {
    type V = EncodedView;

    open spec fn view(&self) -> EncodedView {
        match self {
            Encoded::Bytes(bytes) => EncodedView::Bytes(bytes@),
            Encoded::Pending(call) => EncodedView::Pending(call@),
        }
    }
}

/// The value of a byte buffer that may be absent.
pub open spec fn seq_of(bytes: Option<Vec<u8>>) -> Option<Seq<u8>> {
    match bytes {
        Some(bytes) => Some(bytes@),
        None => None,
    }
}

/// The value of a byte buffer or a failure.
pub open spec fn bytes_of(r: Result<Vec<u8>, WebpError>) -> Result<Seq<u8>, WebpError> {
    match r {
        Ok(bytes) => Ok(bytes@),
        Err(e) => Err(e),
    }
}

/// The value of what encoding came to.
pub open spec fn encoded_of(r: Result<Encoded, WebpError>) -> Result<EncodedView, WebpError> {
    match r {
        Ok(encoded) => Ok(encoded@),
        Err(e) => Err(e),
    }
}

/// A pending call in what encoding came to is in order.
pub open spec fn in_order(r: Result<Encoded, WebpError>) -> bool {
    r matches Ok(Encoded::Pending(call)) ==> call@.valid()
}

/// What an attempt of the codec to encode comes to: its bytes, or the failure
/// to encode.
pub fn completed(outcome: Option<Vec<u8>>) -> (r: Result<Vec<u8>, WebpError>)
    ensures
        bytes_of(r) == completion(seq_of(outcome)),
{
    match outcome {
        Some(bytes) => Ok(bytes),
        None => Err(WebpError::Encoding),
    }
}

/// The encoder. It encodes one image and is used up by that.
#[derive(Debug)]
pub struct WebpEncoder {
    compression: Compression,
}

impl WebpEncoder {
    /// The encoder's compression mode.
    pub closed spec fn mode(&self) -> Compression {
        self.compression
    }

    /// An encoder with lossy compression at the quality factor 0.75.
    pub fn new() -> (encoder: WebpEncoder)
        ensures
            encoder.mode() == (Compression::Lossy { quality_bits: DEFAULT_QUALITY_BITS }),
    {
        WebpEncoder { compression: Compression::Lossy { quality_bits: DEFAULT_QUALITY_BITS } }
    }

    /// An encoder with lossy compression at the quality factor whose bit
    /// pattern is `quality_bits`. The factor is not looked at: the codec
    /// decides what to make of it.
    pub fn new_with_quality(quality_bits: u32) -> (encoder: WebpEncoder)
        ensures
            encoder.mode() == (Compression::Lossy { quality_bits }),
    {
        WebpEncoder { compression: Compression::Lossy { quality_bits } }
    }

    /// An encoder with the given compression.
    pub fn new_with_compression(compression: Compression) -> (encoder: WebpEncoder)
        ensures
            encoder.mode() == compression,
    {
        WebpEncoder { compression }
    }

    /// The encoder's compression mode.
    pub fn compression(&self) -> (compression: Compression)
        ensures
            compression == self.mode(),
    {
        self.compression
    }

    /// Encodes a tagged image. An image in RGB, RGBA, BGR or BGRA with 8-bit
    /// samples goes to the codec as it is; any other is converted first, to
    /// RGBA if its pixels have alpha and to RGB if they have none.
    pub fn encode(self, img: &DynamicImage) -> (r: Result<Encoded, WebpError>)
        requires
            img.wf(),
        ensures
            encoded_of(r) == image_encoding(self.mode(), img@),
            in_order(r),
    {
        let (width, height) = img.dimensions();
        match img.color().native_layout() {
            Some(layout) => self.encode_layout(layout, img.as_bytes(), width, height),
            None => {
                match render(img) {
                    Some(pixels) => self.encode_layout(
                        img.color().encode_target(),
                        pixels.as_slice(),
                        width,
                        height,
                    ),
                    None => Err(WebpError::Encoding),
                }
            },
        }
    }

    /// Encodes `buf`, the R, G, B samples of a `width` by `height` image. A
    /// buffer of any other length is refused.
    pub fn encode_rgb(self, buf: &[u8], width: u32, height: u32) -> (r: Result<Encoded, WebpError>)
        ensures
            encoded_of(r) == encoding(self.mode(), WebpColor::RGB, buf@, width, height),
            in_order(r),
            buf@.len() != width as nat * height as nat * 3 ==> r matches Err(
                WebpError::Encoding,
            ),
    {
        self.encode_layout(WebpColor::RGB, buf, width, height)
    }

    /// Encodes `buf`, the R, G, B, A samples of a `width` by `height` image.
    /// A buffer of any other length is refused.
    pub fn encode_rgba(self, buf: &[u8], width: u32, height: u32) -> (r: Result<
        Encoded,
        WebpError,
    >)
        ensures
            encoded_of(r) == encoding(self.mode(), WebpColor::RGBA, buf@, width, height),
            in_order(r),
            buf@.len() != width as nat * height as nat * 4 ==> r matches Err(
                WebpError::Encoding,
            ),
    {
        self.encode_layout(WebpColor::RGBA, buf, width, height)
    }

    /// Encodes `buf`, the B, G, R samples of a `width` by `height` image. A
    /// buffer of any other length is refused.
    pub fn encode_bgr(self, buf: &[u8], width: u32, height: u32) -> (r: Result<Encoded, WebpError>)
        ensures
            encoded_of(r) == encoding(self.mode(), WebpColor::BGR, buf@, width, height),
            in_order(r),
            buf@.len() != width as nat * height as nat * 3 ==> r matches Err(
                WebpError::Encoding,
            ),
    {
        self.encode_layout(WebpColor::BGR, buf, width, height)
    }

    /// Encodes `buf`, the B, G, R, A samples of a `width` by `height` image.
    /// A buffer of any other length is refused.
    pub fn encode_bgra(self, buf: &[u8], width: u32, height: u32) -> (r: Result<
        Encoded,
        WebpError,
    >)
        ensures
            encoded_of(r) == encoding(self.mode(), WebpColor::BGRA, buf@, width, height),
            in_order(r),
            buf@.len() != width as nat * height as nat * 4 ==> r matches Err(
                WebpError::Encoding,
            ),
    {
        self.encode_layout(WebpColor::BGRA, buf, width, height)
    }

    /// Encodes a raw buffer under an explicit tag. Nothing is converted here:
    /// a tag that names no layout of the codec is refused.
    pub fn write_image(self, buf: &[u8], width: u32, height: u32, color_type: ColorType) -> (r:
        Result<Encoded, WebpError>)
        ensures
            encoded_of(r) == raw_encoding(self.mode(), buf@, width, height, color_type),
            in_order(r),
    {
        match color_type {
            ColorType::Rgb8 => self.encode_rgb(buf, width, height),
            ColorType::Rgba8 => self.encode_rgba(buf, width, height),
            ColorType::Bgr8 => self.encode_bgr(buf, width, height),
            ColorType::Bgra8 => self.encode_bgra(buf, width, height),
            _ => Err(WebpError::Unsupported(color_type)),
        }
    }

    /// Encodes `pixels` with the codec's primitive for `layout`.
    fn encode_layout(self, layout: WebpColor, pixels: &[u8], width: u32, height: u32) -> (r:
        Result<Encoded, WebpError>)
        ensures
            encoded_of(r) == encoding(self.mode(), layout, pixels@, width, height),
            in_order(r),
    {
        let channels = layout.channel_count();
        let stride = match width.checked_mul(channels) {
            Some(stride) => stride,
            None => {
                return Err(WebpError::Encoding);
            },
        };
        if stride > MAX_STRIDE || !holds_exactly(pixels.len(), width, height, channels) {
            return Err(WebpError::Encoding);
        }
        match self.compression {
            Compression::Lossless => {
                let outcome = match layout {
                    WebpColor::RGB => libwebp::WebPEncodeLosslessRGB(
                        pixels,
                        width,
                        height,
                        stride,
                    ),
                    WebpColor::RGBA => libwebp::WebPEncodeLosslessRGBA(
                        pixels,
                        width,
                        height,
                        stride,
                    ),
                    WebpColor::BGR => libwebp::WebPEncodeLosslessBGR(
                        pixels,
                        width,
                        height,
                        stride,
                    ),
                    WebpColor::BGRA => libwebp::WebPEncodeLosslessBGRA(
                        pixels,
                        width,
                        height,
                        stride,
                    ),
                };
                let bytes = match outcome {
                    Ok(native) => Some(slice_to_vec(native_slice(&native))),
                    Err(_) => None,
                };
                match completed(bytes) {
                    Ok(bytes) => Ok(Encoded::Bytes(bytes)),
                    Err(e) => Err(e),
                }
            },
            Compression::Lossy { quality_bits } => Ok(
                Encoded::Pending(
                    LossyCall {
                        layout,
                        pixels: slice_to_vec(pixels),
                        width,
                        height,
                        stride,
                        quality_bits,
                    },
                ),
            ),
        }
    }
}

/// Whether the `image` crate can hold a `width` by `height` image of four
/// samples to the pixel on this machine.
fn can_hold(width: u32, height: u32) -> (b: bool)
    ensures
        b == holdable(width, height),
{
    assert(width as u128 * height as u128 * 4 <= u128::MAX) by (nonlinear_arith)
        requires
            width <= u32::MAX,
            height <= u32::MAX,
    ;
    width as u128 * 4 <= usize::MAX as u128 && width as u128 * height as u128 * 4
        <= usize::MAX as u128
}

/// Converts an image whose layout the codec does not take to RGB or RGBA.
/// `None` if the image is too large to be converted on this machine.
fn render(img: &DynamicImage) -> (r: Option<Vec<u8>>)
    requires
        img.wf(),
        img@.color.native() is None,
    ensures
        r is Some <==> holdable(img@.width, img@.height),
        r matches Some(pixels) ==> pixels@ == rendered(img@),
{
    let (width, height) = img.dimensions();
    if !can_hold(width, height) {
        return None;
    }
    let pixels = match img.color() {
        ColorType::L8 => luma8_to_rgb8(width, height, img.as_bytes()),
        ColorType::La8 => luma_alpha8_to_rgba8(width, height, img.as_bytes()),
        ColorType::L16 => luma16_to_rgb8(width, height, img.as_words()),
        ColorType::La16 => luma_alpha16_to_rgba8(width, height, img.as_words()),
        ColorType::Rgb16 => rgb16_to_rgb8(width, height, img.as_words()),
        ColorType::Rgba16 => rgba16_to_rgba8(width, height, img.as_words()),
        _ => unreached(),
    };
    Some(pixels)
}

/// A buffer whose length is not that of the image is refused, whatever the
/// layout and the compression.
pub proof fn lemma_wrong_length_is_refused(
    compression: Compression,
    layout: WebpColor,
    pixels: Seq<u8>,
    width: u32,
    height: u32,
)
    requires
        pixels.len() != width as nat * height as nat * layout.channels(),
    ensures
        encoding(compression, layout, pixels, width, height) == Err::<EncodedView, WebpError>(
            WebpError::Encoding,
        ),
{
}

/// The pixels in which a valid tagged image is encoded are exactly those of an
/// image of its size in the layout chosen for it: no conversion makes a
/// buffer of the wrong length.
pub proof fn lemma_rendered_holds_the_image(image: ImageView)
    requires
        image.valid(),
    ensures
        rendered(image).len() == image.width as nat * image.height as nat
            * image.color.target().channels(),
{
    let pixels = image.width as nat * image.height as nat;
    assert(2 * (pixels * 2) == pixels * 4 && 3 * (pixels * 1) == pixels * 3);
}

/// A tagged image is encoded in a layout that keeps alpha exactly where the
/// image has it; where the codec takes the image's layout, that layout is the
/// one, and the pixels go to the codec unchanged.
pub proof fn lemma_encoding_keeps_alpha(compression: Compression, image: ImageView)
    ensures
        image.color.target().channels() == (if image.color.alpha() {
            4nat
        } else {
            3nat
        }),
        image.color.native() matches Some(layout) ==> image_encoding(compression, image)
            == encoding(compression, layout, image.bytes, image.width, image.height),
{
}

} // verus!
