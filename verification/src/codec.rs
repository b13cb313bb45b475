//! The codec, as this library sees it. Nothing in this file is proved: each
//! item states, of a function or type of the `libwebp` crate, what the rest of
//! the library relies on.

use vstd::prelude::*;
use libwebp::boxed::WebpBox;
use libwebp::error::WebPSimpleError;

verus! {

/// `libwebp::boxed::WebpBox`: a buffer that the codec allocated and that is
/// handed back to the codec when dropped. Nothing is known of its inside; the
/// bytes of a `WebpBox<[u8]>` go by the name `native_bytes`.
#[verifier::external_type_specification]
#[verifier::external_body]
#[verifier::reject_recursive_types(T)]
pub struct ExWebpBox<T: ?Sized>(WebpBox<T>);

/// `libwebp::error::WebPSimpleError`: the codec's failure, which carries no
/// information.
#[verifier::external_type_specification]
#[verifier::external_body]
pub struct ExWebPSimpleError(WebPSimpleError);

/// The bytes that a codec-owned buffer holds.
pub uninterp spec fn native_bytes(b: WebpBox<[u8]>) -> Seq<u8>;

/// The width and height that `libwebp::WebPGetInfo` reads from the start of
/// `data`, or `None` where it recognises no header there.
pub uninterp spec fn header_dimensions(data: Seq<u8>) -> Option<(u32, u32)>;

/// The width, height and R, G, B samples that `libwebp::WebPDecodeRGB` makes
/// of `data`, or `None` where it fails.
pub uninterp spec fn decoded_rgb(data: Seq<u8>) -> Option<(u32, u32, Seq<u8>)>;

/// The width, height and R, G, B, A samples that `libwebp::WebPDecodeRGBA`
/// makes of `data`, or `None` where it fails.
pub uninterp spec fn decoded_rgba(data: Seq<u8>) -> Option<(u32, u32, Seq<u8>)>;

/// The width, height and B, G, R samples that `libwebp::WebPDecodeBGR` makes
/// of `data`, or `None` where it fails.
pub uninterp spec fn decoded_bgr(data: Seq<u8>) -> Option<(u32, u32, Seq<u8>)>;

/// The width, height and B, G, R, A samples that `libwebp::WebPDecodeBGRA`
/// makes of `data`, or `None` where it fails.
pub uninterp spec fn decoded_bgra(data: Seq<u8>) -> Option<(u32, u32, Seq<u8>)>;

/// The bytes that `libwebp::WebPEncodeLosslessRGB` produces, or `None` where
/// it fails.
pub uninterp spec fn lossless_rgb(pixels: Seq<u8>, width: u32, height: u32, stride: u32) -> Option<
    Seq<u8>,
>;

/// The bytes that `libwebp::WebPEncodeLosslessRGBA` produces, or `None` where
/// it fails.
pub uninterp spec fn lossless_rgba(pixels: Seq<u8>, width: u32, height: u32, stride: u32) -> Option<
    Seq<u8>,
>;

/// The bytes that `libwebp::WebPEncodeLosslessBGR` produces, or `None` where
/// it fails.
pub uninterp spec fn lossless_bgr(pixels: Seq<u8>, width: u32, height: u32, stride: u32) -> Option<
    Seq<u8>,
>;

/// The bytes that `libwebp::WebPEncodeLosslessBGRA` produces, or `None` where
/// it fails.
pub uninterp spec fn lossless_bgra(pixels: Seq<u8>, width: u32, height: u32, stride: u32) -> Option<
    Seq<u8>,
>;

/// `libwebp::WebPGetInfo` looks for a header at the start of `data`. It
/// reads nothing but `data`, so what it returns depends on the bytes alone:
/// the dimensions, or the failure to recognise a header.
pub assume_specification[ libwebp::WebPGetInfo ](data: &[u8]) -> (r: Result<
    (u32, u32),
    WebPSimpleError,
>)
    ensures
        header_dimensions(data@) == (match r {
            Ok(d) => Some(d),
            Err(_) => None,
        }),
;

/// `libwebp::WebPDecodeRGB` decodes `data` to R, G, B samples. It reads
/// nothing but `data`, so what it returns depends on the bytes alone. The
/// buffer that it returns on success has three bytes for each of the
/// `width * height` pixels.
pub assume_specification[ libwebp::WebPDecodeRGB ](data: &[u8]) -> (r: Result<
    (u32, u32, WebpBox<[u8]>),
    WebPSimpleError,
>)
    ensures
        decoded_rgb(data@) == (match r {
            Ok((w, h, b)) => Some((w, h, native_bytes(b))),
            Err(_) => None,
        }),
        r matches Ok((w, h, b)) ==> native_bytes(b).len() == w * h * 3,
;

/// `libwebp::WebPDecodeRGBA` decodes `data` to R, G, B, A samples. What it
/// returns depends on the bytes alone. The buffer that it returns on success
/// has four bytes for each of the `width * height` pixels.
pub assume_specification[ libwebp::WebPDecodeRGBA ](data: &[u8]) -> (r: Result<
    (u32, u32, WebpBox<[u8]>),
    WebPSimpleError,
>)
    ensures
        decoded_rgba(data@) == (match r {
            Ok((w, h, b)) => Some((w, h, native_bytes(b))),
            Err(_) => None,
        }),
        r matches Ok((w, h, b)) ==> native_bytes(b).len() == w * h * 4,
;

/// `libwebp::WebPDecodeBGR` decodes `data` to B, G, R samples. What it
/// returns depends on the bytes alone. The buffer that it returns on success
/// has three bytes for each of the `width * height` pixels.
pub assume_specification[ libwebp::WebPDecodeBGR ](data: &[u8]) -> (r: Result<
    (u32, u32, WebpBox<[u8]>),
    WebPSimpleError,
>)
    ensures
        decoded_bgr(data@) == (match r {
            Ok((w, h, b)) => Some((w, h, native_bytes(b))),
            Err(_) => None,
        }),
        r matches Ok((w, h, b)) ==> native_bytes(b).len() == w * h * 3,
;

/// `libwebp::WebPDecodeBGRA` decodes `data` to B, G, R, A samples. What it
/// returns depends on the bytes alone. The buffer that it returns on success
/// has four bytes for each of the `width * height` pixels.
pub assume_specification[ libwebp::WebPDecodeBGRA ](data: &[u8]) -> (r: Result<
    (u32, u32, WebpBox<[u8]>),
    WebPSimpleError,
>)
    ensures
        decoded_bgra(data@) == (match r {
            Ok((w, h, b)) => Some((w, h, native_bytes(b))),
            Err(_) => None,
        }),
        r matches Ok((w, h, b)) ==> native_bytes(b).len() == w * h * 4,
;

/// `libwebp::WebPEncodeLosslessRGB` encodes R, G, B samples without loss.
/// It panics unless the buffer holds exactly `width * height` pixels, and it
/// has the codec read `height` rows that lie `stride` bytes apart, counted in
/// signed 32-bit integers: the call is to be made on unpadded rows short
/// enough to be so counted. What it returns depends on the arguments alone:
/// the encoded image, or the failure to encode.
pub assume_specification[ libwebp::WebPEncodeLosslessRGB ](
    rgb: &[u8],
    width: u32,
    height: u32,
    stride: u32,
) -> (r: Result<WebpBox<[u8]>, WebPSimpleError>)
    requires
        rgb@.len() == width * height * 3,
        stride == width * 3,
        stride <= 0x7fff_ffff,
    ensures
        lossless_rgb(rgb@, width, height, stride) == (match r {
            Ok(b) => Some(native_bytes(b)),
            Err(_) => None,
        }),
;

/// `libwebp::WebPEncodeLosslessRGBA` encodes R, G, B, A samples without
/// loss. The call is to be made as that of `WebPEncodeLosslessRGB`, with four
/// bytes to the pixel; what it returns depends on the arguments alone.
pub assume_specification[ libwebp::WebPEncodeLosslessRGBA ](
    rgba: &[u8],
    width: u32,
    height: u32,
    stride: u32,
) -> (r: Result<WebpBox<[u8]>, WebPSimpleError>)
    requires
        rgba@.len() == width * height * 4,
        stride == width * 4,
        stride <= 0x7fff_ffff,
    ensures
        lossless_rgba(rgba@, width, height, stride) == (match r {
            Ok(b) => Some(native_bytes(b)),
            Err(_) => None,
        }),
;

/// `libwebp::WebPEncodeLosslessBGR` encodes B, G, R samples without loss.
/// The call is to be made as that of `WebPEncodeLosslessRGB`; what it returns
/// depends on the arguments alone.
pub assume_specification[ libwebp::WebPEncodeLosslessBGR ](
    bgr: &[u8],
    width: u32,
    height: u32,
    stride: u32,
) -> (r: Result<WebpBox<[u8]>, WebPSimpleError>)
    requires
        bgr@.len() == width * height * 3,
        stride == width * 3,
        stride <= 0x7fff_ffff,
    ensures
        lossless_bgr(bgr@, width, height, stride) == (match r {
            Ok(b) => Some(native_bytes(b)),
            Err(_) => None,
        }),
;

/// `libwebp::WebPEncodeLosslessBGRA` encodes B, G, R, A samples without
/// loss. The call is to be made as that of `WebPEncodeLosslessRGBA`; what it
/// returns depends on the arguments alone.
pub assume_specification[ libwebp::WebPEncodeLosslessBGRA ](
    bgra: &[u8],
    width: u32,
    height: u32,
    stride: u32,
) -> (r: Result<WebpBox<[u8]>, WebPSimpleError>)
    requires
        bgra@.len() == width * height * 4,
        stride == width * 4,
        stride <= 0x7fff_ffff,
    ensures
        lossless_bgra(bgra@, width, height, stride) == (match r {
            Ok(b) => Some(native_bytes(b)),
            Err(_) => None,
        }),
;

/// `Deref::deref` of `WebpBox<[u8]>`: the bytes of a codec-owned buffer,
/// borrowed for as long as the buffer is.
#[verifier::external_body]
pub(crate) fn native_slice(b: &WebpBox<[u8]>) -> (s: &[u8])
    ensures
        s@ == native_bytes(*b),
{
    core::ops::Deref::deref(b)
}

} // verus!
