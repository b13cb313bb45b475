//! Conversion of pixel buffers in other layouts to 8-bit RGB and RGBA. The
//! conversions are those of the `image` crate; the functions of this file
//! call them and state, without proof, what they compute.

use vstd::prelude::*;

verus! {

/// A 16-bit sample as an 8-bit one: `sample * 255 / 65535`, rounded.
pub open spec fn narrow(sample: u16) -> u8 {
    ((sample + 128) / 257) as u8
}

/// Every sample of `samples` as an 8-bit one.
pub open spec fn narrowed(samples: Seq<u16>) -> Seq<u8> {
    Seq::new(samples.len(), |i: int| narrow(samples[i]))
}

/// Gray pixels as RGB pixels: each sample three times.
pub open spec fn gray_as_rgb(gray: Seq<u8>) -> Seq<u8> {
    Seq::new(3 * gray.len(), |i: int| gray[i / 3])
}

/// Pixels of gray and alpha as RGBA pixels: the gray sample three times, then
/// the alpha sample.
pub open spec fn gray_alpha_as_rgba(pairs: Seq<u8>) -> Seq<u8> {
    Seq::new(
        2 * pairs.len(),
        |i: int|
            if i % 4 == 3 {
                pairs[2 * (i / 4) + 1]
            } else {
                pairs[2 * (i / 4)]
            },
    )
}

/// The `image` crate can hold a `width` by `height` image of four samples to
/// the pixel: the samples of a row, and those of the image, can be counted in
/// a `usize`.
pub open spec fn holdable(width: u32, height: u32) -> bool {
    width * 4 <= usize::MAX && width * height * 4 <= usize::MAX
}

/// `image::DynamicImage::to_rgb8` on an image of 8-bit luminance: every
/// pixel becomes an RGB pixel with its sample in all three channels. The
/// call panics unless the buffer holds the image and the sizes of the image
/// and of the result can be counted; so do the five calls below.
#[verifier::external_body]
pub(crate) fn luma8_to_rgb8(width: u32, height: u32, samples: &[u8]) -> (rgb: Vec<u8>)
    requires
        samples@.len() == width * height,
        holdable(width, height),
    ensures
        rgb@ == gray_as_rgb(samples@),
{
    let gray = image::GrayImage::from_raw(width, height, samples.to_vec()).unwrap();
    image::DynamicImage::ImageLuma8(gray).to_rgb8().into_raw()
}

/// `image::DynamicImage::to_rgba8` on an image of 8-bit luminance and
/// alpha: every pixel becomes an RGBA pixel with its luminance in the three
/// colour channels and its alpha kept.
#[verifier::external_body]
pub(crate) fn luma_alpha8_to_rgba8(width: u32, height: u32, samples: &[u8]) -> (rgba: Vec<u8>)
    requires
        samples@.len() == width * height * 2,
        holdable(width, height),
    ensures
        rgba@ == gray_alpha_as_rgba(samples@),
{
    let gray = image::GrayAlphaImage::from_raw(width, height, samples.to_vec()).unwrap();
    image::DynamicImage::ImageLumaA8(gray).to_rgba8().into_raw()
}

/// `image::DynamicImage::to_rgb8` on an image of 16-bit luminance: every
/// sample is narrowed to 8 bits and then stands in all three channels.
#[verifier::external_body]
pub(crate) fn luma16_to_rgb8(width: u32, height: u32, samples: &[u16]) -> (rgb: Vec<u8>)
    requires
        samples@.len() == width * height,
        holdable(width, height),
    ensures
        rgb@ == gray_as_rgb(narrowed(samples@)),
{
    let gray = image::ImageBuffer::from_raw(width, height, samples.to_vec()).unwrap();
    image::DynamicImage::ImageLuma16(gray).to_rgb8().into_raw()
}

/// `image::DynamicImage::to_rgba8` on an image of 16-bit luminance and
/// alpha: both samples are narrowed to 8 bits; the luminance then stands in
/// the three colour channels.
#[verifier::external_body]
pub(crate) fn luma_alpha16_to_rgba8(width: u32, height: u32, samples: &[u16]) -> (rgba: Vec<u8>)
    requires
        samples@.len() == width * height * 2,
        holdable(width, height),
    ensures
        rgba@ == gray_alpha_as_rgba(narrowed(samples@)),
{
    let gray = image::ImageBuffer::from_raw(width, height, samples.to_vec()).unwrap();
    image::DynamicImage::ImageLumaA16(gray).to_rgba8().into_raw()
}

/// `image::DynamicImage::to_rgb8` on an image of 16-bit RGB: every sample
/// is narrowed to 8 bits.
#[verifier::external_body]
pub(crate) fn rgb16_to_rgb8(width: u32, height: u32, samples: &[u16]) -> (rgb: Vec<u8>)
    requires
        samples@.len() == width * height * 3,
        holdable(width, height),
    ensures
        rgb@ == narrowed(samples@),
{
    let wide = image::ImageBuffer::from_raw(width, height, samples.to_vec()).unwrap();
    image::DynamicImage::ImageRgb16(wide).to_rgb8().into_raw()
}

/// `image::DynamicImage::to_rgba8` on an image of 16-bit RGBA: every
/// sample, alpha too, is narrowed to 8 bits.
#[verifier::external_body]
pub(crate) fn rgba16_to_rgba8(width: u32, height: u32, samples: &[u16]) -> (rgba: Vec<u8>)
    requires
        samples@.len() == width * height * 4,
        holdable(width, height),
    ensures
        rgba@ == narrowed(samples@),
{
    let wide = image::ImageBuffer::from_raw(width, height, samples.to_vec()).unwrap();
    image::DynamicImage::ImageRgba16(wide).to_rgba8().into_raw()
}

} // verus!
