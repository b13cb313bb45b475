//! Pixel buffers tagged with their layout.

use vstd::prelude::*;
use crate::color::ColorType;
use crate::frame::{DecodedImage, DecodedView};

verus! {

/// A tagged pixel buffer as a value. Samples of 8 bits are in `bytes`,
/// samples of 16 bits in `words`; the other of the two is empty.
pub struct ImageView {
    pub color: ColorType,
    pub width: u32,
    pub height: u32,
    pub bytes: Seq<u8>,
    pub words: Seq<u16>,
}

impl ImageView {
    /// The number of samples of an image of this size and tag.
    pub open spec fn sample_count(self) -> nat {
        self.width as nat * self.height as nat * self.color.samples()
    }

    /// The buffer holds exactly the samples of the image, in the width that
    /// the tag says. No buffer holds floating-point samples.
    pub open spec fn valid(self) -> bool {
        if self.color.depth() == 8 {
            self.bytes.len() == self.sample_count() && self.words.len() == 0
        } else if self.color.depth() == 16 {
            self.words.len() == self.sample_count() && self.bytes.len() == 0
        } else {
            false
        }
    }
}

/// A decoded image as a tagged pixel buffer: the same size and samples, under
/// the tag of its layout.
pub open spec fn tagged(decoded: DecodedView) -> ImageView {
    ImageView {
        color: decoded.layout.tag(),
        width: decoded.width,
        height: decoded.height,
        bytes: decoded.pixels,
        words: Seq::empty(),
    }
}

/// An image in any layout with 8-bit or 16-bit samples, tagged with that
/// layout.
#[derive(Debug)]
pub struct DynamicImage {
    color: ColorType,
    width: u32,
    height: u32,
    bytes: Vec<u8>,
    words: Vec<u16>,
}

impl View for DynamicImage {
    type V = ImageView;

    closed spec fn view(&self) -> ImageView {
        ImageView {
            color: self.color,
            width: self.width,
            height: self.height,
            bytes: self.bytes@,
            words: self.words@,
        }
    }
}

/// Whether `len` samples are exactly those of a `width` by `height` image
/// with `samples` of them to the pixel.
pub(crate) fn holds_exactly(len: usize, width: u32, height: u32, samples: u32) -> (b: bool)
    ensures
        b == (len == width as nat * height as nat * samples as nat),
{
    assert(width as u128 * height as u128 * samples as u128 <= u128::MAX) by (nonlinear_arith)
        requires
            width <= u32::MAX,
            height <= u32::MAX,
            samples <= u32::MAX,
    ;
    assert(width as u128 * height as u128 <= u128::MAX) by (nonlinear_arith)
        requires
            width <= u32::MAX,
            height <= u32::MAX,
    ;
    len as u128 == width as u128 * height as u128 * samples as u128
}

impl DynamicImage {
    /// The buffer fits the size and the tag.
    pub open spec fn wf(&self) -> bool {
        self@.valid()
    }

    /// An image with 8-bit samples. `None` unless the tag is one of 8-bit
    /// samples and `bytes` holds exactly `width * height` pixels.
    pub fn from_bytes(color: ColorType, width: u32, height: u32, bytes: Vec<u8>) -> (r: Option<
        DynamicImage,
    >)
        ensures
            r is Some <==> color.depth() == 8 && bytes@.len() == width as nat * height as nat
                * color.samples(),
            r matches Some(image) ==> image.wf() && image@ == (ImageView {
                color,
                width,
                height,
                bytes: bytes@,
                words: Seq::empty(),
            }),
    {
        if color.bits_per_sample() == 8 && holds_exactly(
            bytes.len(),
            width,
            height,
            color.channel_count() as u32,
        ) {
            Some(DynamicImage { color, width, height, bytes, words: Vec::new() })
        } else {
            None
        }
    }

    /// An image with 16-bit samples. `None` unless the tag is one of 16-bit
    /// samples and `words` holds exactly `width * height` pixels.
    pub fn from_words(color: ColorType, width: u32, height: u32, words: Vec<u16>) -> (r: Option<
        DynamicImage,
    >)
        ensures
            r is Some <==> color.depth() == 16 && words@.len() == width as nat * height as nat
                * color.samples(),
            r matches Some(image) ==> image.wf() && image@ == (ImageView {
                color,
                width,
                height,
                bytes: Seq::empty(),
                words: words@,
            }),
    {
        if color.bits_per_sample() == 16 && holds_exactly(
            words.len(),
            width,
            height,
            color.channel_count() as u32,
        ) {
            Some(DynamicImage { color, width, height, bytes: Vec::new(), words })
        } else {
            None
        }
    }

    /// A copy of a decoded image, tagged with its layout.
    pub fn from_decoded(decoded: &DecodedImage) -> (image: DynamicImage)
        requires
            decoded.wf(),
        ensures
            image.wf(),
            image@ == tagged(decoded@),
    {
        let color = decoded.layout().color_type();
        let width = decoded.width();
        let height = decoded.height();
        assert(decoded@.pixels.len() == width as nat * height as nat * color.samples())
            by (nonlinear_arith)
            requires
                decoded@.pixels.len() == decoded@.stride * height,
                decoded@.stride == width * color.samples(),
        ;
        DynamicImage::from_bytes(color, width, height, decoded.to_vec()).unwrap()
    }

    /// The tag.
    pub fn color(&self) -> (color: ColorType)
        ensures
            color == self@.color,
    {
        self.color
    }

    /// Pixels per row.
    pub fn width(&self) -> (width: u32)
        ensures
            width == self@.width,
    {
        self.width
    }

    /// Number of rows.
    pub fn height(&self) -> (height: u32)
        ensures
            height == self@.height,
    {
        self.height
    }

    /// Width and height.
    pub fn dimensions(&self) -> (d: (u32, u32))
        ensures
            d == (self@.width, self@.height),
    {
        (self.width, self.height)
    }

    /// The samples of an image with 8-bit samples; empty for any other.
    pub fn as_bytes(&self) -> (bytes: &[u8])
        ensures
            bytes@ == self@.bytes,
    {
        self.bytes.as_slice()
    }

    /// The samples of an image with 16-bit samples; empty for any other.
    pub fn as_words(&self) -> (words: &[u16])
        ensures
            words@ == self@.words,
    {
        self.words.as_slice()
    }
}

} // verus!
