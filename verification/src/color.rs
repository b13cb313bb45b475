//! Pixel layouts: the four that the codec handles natively, and the tags
//! under which a pixel buffer may arrive.

use vstd::prelude::*;

verus! {

/// A pixel layout that the codec reads and writes without conversion.
/// All four have 8-bit samples.
#[allow(clippy::upper_case_acronyms)]
#[derive(Clone, Copy, Debug, PartialEq, Eq, Structural)]
pub enum WebpColor {
    /// Red, green, blue.
    RGB,
    /// Red, green, blue, alpha.
    RGBA,
    /// Blue, green, red.
    BGR,
    /// Blue, green, red, alpha.
    BGRA,
}

impl WebpColor {
    /// Bytes per pixel: 3 without alpha, 4 with it.
    pub open spec fn channels(self) -> nat {
        match self {
            WebpColor::RGB | WebpColor::BGR => 3,
            WebpColor::RGBA | WebpColor::BGRA => 4,
        }
    }

    /// The tag under which a buffer in this layout is known.
    pub open spec fn tag(self) -> ColorType {
        match self {
            WebpColor::RGB => ColorType::Rgb8,
            WebpColor::RGBA => ColorType::Rgba8,
            WebpColor::BGR => ColorType::Bgr8,
            WebpColor::BGRA => ColorType::Bgra8,
        }
    }

    /// Bytes per pixel.
    pub fn channel_count(self) -> (n: u32)
        ensures
            n == self.channels(),
    {
        match self {
            WebpColor::RGB | WebpColor::BGR => 3,
            WebpColor::RGBA | WebpColor::BGRA => 4,
        }
    }

    /// The tag under which a buffer in this layout is known.
    pub fn color_type(self) -> (c: ColorType)
        ensures
            c == self.tag(),
            c.native() == Some(self),
    {
        match self {
            WebpColor::RGB => ColorType::Rgb8,
            WebpColor::RGBA => ColorType::Rgba8,
            WebpColor::BGR => ColorType::Bgr8,
            WebpColor::BGRA => ColorType::Bgra8,
        }
    }
}

/// The tag of a pixel buffer: which channels a pixel has and how wide a
/// sample is.
#[derive(Clone, Copy, Debug, PartialEq, Eq, Structural)]
pub enum ColorType {
    /// 8-bit luminance.
    L8,
    /// 8-bit luminance and alpha.
    La8,
    /// 8-bit red, green, blue.
    Rgb8,
    /// 8-bit red, green, blue, alpha.
    Rgba8,
    /// 16-bit luminance.
    L16,
    /// 16-bit luminance and alpha.
    La16,
    /// 16-bit red, green, blue.
    Rgb16,
    /// 16-bit red, green, blue, alpha.
    Rgba16,
    /// 32-bit floating-point red, green, blue.
    Rgb32F,
    /// 32-bit floating-point red, green, blue, alpha.
    Rgba32F,
    /// 8-bit blue, green, red.
    Bgr8,
    /// 8-bit blue, green, red, alpha.
    Bgra8,
}

impl ColorType {
    /// Whether a pixel carries an alpha sample.
    pub open spec fn alpha(self) -> bool {
        match self {
            ColorType::La8
            | ColorType::Rgba8
            | ColorType::La16
            | ColorType::Rgba16
            | ColorType::Rgba32F
            | ColorType::Bgra8 => true,
            _ => false,
        }
    }

    /// Samples per pixel.
    pub open spec fn samples(self) -> nat {
        match self {
            ColorType::L8 | ColorType::L16 => 1,
            ColorType::La8 | ColorType::La16 => 2,
            ColorType::Rgb8 | ColorType::Rgb16 | ColorType::Rgb32F | ColorType::Bgr8 => 3,
            ColorType::Rgba8 | ColorType::Rgba16 | ColorType::Rgba32F | ColorType::Bgra8 => 4,
        }
    }

    /// Bits per sample.
    pub open spec fn depth(self) -> nat {
        match self {
            ColorType::L16 | ColorType::La16 | ColorType::Rgb16 | ColorType::Rgba16 => 16,
            ColorType::Rgb32F | ColorType::Rgba32F => 32,
            _ => 8,
        }
    }

    /// The native layout that this tag names, if it names one.
    pub open spec fn native(self) -> Option<WebpColor> {
        match self {
            ColorType::Rgb8 => Some(WebpColor::RGB),
            ColorType::Rgba8 => Some(WebpColor::RGBA),
            ColorType::Bgr8 => Some(WebpColor::BGR),
            ColorType::Bgra8 => Some(WebpColor::BGRA),
            _ => None,
        }
    }

    /// The native layout into which a buffer with this tag is encoded: its own
    /// where the tag names one, else RGBA where a pixel has alpha and RGB where
    /// it has none.
    pub open spec fn target(self) -> WebpColor {
        match self.native() {
            Some(layout) => layout,
            None => if self.alpha() {
                WebpColor::RGBA
            } else {
                WebpColor::RGB
            },
        }
    }

    /// Whether a pixel carries an alpha sample.
    pub fn has_alpha(self) -> (b: bool)
        ensures
            b == self.alpha(),
    {
        match self {
            ColorType::La8
            | ColorType::Rgba8
            | ColorType::La16
            | ColorType::Rgba16
            | ColorType::Rgba32F
            | ColorType::Bgra8 => true,
            _ => false,
        }
    }

    /// Samples per pixel.
    pub fn channel_count(self) -> (n: u8)
        ensures
            n == self.samples(),
    {
        match self {
            ColorType::L8 | ColorType::L16 => 1,
            ColorType::La8 | ColorType::La16 => 2,
            ColorType::Rgb8 | ColorType::Rgb16 | ColorType::Rgb32F | ColorType::Bgr8 => 3,
            ColorType::Rgba8 | ColorType::Rgba16 | ColorType::Rgba32F | ColorType::Bgra8 => 4,
        }
    }

    /// Bits per sample.
    pub fn bits_per_sample(self) -> (n: u8)
        ensures
            n == self.depth(),
    {
        match self {
            ColorType::L16 | ColorType::La16 | ColorType::Rgb16 | ColorType::Rgba16 => 16,
            ColorType::Rgb32F | ColorType::Rgba32F => 32,
            _ => 8,
        }
    }

    /// The native layout that this tag names, if it names one.
    pub fn native_layout(self) -> (r: Option<WebpColor>)
        ensures
            r == self.native(),
    {
        match self {
            ColorType::Rgb8 => Some(WebpColor::RGB),
            ColorType::Rgba8 => Some(WebpColor::RGBA),
            ColorType::Bgr8 => Some(WebpColor::BGR),
            ColorType::Bgra8 => Some(WebpColor::BGRA),
            _ => None,
        }
    }

    /// The native layout into which a buffer with this tag is encoded.
    pub fn encode_target(self) -> (layout: WebpColor)
        ensures
            layout == self.target(),
    {
        match self.native_layout() {
            Some(layout) => layout,
            None => if self.has_alpha() {
                WebpColor::RGBA
            } else {
                WebpColor::RGB
            },
        }
    }
}

/// The alpha test agrees with the native layouts: a tag that names a layout
/// has alpha exactly when that layout has four channels, and the layout chosen
/// for encoding keeps or drops alpha as the tag does.
pub proof fn lemma_target_keeps_alpha(c: ColorType)
    ensures
        c.target().channels() == (if c.alpha() { 4nat } else { 3nat }),
        c.native() matches Some(layout) ==> layout.tag() == c,
{
}

} // verus!
