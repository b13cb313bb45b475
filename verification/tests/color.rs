use libwebp_image::{ColorType, WebpColor, WebpError};

const TAGS: [ColorType; 12] = [
    ColorType::L8,
    ColorType::La8,
    ColorType::Rgb8,
    ColorType::Rgba8,
    ColorType::L16,
    ColorType::La16,
    ColorType::Rgb16,
    ColorType::Rgba16,
    ColorType::Rgb32F,
    ColorType::Rgba32F,
    ColorType::Bgr8,
    ColorType::Bgra8,
];

#[test]
fn native_layouts_have_three_or_four_channels() {
    assert_eq!(WebpColor::RGB.channel_count(), 3);
    assert_eq!(WebpColor::BGR.channel_count(), 3);
    assert_eq!(WebpColor::RGBA.channel_count(), 4);
    assert_eq!(WebpColor::BGRA.channel_count(), 4);
}

#[test]
fn native_layouts_have_their_tags() {
    assert_eq!(WebpColor::RGB.color_type(), ColorType::Rgb8);
    assert_eq!(WebpColor::RGBA.color_type(), ColorType::Rgba8);
    assert_eq!(WebpColor::BGR.color_type(), ColorType::Bgr8);
    assert_eq!(WebpColor::BGRA.color_type(), ColorType::Bgra8);
    for layout in [WebpColor::RGB, WebpColor::RGBA, WebpColor::BGR, WebpColor::BGRA] {
        assert_eq!(layout.color_type().native_layout(), Some(layout));
        assert_eq!(layout.color_type().encode_target(), layout);
        assert_eq!(layout.color_type().channel_count() as u32, layout.channel_count());
        assert_eq!(layout.color_type().bits_per_sample(), 8);
    }
}

#[test]
fn tags_say_what_a_pixel_holds() {
    let expected: [(bool, u8, u8); 12] = [
        (false, 1, 8),
        (true, 2, 8),
        (false, 3, 8),
        (true, 4, 8),
        (false, 1, 16),
        (true, 2, 16),
        (false, 3, 16),
        (true, 4, 16),
        (false, 3, 32),
        (true, 4, 32),
        (false, 3, 8),
        (true, 4, 8),
    ];
    for (tag, (alpha, channels, bits)) in TAGS.iter().zip(expected.iter()) {
        assert_eq!(tag.has_alpha(), *alpha, "{:?}", tag);
        assert_eq!(tag.channel_count(), *channels, "{:?}", tag);
        assert_eq!(tag.bits_per_sample(), *bits, "{:?}", tag);
    }
}

#[test]
fn other_tags_are_encoded_as_rgb_or_rgba_by_their_alpha() {
    for tag in TAGS {
        match tag {
            ColorType::Rgb8 | ColorType::Rgba8 | ColorType::Bgr8 | ColorType::Bgra8 => {
                assert!(tag.native_layout().is_some());
            }
            _ => {
                assert_eq!(tag.native_layout(), None);
                let target = if tag.has_alpha() { WebpColor::RGBA } else { WebpColor::RGB };
                assert_eq!(tag.encode_target(), target, "{:?}", tag);
            }
        }
    }
    assert_eq!(ColorType::L8.encode_target(), WebpColor::RGB);
    assert_eq!(ColorType::La16.encode_target(), WebpColor::RGBA);
    assert_eq!(ColorType::Rgb32F.encode_target(), WebpColor::RGB);
    assert_eq!(ColorType::Rgba32F.encode_target(), WebpColor::RGBA);
}

#[test]
fn failures_say_what_they_are() {
    assert_eq!(WebpError::Header.message(), "Invalid webp header");
    assert_eq!(WebpError::Data.message(), "Invalid webp data");
    assert_eq!(WebpError::Decoding.message(), "Webp Format Error");
    assert_eq!(WebpError::Encoding.message(), "Webp Format Error");
    assert_eq!(WebpError::Unsupported(ColorType::L8).message(), "Unsupported color type");

    assert!(WebpError::Header.is_decoding());
    assert!(WebpError::Data.is_decoding());
    assert!(WebpError::Decoding.is_decoding());
    assert!(!WebpError::Encoding.is_decoding());
    assert!(!WebpError::Unsupported(ColorType::L8).is_decoding());

    assert!(WebpError::Encoding.is_encoding());
    assert!(!WebpError::Header.is_encoding());
    assert!(!WebpError::Unsupported(ColorType::La8).is_encoding());

    assert_eq!(WebpError::Unsupported(ColorType::La8).unsupported_color(), Some(ColorType::La8));
    assert_eq!(WebpError::Encoding.unsupported_color(), None);
    assert_ne!(WebpError::Header, WebpError::Data);
}
