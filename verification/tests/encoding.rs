use libwebp_image::{
    completed, webp_load_rgb_from_memory, webp_load_rgba_from_memory, ColorType, Compression,
    DecodedImage, DynamicImage, Encoded, LossyCall, WebpColor, WebpEncoder, WebpError,
    DEFAULT_QUALITY_BITS, MAX_STRIDE,
};

fn lossless() -> WebpEncoder {
    WebpEncoder::new_with_compression(Compression::Lossless)
}

fn bytes(encoded: Result<Encoded, WebpError>) -> Vec<u8> {
    match encoded {
        Ok(Encoded::Bytes(bytes)) => bytes,
        Ok(Encoded::Pending(_)) => panic!("a lossy call where bytes were due"),
        Err(e) => panic!("{}", e.message()),
    }
}

fn pending(encoded: Result<Encoded, WebpError>) -> LossyCall {
    match encoded {
        Ok(Encoded::Pending(call)) => call,
        Ok(Encoded::Bytes(_)) => panic!("bytes where a lossy call was due"),
        Err(e) => panic!("{}", e.message()),
    }
}

fn failure(encoded: Result<Encoded, WebpError>) -> WebpError {
    match encoded {
        Ok(_) => panic!("success where a failure was due"),
        Err(e) => e,
    }
}

/// Makes the call that the encoder left to its caller.
fn make(call: &LossyCall) -> Option<Vec<u8>> {
    let quality = f32::from_bits(call.quality_bits());
    let (pixels, width, height, stride) =
        (call.pixels(), call.width(), call.height(), call.stride());
    let outcome = match call.layout() {
        WebpColor::RGB => libwebp::WebPEncodeRGB(pixels, width, height, stride, quality),
        WebpColor::RGBA => libwebp::WebPEncodeRGBA(pixels, width, height, stride, quality),
        WebpColor::BGR => libwebp::WebPEncodeBGR(pixels, width, height, stride, quality),
        WebpColor::BGRA => libwebp::WebPEncodeBGRA(pixels, width, height, stride, quality),
    };
    outcome.ok().map(|b| b.to_vec())
}

fn noise(len: usize) -> Vec<u8> {
    let mut seed: u32 = 77;
    (0..len)
        .map(|_| {
            seed = seed.wrapping_mul(1664525).wrapping_add(1013904223);
            (seed >> 24) as u8
        })
        .collect()
}

#[test]
fn the_default_is_lossy_at_three_quarters() {
    assert_eq!(DEFAULT_QUALITY_BITS, 0.75f32.to_bits());
    assert_eq!(
        WebpEncoder::new().compression(),
        Compression::Lossy { quality_bits: 0.75f32.to_bits() }
    );
    assert_eq!(
        WebpEncoder::new_with_quality(90.0f32.to_bits()).compression(),
        Compression::Lossy { quality_bits: 90.0f32.to_bits() }
    );
    assert_eq!(
        WebpEncoder::new_with_quality((-3.5f32).to_bits()).compression(),
        Compression::Lossy { quality_bits: (-3.5f32).to_bits() }
    );
    assert_eq!(lossless().compression(), Compression::Lossless);
    assert_eq!(MAX_STRIDE, i32::MAX as u32);
}

#[test]
fn white_survives_lossless_encoding() {
    let white = vec![255u8; 2 * 2 * 4];
    let encoded = bytes(lossless().encode_rgba(&white, 2, 2));
    assert_eq!(&encoded[..4], b"RIFF");
    assert_eq!(&encoded[8..12], b"WEBP");
    let decoded = webp_load_rgba_from_memory(&encoded).unwrap();
    assert_eq!(decoded.dimensions(), (2, 2));
    assert_eq!(decoded.stride(), 8);
    for pixel in decoded.pixels().chunks(4) {
        assert_eq!(pixel, [255, 255, 255, 255]);
    }
    assert_eq!(decoded.pixels().len(), 16);
}

#[test]
fn lossless_encoding_keeps_every_pixel() {
    let rgb = noise(17 * 5 * 3);
    let encoded = bytes(lossless().encode_rgb(&rgb, 17, 5));
    let decoded = webp_load_rgb_from_memory(&encoded).unwrap();
    assert_eq!(decoded.dimensions(), (17, 5));
    assert_eq!(decoded.pixels(), &rgb[..]);

    let mut rgba = noise(9 * 4 * 4);
    for pixel in rgba.chunks_mut(4) {
        pixel[3] |= 1;
    }
    let encoded = bytes(lossless().encode_rgba(&rgba, 9, 4));
    let decoded = webp_load_rgba_from_memory(&encoded).unwrap();
    assert_eq!(decoded.dimensions(), (9, 4));
    assert_eq!(decoded.pixels(), &rgba[..]);
}

#[test]
fn blue_first_buffers_are_encoded_as_such() {
    let bgr = noise(6 * 7 * 3);
    let encoded = bytes(lossless().encode_bgr(&bgr, 6, 7));
    let back = DecodedImage::decode(WebpColor::BGR, &encoded).unwrap();
    assert_eq!(back.pixels(), &bgr[..]);
    let rgb = DecodedImage::decode(WebpColor::RGB, &encoded).unwrap();
    for (a, b) in rgb.pixels().chunks(3).zip(bgr.chunks(3)) {
        assert_eq!([a[0], a[1], a[2]], [b[2], b[1], b[0]]);
    }
    // The same bytes as red-first samples are another image.
    assert_ne!(bytes(lossless().encode_rgb(&bgr, 6, 7)), encoded);

    let mut bgra = noise(3 * 3 * 4);
    for pixel in bgra.chunks_mut(4) {
        pixel[3] = 255;
    }
    let encoded = bytes(lossless().encode_bgra(&bgra, 3, 3));
    let back = DecodedImage::decode(WebpColor::BGRA, &encoded).unwrap();
    assert_eq!(back.pixels(), &bgra[..]);
}

#[test]
fn a_buffer_of_the_wrong_length_is_refused() {
    let encoders: [fn() -> WebpEncoder; 3] =
        [WebpEncoder::new, lossless, || WebpEncoder::new_with_quality(50.0f32.to_bits())];
    for encoder in encoders {
        for len in [0usize, 1, 11, 13, 16, 24] {
            let buf = vec![0u8; len];
            assert_eq!(failure(encoder().encode_rgb(&buf, 2, 2)), WebpError::Encoding);
            assert_eq!(failure(encoder().encode_bgr(&buf, 2, 2)), WebpError::Encoding);
            assert_eq!(
                failure(encoder().write_image(&buf, 2, 2, ColorType::Rgb8)),
                WebpError::Encoding
            );
        }
        for len in [0usize, 12, 15, 17, 32] {
            let buf = vec![0u8; len];
            assert_eq!(failure(encoder().encode_rgba(&buf, 2, 2)), WebpError::Encoding);
            assert_eq!(failure(encoder().encode_bgra(&buf, 2, 2)), WebpError::Encoding);
            assert_eq!(
                failure(encoder().write_image(&buf, 2, 2, ColorType::Bgra8)),
                WebpError::Encoding
            );
        }
    }
    assert!(WebpError::Encoding.is_encoding());
}

#[test]
fn a_row_that_the_codec_cannot_count_is_refused() {
    let nothing: [u8; 0] = [];
    assert_eq!(failure(lossless().encode_rgb(&nothing, 0x4000_0000, 0)), WebpError::Encoding);
    assert_eq!(failure(lossless().encode_rgba(&nothing, 0x2000_0000, 0)), WebpError::Encoding);
    assert_eq!(failure(WebpEncoder::new().encode_rgb(&nothing, u32::MAX, 0)), WebpError::Encoding);
    assert_eq!(failure(WebpEncoder::new().encode_bgra(&nothing, u32::MAX, 0)), WebpError::Encoding);
    // The longest row that can be counted, in an image without rows.
    let call = pending(WebpEncoder::new().encode_rgba(&nothing, 0x1fff_ffff, 0));
    assert_eq!(call.stride(), 0x7fff_fffc);
}

#[test]
fn an_image_without_pixels_is_for_the_codec_to_refuse() {
    let nothing: [u8; 0] = [];
    assert_eq!(failure(lossless().encode_rgb(&nothing, 0, 0)), WebpError::Encoding);
    assert_eq!(failure(lossless().encode_rgba(&nothing, 0, 7)), WebpError::Encoding);
    assert_eq!(failure(lossless().encode_bgr(&nothing, 7, 0)), WebpError::Encoding);
    let call = pending(WebpEncoder::new().encode_rgb(&nothing, 0, 0));
    assert_eq!(make(&call), None);
    assert_eq!(call.finish(None), Err(WebpError::Encoding));
}

#[test]
fn lossy_encoding_is_a_call_for_the_caller() {
    let rgb = noise(16 * 8 * 3);
    let call = pending(WebpEncoder::new().encode_rgb(&rgb, 16, 8));
    assert_eq!(call.layout(), WebpColor::RGB);
    assert_eq!(call.pixels(), &rgb[..]);
    assert_eq!((call.width(), call.height(), call.stride()), (16, 8, 48));
    assert_eq!(call.quality_bits(), 0.75f32.to_bits());
    let made = make(&call);
    let encoded = call.finish(made).unwrap();
    let decoded = webp_load_rgb_from_memory(&encoded).unwrap();
    assert_eq!(decoded.dimensions(), (16, 8));

    let rgba = vec![200u8; 4 * 4 * 4];
    let call = pending(WebpEncoder::new_with_quality(100.0f32.to_bits()).encode_rgba(&rgba, 4, 4));
    assert_eq!(call.layout(), WebpColor::RGBA);
    assert_eq!((call.width(), call.height(), call.stride()), (4, 4, 16));
    assert_eq!(call.quality_bits(), 100.0f32.to_bits());
    let made = make(&call);
    let decoded = webp_load_rgba_from_memory(&call.finish(made).unwrap()).unwrap();
    assert_eq!(decoded.dimensions(), (4, 4));
    for (a, e) in decoded.pixels().iter().zip(rgba.iter()) {
        assert!((*a as i32 - *e as i32).abs() <= 2);
    }

    let call = pending(WebpEncoder::new().encode_bgr(&rgb, 8, 16));
    assert_eq!(call.layout(), WebpColor::BGR);
    assert_eq!(call.stride(), 24);
    let call = pending(WebpEncoder::new().encode_bgra(&rgba, 8, 2));
    assert_eq!(call.layout(), WebpColor::BGRA);
    assert_eq!(call.stride(), 32);
}

#[test]
fn a_failed_call_is_a_failure_to_encode() {
    assert_eq!(completed(None), Err(WebpError::Encoding));
    assert_eq!(completed(Some(vec![1, 2, 3])), Ok(vec![1, 2, 3]));
    assert_eq!(completed(Some(Vec::new())), Ok(Vec::new()));
    let call = pending(WebpEncoder::new().encode_rgb(&[0u8; 12], 2, 2));
    assert_eq!(call.finish(Some(vec![4, 5])), Ok(vec![4, 5]));
}

#[test]
fn a_raw_buffer_is_encoded_under_a_native_tag_only() {
    let rgb = noise(4 * 4 * 3);
    let rgba = noise(3 * 4 * 4);
    assert_eq!(
        bytes(lossless().write_image(&rgb, 4, 4, ColorType::Rgb8)),
        bytes(lossless().encode_rgb(&rgb, 4, 4))
    );
    assert_eq!(
        bytes(lossless().write_image(&rgba, 3, 4, ColorType::Rgba8)),
        bytes(lossless().encode_rgba(&rgba, 3, 4))
    );
    assert_eq!(
        bytes(lossless().write_image(&rgb, 4, 4, ColorType::Bgr8)),
        bytes(lossless().encode_bgr(&rgb, 4, 4))
    );
    assert_eq!(
        bytes(lossless().write_image(&rgba, 3, 4, ColorType::Bgra8)),
        bytes(lossless().encode_bgra(&rgba, 3, 4))
    );
    let call = pending(WebpEncoder::new().write_image(&rgba, 3, 4, ColorType::Rgba8));
    assert_eq!(call.layout(), WebpColor::RGBA);

    let others = [
        ColorType::L8,
        ColorType::La8,
        ColorType::L16,
        ColorType::La16,
        ColorType::Rgb16,
        ColorType::Rgba16,
        ColorType::Rgb32F,
        ColorType::Rgba32F,
    ];
    for tag in others {
        let refused = failure(lossless().write_image(&rgb, 4, 4, tag));
        assert_eq!(refused, WebpError::Unsupported(tag));
        assert_eq!(refused.unsupported_color(), Some(tag));
        assert_eq!(
            failure(WebpEncoder::new().write_image(&[], 0, 0, tag)),
            WebpError::Unsupported(tag)
        );
    }
}

#[test]
fn a_tagged_image_in_a_native_layout_goes_as_it_is() {
    let rgb = noise(5 * 3 * 3);
    let image = DynamicImage::from_bytes(ColorType::Rgb8, 5, 3, rgb.clone()).unwrap();
    assert_eq!(bytes(lossless().encode(&image)), bytes(lossless().encode_rgb(&rgb, 5, 3)));

    let rgba = noise(5 * 3 * 4);
    let image = DynamicImage::from_bytes(ColorType::Rgba8, 5, 3, rgba.clone()).unwrap();
    assert_eq!(bytes(lossless().encode(&image)), bytes(lossless().encode_rgba(&rgba, 5, 3)));

    let image = DynamicImage::from_bytes(ColorType::Bgr8, 5, 3, rgb.clone()).unwrap();
    assert_eq!(bytes(lossless().encode(&image)), bytes(lossless().encode_bgr(&rgb, 5, 3)));

    let image = DynamicImage::from_bytes(ColorType::Bgra8, 5, 3, rgba.clone()).unwrap();
    assert_eq!(bytes(lossless().encode(&image)), bytes(lossless().encode_bgra(&rgba, 5, 3)));

    let image = DynamicImage::from_bytes(ColorType::Rgba8, 5, 3, rgba.clone()).unwrap();
    let call = pending(WebpEncoder::new().encode(&image));
    assert_eq!(call.layout(), WebpColor::RGBA);
    assert_eq!(call.pixels(), &rgba[..]);
    assert_eq!(call.stride(), 20);
}

fn decoded_rgb(encoded: Result<Encoded, WebpError>) -> Vec<u8> {
    webp_load_rgb_from_memory(&bytes(encoded)).unwrap().to_vec()
}

fn decoded_rgba(encoded: Result<Encoded, WebpError>) -> Vec<u8> {
    webp_load_rgba_from_memory(&bytes(encoded)).unwrap().to_vec()
}

#[test]
fn gray_becomes_rgb() {
    let gray = vec![0u8, 1, 127, 128, 254, 255];
    let image = DynamicImage::from_bytes(ColorType::L8, 3, 2, gray.clone()).unwrap();
    let expected =
        vec![0u8, 0, 0, 1, 1, 1, 127, 127, 127, 128, 128, 128, 254, 254, 254, 255, 255, 255];
    assert_eq!(decoded_rgb(lossless().encode(&image)), expected);
    let call = pending(WebpEncoder::new().encode(&image));
    assert_eq!(call.layout(), WebpColor::RGB);
    assert_eq!(call.pixels(), &expected[..]);
    assert_eq!((call.width(), call.height(), call.stride()), (3, 2, 9));

    let reference = image::DynamicImage::ImageLuma8(
        image::GrayImage::from_raw(3, 2, gray).unwrap(),
    )
    .to_rgb8()
    .into_raw();
    assert_eq!(expected, reference);
}

#[test]
fn gray_with_alpha_becomes_rgba() {
    let pairs = vec![10u8, 255, 20, 128, 30, 1, 40, 77];
    let image = DynamicImage::from_bytes(ColorType::La8, 2, 2, pairs.clone()).unwrap();
    let expected = vec![10u8, 10, 10, 255, 20, 20, 20, 128, 30, 30, 30, 1, 40, 40, 40, 77];
    assert_eq!(decoded_rgba(lossless().encode(&image)), expected);
    let call = pending(WebpEncoder::new().encode(&image));
    assert_eq!(call.layout(), WebpColor::RGBA);
    assert_eq!(call.pixels(), &expected[..]);

    let reference = image::DynamicImage::ImageLumaA8(
        image::GrayAlphaImage::from_raw(2, 2, pairs).unwrap(),
    )
    .to_rgba8()
    .into_raw();
    assert_eq!(expected, reference);
}

#[test]
fn wide_gray_is_narrowed_and_becomes_rgb() {
    let gray = vec![0u16, 128, 129, 257, 0x8000, 0xffff];
    let image = DynamicImage::from_words(ColorType::L16, 2, 3, gray.clone()).unwrap();
    let expected = vec![0u8, 0, 0, 0, 0, 0, 1, 1, 1, 1, 1, 1, 128, 128, 128, 255, 255, 255];
    assert_eq!(decoded_rgb(lossless().encode(&image)), expected);
    let call = pending(WebpEncoder::new().encode(&image));
    assert_eq!(call.layout(), WebpColor::RGB);
    assert_eq!(call.pixels(), &expected[..]);

    let reference = image::DynamicImage::ImageLuma16(
        image::ImageBuffer::from_raw(2, 3, gray).unwrap(),
    )
    .to_rgb8()
    .into_raw();
    assert_eq!(expected, reference);
}

#[test]
fn wide_gray_with_alpha_is_narrowed_and_becomes_rgba() {
    let pairs = vec![0x8000u16, 0xffff, 257, 0x8000, 0xffff, 385];
    let image = DynamicImage::from_words(ColorType::La16, 3, 1, pairs.clone()).unwrap();
    let expected = vec![128u8, 128, 128, 255, 1, 1, 1, 128, 255, 255, 255, 1];
    assert_eq!(decoded_rgba(lossless().encode(&image)), expected);
    let call = pending(WebpEncoder::new().encode(&image));
    assert_eq!(call.layout(), WebpColor::RGBA);
    assert_eq!(call.pixels(), &expected[..]);

    let reference = image::DynamicImage::ImageLumaA16(
        image::ImageBuffer::from_raw(3, 1, pairs).unwrap(),
    )
    .to_rgba8()
    .into_raw();
    assert_eq!(expected, reference);
}

#[test]
fn wide_rgb_is_narrowed() {
    let wide = vec![0u16, 0x8000, 0xffff, 128, 129, 65407];
    let image = DynamicImage::from_words(ColorType::Rgb16, 1, 2, wide.clone()).unwrap();
    let expected = vec![0u8, 128, 255, 0, 1, 255];
    assert_eq!(decoded_rgb(lossless().encode(&image)), expected);
    let call = pending(WebpEncoder::new().encode(&image));
    assert_eq!(call.layout(), WebpColor::RGB);
    assert_eq!(call.pixels(), &expected[..]);

    let reference = image::DynamicImage::ImageRgb16(
        image::ImageBuffer::from_raw(1, 2, wide).unwrap(),
    )
    .to_rgb8()
    .into_raw();
    assert_eq!(expected, reference);
}

#[test]
fn wide_rgba_is_narrowed() {
    let wide = vec![0u16, 0x8000, 0xffff, 0xffff, 65406, 65407, 385, 0x8000];
    let image = DynamicImage::from_words(ColorType::Rgba16, 2, 1, wide.clone()).unwrap();
    let expected = vec![0u8, 128, 255, 255, 254, 255, 1, 128];
    assert_eq!(decoded_rgba(lossless().encode(&image)), expected);
    let call = pending(WebpEncoder::new().encode(&image));
    assert_eq!(call.layout(), WebpColor::RGBA);
    assert_eq!(call.pixels(), &expected[..]);

    let reference = image::DynamicImage::ImageRgba16(
        image::ImageBuffer::from_raw(2, 1, wide).unwrap(),
    )
    .to_rgba8()
    .into_raw();
    assert_eq!(expected, reference);
}

#[test]
fn a_tagged_image_holds_exactly_its_samples() {
    assert!(DynamicImage::from_bytes(ColorType::Rgb8, 2, 2, vec![0; 12]).is_some());
    assert!(DynamicImage::from_bytes(ColorType::Rgb8, 2, 2, vec![0; 11]).is_none());
    assert!(DynamicImage::from_bytes(ColorType::Rgb8, 2, 2, vec![0; 13]).is_none());
    assert!(DynamicImage::from_bytes(ColorType::La8, 2, 2, vec![0; 8]).is_some());
    assert!(DynamicImage::from_bytes(ColorType::L8, 0, 9, Vec::new()).is_some());
    assert!(DynamicImage::from_bytes(ColorType::L16, 2, 2, vec![0; 4]).is_none());
    assert!(DynamicImage::from_bytes(ColorType::Rgb32F, 1, 1, vec![0; 12]).is_none());
    assert!(DynamicImage::from_bytes(ColorType::L8, u32::MAX, u32::MAX, vec![0; 1]).is_none());
    assert!(DynamicImage::from_words(ColorType::Rgba16, 1, 2, vec![0; 8]).is_some());
    assert!(DynamicImage::from_words(ColorType::Rgba16, 1, 2, vec![0; 7]).is_none());
    assert!(DynamicImage::from_words(ColorType::Rgba8, 1, 2, vec![0; 8]).is_none());
    assert!(DynamicImage::from_words(ColorType::Rgba32F, 1, 2, vec![0; 8]).is_none());

    let image = DynamicImage::from_words(ColorType::La16, 3, 2, vec![5; 12]).unwrap();
    assert_eq!(image.color(), ColorType::La16);
    assert_eq!((image.width(), image.height()), (3, 2));
    assert_eq!(image.dimensions(), (3, 2));
    assert_eq!(image.as_words(), &[5u16; 12][..]);
    assert!(image.as_bytes().is_empty());
}

#[test]
fn a_decoded_image_can_be_tagged() {
    let rgb = noise(4 * 2 * 3);
    let encoded = bytes(lossless().encode_rgb(&rgb, 4, 2));
    let decoded = DecodedImage::decode(WebpColor::BGR, &encoded).unwrap();
    let tagged = DynamicImage::from_decoded(&decoded);
    assert_eq!(tagged.color(), ColorType::Bgr8);
    assert_eq!(tagged.dimensions(), (4, 2));
    assert_eq!(tagged.as_bytes(), decoded.pixels());
    assert_eq!(bytes(lossless().encode(&tagged)), encoded);
}
