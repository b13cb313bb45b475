use libwebp_image::{
    webp_load, webp_load_from_memory, webp_load_rgb, webp_load_rgb_from_memory, webp_load_rgba,
    webp_load_rgba_from_memory, ByteSource, ColorType, WebpColor, WebpError,
};
use rand::{thread_rng, Rng};

/// A 256 by 256 image, encoded with loss: a plain field of one colour in the
/// top-left three quarters, noise around it.
fn jelly() -> Vec<u8> {
    let mut pixels = Vec::new();
    let mut seed: u32 = 12345;
    for y in 0..256u32 {
        for x in 0..256u32 {
            if x < 192 && y < 192 {
                pixels.extend_from_slice(&[140u8, 145, 102]);
            } else {
                for _ in 0..3 {
                    seed = seed.wrapping_mul(1664525).wrapping_add(1013904223);
                    pixels.push((seed >> 24) as u8);
                }
            }
        }
    }
    libwebp::WebPEncodeRGB(&pixels, 256, 256, 256 * 3, 75.0).unwrap().to_vec()
}

/// A source that delivers `data` in reads of random sizes.
fn test_reader(data: Vec<u8>) -> ByteSource {
    let mut rng = thread_rng();
    let mut sizes = Vec::new();
    let mut covered = 0;
    while covered <= data.len() {
        let limit = rng.gen_range(1..=1024usize);
        sizes.push(limit);
        covered += limit;
    }
    ByteSource::fragmented(data, sizes)
}

fn assert_abs_diff_eq(actual: &[u8], expected: &[u8], epsilon: i32) {
    assert_eq!(actual.len(), expected.len());
    for (a, e) in actual.iter().zip(expected.iter()) {
        assert!((*a as i32 - *e as i32).abs() <= epsilon, "{:?} is not {:?}", actual, expected);
    }
}

#[test]
fn test_webp_load() {
    let reader = test_reader(jelly());
    let img = webp_load(reader).unwrap();
    assert_eq!(img.color(), ColorType::Rgba8);
    assert_eq!(img.dimensions(), (256, 256));
    assert_abs_diff_eq(&img.as_bytes()[..4], &[140, 145, 102, 255], 1);
}

#[test]
fn test_webp_load_rgba() {
    let reader = test_reader(jelly());
    let img = webp_load_rgba(reader).unwrap();
    assert_eq!(img.dimensions(), (256, 256));
    assert_abs_diff_eq(&img.pixels()[..4], &[140, 145, 102, 255], 1);
}

#[test]
fn test_webp_load_rgb() {
    let reader = test_reader(jelly());
    let img = webp_load_rgb(reader).unwrap();
    assert_eq!(img.dimensions(), (256, 256));
    assert_abs_diff_eq(&img.pixels()[..3], &[140, 145, 102], 1);
}

#[test]
fn test_webp_load_from_memory() {
    let img = webp_load_from_memory(&jelly()).unwrap();
    assert_eq!(img.color(), ColorType::Rgba8);
    assert_eq!(img.dimensions(), (256, 256));
    assert_abs_diff_eq(&img.as_bytes()[..4], &[140, 145, 102, 255], 1);
}

#[test]
fn test_webp_load_rgba_from_memory() {
    let img = webp_load_rgba_from_memory(&jelly()).unwrap();
    assert_eq!(img.dimensions(), (256, 256));
    assert_abs_diff_eq(&img.pixels()[..4], &[140, 145, 102, 255], 1);
}

#[test]
fn test_webp_load_rgb_from_memory() {
    let img = webp_load_rgb_from_memory(&jelly()).unwrap();
    assert_eq!(img.dimensions(), (256, 256));
    assert_abs_diff_eq(&img.pixels()[..3], &[140, 145, 102], 1);
}

#[test]
fn loaded_images_are_framed_in_unpadded_rows() {
    let rgba = webp_load_rgba_from_memory(&jelly()).unwrap();
    assert_eq!(rgba.layout(), WebpColor::RGBA);
    assert_eq!((rgba.width(), rgba.height(), rgba.stride()), (256, 256, 1024));
    assert_eq!(rgba.pixels().len(), 256 * 256 * 4);
    assert_eq!(rgba.to_vec(), rgba.pixels());

    let rgb = webp_load_rgb_from_memory(&jelly()).unwrap();
    assert_eq!(rgb.layout(), WebpColor::RGB);
    assert_eq!((rgb.width(), rgb.height(), rgb.stride()), (256, 256, 768));
    assert_eq!(rgb.pixels().len(), 256 * 256 * 3);
}

#[test]
fn rgb_is_rgba_without_alpha() {
    let rgba = webp_load_rgba_from_memory(&jelly()).unwrap();
    let rgb = webp_load_rgb_from_memory(&jelly()).unwrap();
    for (with, without) in rgba.pixels().chunks(4).zip(rgb.pixels().chunks(3)) {
        assert_eq!(&with[..3], without);
        assert_eq!(with[3], 255);
    }
}

#[test]
fn the_tagged_image_is_the_rgba_image() {
    let data = jelly();
    let tagged = webp_load_from_memory(&data).unwrap();
    let rgba = webp_load_rgba_from_memory(&data).unwrap();
    assert_eq!(tagged.as_bytes(), rgba.pixels());
    assert!(tagged.as_words().is_empty());
    assert_eq!((tagged.width(), tagged.height()), (256, 256));
}

#[test]
fn loading_what_is_no_image_fails() {
    let garbage = vec![7u8; 3000];
    assert_eq!(webp_load_rgba_from_memory(&garbage).err(), Some(WebpError::Decoding));
    assert_eq!(webp_load_rgb_from_memory(&garbage).err(), Some(WebpError::Decoding));
    assert_eq!(webp_load_from_memory(&garbage).err(), Some(WebpError::Decoding));
    assert_eq!(webp_load_rgba_from_memory(&[]).err(), Some(WebpError::Decoding));
    assert_eq!(webp_load(test_reader(garbage.clone())).err(), Some(WebpError::Decoding));
    assert_eq!(webp_load_rgba(test_reader(garbage.clone())).err(), Some(WebpError::Decoding));
    assert_eq!(webp_load_rgb(test_reader(garbage)).err(), Some(WebpError::Decoding));
}

#[test]
fn loading_a_truncated_image_fails() {
    let mut data = jelly();
    data.truncate(data.len() / 2);
    assert_eq!(webp_load_rgba_from_memory(&data).err(), Some(WebpError::Decoding));
}
