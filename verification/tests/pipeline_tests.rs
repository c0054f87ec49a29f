use image_pipeline::{process_heif_image, process_image, ConvertError, ImageOptionsInput};

fn options(new_format: Option<&str>, max_size: Option<u32>, image_quality: Option<i64>) -> ImageOptionsInput {
    ImageOptionsInput {
        identifier: None,
        new_format: new_format.map(|s| s.to_owned()),
        do_not_convert: None,
        max_size,
        image_quality,
    }
}

fn png_bytes(width: u32, height: u32) -> Vec<u8> {
    let img = image::RgbImage::from_fn(width, height, |x, y| {
        image::Rgb([(x * 5 % 256) as u8, (y * 11 % 256) as u8, ((x + y) % 256) as u8])
    });
    let mut out: Vec<u8> = Vec::new();
    image::DynamicImage::ImageRgb8(img)
        .write_to(&mut std::io::Cursor::new(&mut out), image::ImageOutputFormat::Png)
        .unwrap();
    out
}

fn raw_rgb(width: u32, height: u32) -> Vec<u8> {
    let mut pixels: Vec<u8> = Vec::new();
    for i in 0..(width * height) {
        pixels.push((i % 251) as u8);
        pixels.push((i % 127) as u8);
        pixels.push((i % 83) as u8);
    }
    pixels
}

#[test]
fn passthrough_returns_the_exact_bytes() {
    let bytes = png_bytes(64, 64);
    let out = process_image(&bytes, &options(None, Some(32), Some(80))).unwrap();
    assert_eq!(out, bytes);
}

#[test]
fn unrecognized_format_is_passthrough_too() {
    let bytes = png_bytes(16, 16);
    let out = process_image(&bytes, &options(Some("webp"), None, None)).unwrap();
    assert_eq!(out, bytes);
}

#[test]
fn png_to_jpeg_resized() {
    let bytes = png_bytes(64, 64);
    let out = process_image(&bytes, &options(Some("jpeg"), Some(32), Some(80))).unwrap();
    assert_eq!(image::guess_format(&out).unwrap(), image::ImageFormat::Jpeg);
    let decoded = image::load_from_memory(&out).unwrap();
    assert_eq!(decoded.width().max(decoded.height()), 32);
    assert_eq!((decoded.width(), decoded.height()), (32, 32));
}

#[test]
fn every_target_format_is_decodable_and_signed() {
    let bytes = png_bytes(40, 20);
    let cases: [(&str, image::ImageFormat); 5] = [
        ("png", image::ImageFormat::Png),
        ("jpeg", image::ImageFormat::Jpeg),
        ("gif", image::ImageFormat::Gif),
        ("bmp", image::ImageFormat::Bmp),
        ("tiff", image::ImageFormat::Tiff),
    ];
    for (name, expected) in cases {
        let out = process_image(&bytes, &options(Some(name), None, None)).unwrap();
        assert_eq!(image::guess_format(&out).unwrap(), expected, "format {}", name);
        let decoded = image::load_from_memory(&out).unwrap();
        assert_eq!((decoded.width(), decoded.height()), (40, 20), "format {}", name);
    }
}

#[test]
fn garbage_bytes_fail_with_decode_error() {
    let bytes = vec![1u8, 2, 3, 4, 5, 6, 7, 8, 9];
    let err = process_image(&bytes, &options(Some("png"), None, None)).unwrap_err();
    assert_eq!(err, ConvertError::DecodeError);
}

#[test]
fn truncated_png_fails_with_decode_error() {
    let mut bytes = png_bytes(32, 32);
    bytes.truncate(20);
    let err = process_image(&bytes, &options(Some("bmp"), None, None)).unwrap_err();
    assert_eq!(err, ConvertError::DecodeError);
}

#[test]
fn raw_entry_rejects_a_short_buffer() {
    let mut pixels = raw_rgb(10, 10);
    pixels.pop();
    assert_eq!(pixels.len(), 10 * 10 * 3 - 1);
    let err = process_heif_image(&pixels, 10, 10, &options(Some("png"), None, None)).unwrap_err();
    assert_eq!(err, ConvertError::DecodeError);
}

#[test]
fn raw_entry_rejects_zero_dimensions() {
    let err = process_heif_image(&[], 0, 0, &options(Some("png"), None, None)).unwrap_err();
    assert_eq!(err, ConvertError::DecodeError);
}

#[test]
fn raw_entry_remaps_passthrough_to_jpeg() {
    let pixels = raw_rgb(10, 10);
    assert_eq!(pixels.len(), 300);
    let out = process_heif_image(&pixels, 10, 10, &options(Some("same"), None, None)).unwrap();
    assert_eq!(image::guess_format(&out).unwrap(), image::ImageFormat::Jpeg);
    let decoded = image::load_from_memory(&out).unwrap();
    assert_eq!((decoded.width(), decoded.height()), (10, 10));
}

#[test]
fn raw_entry_absent_format_also_becomes_jpeg() {
    let pixels = raw_rgb(8, 4);
    let out = process_heif_image(&pixels, 8, 4, &options(None, None, None)).unwrap();
    assert_eq!(image::guess_format(&out).unwrap(), image::ImageFormat::Jpeg);
}

#[test]
fn raw_entry_converts_and_resizes() {
    let pixels = raw_rgb(60, 30);
    let out = process_heif_image(&pixels, 60, 30, &options(Some("png"), Some(20), None)).unwrap();
    assert_eq!(image::guess_format(&out).unwrap(), image::ImageFormat::Png);
    let decoded = image::load_from_memory(&out).unwrap();
    assert_eq!((decoded.width(), decoded.height()), (20, 10));
}

#[test]
fn jpeg_writer_rejecting_the_image_is_an_encode_error() {
    // The JPEG writer caps each dimension at 65535 pixels.
    let width: u32 = 65536;
    let pixels = vec![127u8; (width * 3) as usize];
    let err = process_heif_image(&pixels, width, 1, &options(Some("jpeg"), None, None)).unwrap_err();
    assert_eq!(err, ConvertError::EncodeError);
}

#[test]
fn quality_changes_the_jpeg_stream() {
    let bytes = png_bytes(48, 48);
    let low = process_image(&bytes, &options(Some("jpeg"), None, Some(5))).unwrap();
    let high = process_image(&bytes, &options(Some("jpeg"), None, Some(95))).unwrap();
    assert!(low.len() < high.len());
    assert_ne!(low, high);
}
