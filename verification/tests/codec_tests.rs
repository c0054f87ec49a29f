use image_pipeline::{
    process_image_ops, read_image_bytes, write_image, ImageOptions, ImageType, PixelImage,
};

fn small_image(width: u32, height: u32) -> PixelImage {
    let mut pixels: Vec<u8> = Vec::new();
    for i in 0..(width * height * 3) {
        pixels.push((i * 29 % 256) as u8);
    }
    PixelImage::from_rgb8(width, height, pixels).unwrap()
}

fn ops(new_format: ImageType) -> ImageOptions {
    ImageOptions { new_format, max_size: 0, image_quality: 50 }
}

#[test]
fn same_format_write_emits_the_raw_samples() {
    let img = small_image(4, 2);
    let out = write_image(&img, &ops(ImageType::Same)).unwrap();
    assert_eq!(out, img.pixels);
}

#[test]
fn bmp_write_read_round_trips_the_samples() {
    let img = small_image(6, 3);
    let bytes = write_image(&img, &ops(ImageType::Bmp)).unwrap();
    assert_ne!(bytes, img.pixels);
    let back = read_image_bytes(&bytes).unwrap();
    assert_eq!((back.width, back.height), (6, 3));
    assert_eq!(back.pixels, img.pixels);
}

#[test]
fn png_write_read_round_trips_the_samples() {
    let img = small_image(5, 7);
    let bytes = write_image(&img, &ops(ImageType::Png)).unwrap();
    assert_eq!(&bytes[..8], &[0x89, 0x50, 0x4e, 0x47, 0x0d, 0x0a, 0x1a, 0x0a]);
    let back = read_image_bytes(&bytes).unwrap();
    assert_eq!((back.width, back.height), (5, 7));
    assert_eq!(back.pixels, img.pixels);
}

#[test]
fn tiff_output_opens_with_a_byte_order_mark() {
    let img = small_image(3, 3);
    let bytes = write_image(&img, &ops(ImageType::Tiff)).unwrap();
    let le = [0x49u8, 0x49, 0x2a, 0x00];
    let mm = [0x4du8, 0x4d, 0x00, 0x2a];
    assert!(bytes[..4] == le || bytes[..4] == mm);
}

#[test]
fn gif_output_carries_its_header() {
    let img = small_image(8, 8);
    let bytes = write_image(&img, &ops(ImageType::Gif)).unwrap();
    assert_eq!(&bytes[..6], b"GIF89a");
}

#[test]
fn read_image_bytes_rejects_garbage() {
    let err = read_image_bytes(&[0u8, 1, 2, 3]).unwrap_err();
    assert_eq!(err, image_pipeline::ConvertError::DecodeError);
}

#[test]
fn process_image_ops_resizes_then_encodes() {
    let img = small_image(16, 8);
    let operations = ImageOptions { new_format: ImageType::Png, max_size: 8, image_quality: 50 };
    let bytes = process_image_ops(&img, &operations).unwrap();
    let back = read_image_bytes(&bytes).unwrap();
    assert_eq!((back.width, back.height), (8, 4));
}
