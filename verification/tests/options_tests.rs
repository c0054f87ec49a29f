use image_pipeline::{parse_image_operations, ConvertError, ImageOptionsInput, ImageType};

fn input_with_quality(q: Option<i64>) -> ImageOptionsInput {
    ImageOptionsInput {
        identifier: None,
        new_format: None,
        do_not_convert: None,
        max_size: None,
        image_quality: q,
    }
}

fn input_with_format(name: &str) -> ImageOptionsInput {
    ImageOptionsInput {
        identifier: None,
        new_format: Some(name.to_owned()),
        do_not_convert: None,
        max_size: None,
        image_quality: None,
    }
}

#[test]
fn quality_clamping() {
    let cases: [(i64, u8); 5] = [(-10, 0), (0, 0), (50, 50), (100, 100), (150, 100)];
    for (given, expected) in cases {
        let ops = parse_image_operations(&input_with_quality(Some(given)));
        assert_eq!(ops.image_quality, expected);
    }
}

#[test]
fn defaults_when_absent() {
    let ops = parse_image_operations(&input_with_quality(None));
    assert_eq!(ops.new_format, ImageType::Same);
    assert_eq!(ops.max_size, 0);
    assert_eq!(ops.image_quality, 50);
}

#[test]
fn format_lookup_table() {
    assert_eq!(parse_image_operations(&input_with_format("png")).new_format, ImageType::Png);
    assert_eq!(parse_image_operations(&input_with_format("jpeg")).new_format, ImageType::Jpeg);
    assert_eq!(parse_image_operations(&input_with_format("gif")).new_format, ImageType::Gif);
    assert_eq!(parse_image_operations(&input_with_format("bmp")).new_format, ImageType::Bmp);
    assert_eq!(parse_image_operations(&input_with_format("tiff")).new_format, ImageType::Tiff);
}

#[test]
fn unrecognized_formats_mean_no_conversion() {
    assert_eq!(parse_image_operations(&input_with_format("webp")).new_format, ImageType::Same);
    assert_eq!(parse_image_operations(&input_with_format("")).new_format, ImageType::Same);
    // The lookup is case-sensitive.
    assert_eq!(parse_image_operations(&input_with_format("PNG")).new_format, ImageType::Same);
    assert_eq!(parse_image_operations(&input_with_format("Jpeg")).new_format, ImageType::Same);
}

#[test]
fn max_size_carries_over() {
    let input = ImageOptionsInput {
        identifier: Some("photo-17".to_owned()),
        new_format: Some("png".to_owned()),
        do_not_convert: Some(false),
        max_size: Some(1200),
        image_quality: Some(80),
    };
    let ops = parse_image_operations(&input);
    assert_eq!(ops.max_size, 1200);
    assert_eq!(ops.new_format, ImageType::Png);
    assert_eq!(ops.image_quality, 80);
}

#[test]
fn error_messages_name_the_stage() {
    assert_eq!(ConvertError::OptionsError.message(), "malformed options payload");
    assert_eq!(ConvertError::DecodeError.message(), "could not decode the input image");
    assert_eq!(ConvertError::EncodeError.message(), "could not encode the output image");
}
