use vstd::prelude::*;

verus! {

/// The closed set of output formats. `Same` means "no format conversion":
/// the encoded-bytes entry point passes the input through untouched, and the
/// encoder, if it is reached, re-emits the raw pixel buffer as it stands.
#[derive(Clone, Copy, Debug, PartialEq, Eq, Structural)]
pub enum ImageType {
    Png,
    Jpeg,
    Gif,
    Bmp,
    Tiff,
    Same,
}

/// The loosely-typed options payload. Every field is independently optional;
/// absence means "use the default". The numeric fields arrive as integers:
/// the host boundary rounds whatever number the caller supplied to the
/// nearest integer (ties half-up) before handing it in. `max_size` must be
/// non-negative, which its type enforces. `identifier` and `do_not_convert`
/// are accepted but unused by the pipeline, reserved for future options
/// handling.
#[derive(Debug, PartialEq)]
pub struct ImageOptionsInput {
    pub identifier: Option<String>,
    pub new_format: Option<String>,
    pub do_not_convert: Option<bool>,
    pub max_size: Option<u32>,
    pub image_quality: Option<i64>,
}

/// The validated, immutable configuration the pipeline consumes. It is fully
/// derived from an `ImageOptionsInput` by `parse_image_operations`; it is
/// never partially valid.
#[derive(Clone, Copy, Debug, PartialEq, Eq, Structural)]
pub struct ImageOptions {
    /// The target format; `ImageType::Same` means "no conversion".
    pub new_format: ImageType,
    /// The bounding dimension for the resize step; `0` means "no resize".
    pub max_size: u32,
    /// The quality for lossy encoders, clamped into `[0, 100]`.
    pub image_quality: u8,
}

/// The fixed, case-sensitive format-name lookup. Any unrecognized or absent
/// name deliberately maps to `Same`, "no conversion", rather than an error.
pub open spec fn spec_format_of(name: Option<Seq<char>>) -> ImageType {
    match name {
        None => ImageType::Same,
        Some(s) => if s == "png"@ {
            ImageType::Png
        } else if s == "jpeg"@ {
            ImageType::Jpeg
        } else if s == "gif"@ {
            ImageType::Gif
        } else if s == "bmp"@ {
            ImageType::Bmp
        } else if s == "tiff"@ {
            ImageType::Tiff
        } else {
            ImageType::Same
        },
    }
}

/// Quality clamping: values below `0` raise to `0`, above `100` lower to
/// `100`, everything in between passes unchanged.
pub open spec fn clamp_quality(q: int) -> int {
    if q < 0 {
        0
    } else if q > 100 {
        100
    } else {
        q
    }
}

/// The resolved configuration an options payload validates to: the format
/// lookup on `new_format`, `max_size` defaulting to `0`, and `image_quality`
/// defaulting to `50` and clamped into `[0, 100]`.
pub open spec fn spec_resolve_options(input: ImageOptionsInput) -> ImageOptions {
    ImageOptions {
        new_format: spec_format_of(
            match input.new_format {
                Some(s) => Some(s@),
                None => None,
            },
        ),
        max_size: match input.max_size {
            Some(m) => m,
            None => 0,
        },
        image_quality: match input.image_quality {
            Some(q) => clamp_quality(q as int) as u8,
            None => 50,
        },
    }
}

/// Validates a loosely-typed options payload into the strict configuration
/// consumed by the pipeline. Validation is total: unrecognized format names
/// mean "no conversion" and out-of-range quality values are clamped, so
/// every payload that decodes into `ImageOptionsInput` shape resolves.
pub fn parse_image_operations(input: &ImageOptionsInput) -> (opts: ImageOptions)
    ensures
        opts == spec_resolve_options(*input),
{
    let new_format = match &input.new_format {
        None => ImageType::Same,
        Some(s) => {
            if *s == "png".to_owned() {
                ImageType::Png
            } else if *s == "jpeg".to_owned() {
                ImageType::Jpeg
            } else if *s == "gif".to_owned() {
                ImageType::Gif
            } else if *s == "bmp".to_owned() {
                ImageType::Bmp
            } else if *s == "tiff".to_owned() {
                ImageType::Tiff
            } else {
                ImageType::Same
            }
        },
    };
    let max_size = match input.max_size {
        Some(m) => m,
        None => 0u32,
    };
    let image_quality: u8 = match input.image_quality {
        Some(q) => if q < 0 {
            0u8
        } else if q > 100 {
            100u8
        } else {
            q as u8
        },
        None => 50u8,
    };
    ImageOptions { new_format, max_size, image_quality }
}

} // verus!
