use vstd::prelude::*;

verus! {

use crate::errors::ConvertError;
use crate::options::{ImageOptions, ImageType};
use crate::pixel::{PixelImage, RgbView};
use vstd::slice::slice_to_vec;

/// `p` is a prefix of `s`.
pub open spec fn starts_with(s: Seq<u8>, p: Seq<u8>) -> bool {
    p.len() <= s.len() && s.subrange(0, p.len() as int) == p
}

/// The eight-byte signature every PNG stream opens with.
pub open spec fn png_signature() -> Seq<u8> {
    seq![0x89u8, 0x50u8, 0x4eu8, 0x47u8, 0x0du8, 0x0au8, 0x1au8, 0x0au8]
}

/// The JPEG start-of-image marker.
pub open spec fn jpeg_signature() -> Seq<u8> {
    seq![0xffu8, 0xd8u8]
}

/// The `GIF89a` header.
pub open spec fn gif_signature() -> Seq<u8> {
    seq![0x47u8, 0x49u8, 0x46u8, 0x38u8, 0x39u8, 0x61u8]
}

/// The `BM` file-type tag a bitmap opens with.
pub open spec fn bmp_signature() -> Seq<u8> {
    seq![0x42u8, 0x4du8]
}

/// The little-endian TIFF byte-order mark, `II` then 42.
pub open spec fn tiff_le_signature() -> Seq<u8> {
    seq![0x49u8, 0x49u8, 0x2au8, 0x00u8]
}

/// The big-endian TIFF byte-order mark, `MM` then 42.
pub open spec fn tiff_be_signature() -> Seq<u8> {
    seq![0x4du8, 0x4du8, 0x00u8, 0x2au8]
}

/// What format auto-detection plus decoding plus conversion to 8-bit RGB
/// returns for a byte stream: `None` when the signature is unrecognized or
/// the stream is malformed, else the dimensions and the flat RGB samples.
pub uninterp spec fn decoded_rgb(bytes: Seq<u8>) -> Option<(u32, u32, Seq<u8>)>;

/// What the PNG writer emits for an RGB image, `None` when it rejects it.
pub uninterp spec fn png_encoding(pixels: Seq<u8>, w: int, h: int) -> Option<Seq<u8>>;

/// What the JPEG writer emits for an RGB image at a given quality.
pub uninterp spec fn jpeg_encoding(pixels: Seq<u8>, w: int, h: int, quality: u8) -> Option<Seq<u8>>;

/// What the GIF writer emits for an RGB image.
pub uninterp spec fn gif_encoding(pixels: Seq<u8>, w: int, h: int) -> Option<Seq<u8>>;

/// What the BMP writer emits for an RGB image.
pub uninterp spec fn bmp_encoding(pixels: Seq<u8>, w: int, h: int) -> Option<Seq<u8>>;

/// Relies on `image::load_from_memory`, which guesses the format from the
/// stream's content and decodes it, and on `DynamicImage::to_rgb8` plus
/// `ImageBuffer::into_raw`: the decoded image is a pure function of the
/// input bytes, and the RGB8 buffer of a `w x h` image holds exactly
/// `w * h * 3` bytes.
#[verifier::external_body]
fn decode_rgb8(bytes: &[u8]) -> (r: Option<(u32, u32, Vec<u8>)>)
    ensures
        r is Some <==> decoded_rgb(bytes@) is Some,
        r is Some ==> r->Some_0.0 == decoded_rgb(bytes@)->Some_0.0,
        r is Some ==> r->Some_0.1 == decoded_rgb(bytes@)->Some_0.1,
        r is Some ==> r->Some_0.2@ == decoded_rgb(bytes@)->Some_0.2,
        r is Some ==> r->Some_0.2@.len() == r->Some_0.0 * r->Some_0.1 * 3,
{
    match image::load_from_memory(bytes) {
        Ok(img) => {
            let rgb = img.to_rgb8();
            let (w, h) = (rgb.width(), rgb.height());
            Some((w, h, rgb.into_raw()))
        },
        Err(_) => None,
    }
}

/// Relies on `DynamicImage::write_to` with `ImageOutputFormat::Png` on an
/// `RgbImage` rebuilt from the raw samples: the output is a pure function
/// of the samples and dimensions, and a PNG stream opens with the fixed
/// eight-byte PNG signature.
#[verifier::external_body]
fn encode_png(pixels: &Vec<u8>, w: u32, h: u32) -> (r: Option<Vec<u8>>)
    requires
        1 <= w,
        1 <= h,
        pixels@.len() == w * h * 3,
    ensures
        r is Some <==> png_encoding(pixels@, w as int, h as int) is Some,
        r is Some ==> png_encoding(pixels@, w as int, h as int) == Some(r->Some_0@),
        r is Some ==> starts_with(r->Some_0@, png_signature()),
{
    let img = image::RgbImage::from_raw(w, h, pixels.clone()).unwrap();
    let mut dat: Vec<u8> = Vec::new();
    let res = image::DynamicImage::ImageRgb8(img)
        .write_to(&mut std::io::Cursor::new(&mut dat), image::ImageOutputFormat::Png);
    match res {
        Ok(()) => Some(dat),
        Err(_) => None,
    }
}

/// Relies on `DynamicImage::write_to` with `ImageOutputFormat::Jpeg`: the
/// output is a pure function of the samples, dimensions and quality, and a
/// JPEG stream opens with the start-of-image marker `FF D8`.
#[verifier::external_body]
fn encode_jpeg(pixels: &Vec<u8>, w: u32, h: u32, quality: u8) -> (r: Option<Vec<u8>>)
    requires
        1 <= w,
        1 <= h,
        pixels@.len() == w * h * 3,
    ensures
        r is Some <==> jpeg_encoding(pixels@, w as int, h as int, quality) is Some,
        r is Some ==> jpeg_encoding(pixels@, w as int, h as int, quality) == Some(r->Some_0@),
        r is Some ==> starts_with(r->Some_0@, jpeg_signature()),
{
    let img = image::RgbImage::from_raw(w, h, pixels.clone()).unwrap();
    let mut dat: Vec<u8> = Vec::new();
    let res = image::DynamicImage::ImageRgb8(img)
        .write_to(&mut std::io::Cursor::new(&mut dat), image::ImageOutputFormat::Jpeg(quality));
    match res {
        Ok(()) => Some(dat),
        Err(_) => None,
    }
}

/// Relies on `DynamicImage::write_to` with `ImageOutputFormat::Gif`: the
/// output is a pure function of the samples and dimensions (the palette
/// quantizer is deterministic), and the writer emits a `GIF89a` header.
#[verifier::external_body]
fn encode_gif(pixels: &Vec<u8>, w: u32, h: u32) -> (r: Option<Vec<u8>>)
    requires
        1 <= w,
        1 <= h,
        pixels@.len() == w * h * 3,
    ensures
        r is Some <==> gif_encoding(pixels@, w as int, h as int) is Some,
        r is Some ==> gif_encoding(pixels@, w as int, h as int) == Some(r->Some_0@),
        r is Some ==> starts_with(r->Some_0@, gif_signature()),
{
    let img = image::RgbImage::from_raw(w, h, pixels.clone()).unwrap();
    let mut dat: Vec<u8> = Vec::new();
    let res = image::DynamicImage::ImageRgb8(img)
        .write_to(&mut std::io::Cursor::new(&mut dat), image::ImageOutputFormat::Gif);
    match res {
        Ok(()) => Some(dat),
        Err(_) => None,
    }
}

/// Relies on `DynamicImage::write_to` with `ImageOutputFormat::Bmp`: the
/// output is a pure function of the samples and dimensions, and a bitmap
/// opens with the `BM` file-type tag.
#[verifier::external_body]
fn encode_bmp(pixels: &Vec<u8>, w: u32, h: u32) -> (r: Option<Vec<u8>>)
    requires
        1 <= w,
        1 <= h,
        pixels@.len() == w * h * 3,
    ensures
        r is Some <==> bmp_encoding(pixels@, w as int, h as int) is Some,
        r is Some ==> bmp_encoding(pixels@, w as int, h as int) == Some(r->Some_0@),
        r is Some ==> starts_with(r->Some_0@, bmp_signature()),
{
    let img = image::RgbImage::from_raw(w, h, pixels.clone()).unwrap();
    let mut dat: Vec<u8> = Vec::new();
    let res = image::DynamicImage::ImageRgb8(img)
        .write_to(&mut std::io::Cursor::new(&mut dat), image::ImageOutputFormat::Bmp);
    match res {
        Ok(()) => Some(dat),
        Err(_) => None,
    }
}

/// Relies on `DynamicImage::write_to` with `ImageOutputFormat::Tiff`. The
/// TIFF writer emits the header in the host's byte order, so the exact
/// output is machine-dependent; all that is claimed of it is the four-byte
/// TIFF byte-order mark, `II` or `MM`, that every TIFF stream opens with.
#[verifier::external_body]
fn encode_tiff(pixels: &Vec<u8>, w: u32, h: u32) -> (r: Option<Vec<u8>>)
    requires
        1 <= w,
        1 <= h,
        pixels@.len() == w * h * 3,
    ensures
        r is Some ==> starts_with(r->Some_0@, tiff_le_signature()) || starts_with(
            r->Some_0@,
            tiff_be_signature(),
        ),
{
    let img = image::RgbImage::from_raw(w, h, pixels.clone()).unwrap();
    let mut dat: Vec<u8> = Vec::new();
    let res = image::DynamicImage::ImageRgb8(img)
        .write_to(&mut std::io::Cursor::new(&mut dat), image::ImageOutputFormat::Tiff);
    match res {
        Ok(()) => Some(dat),
        Err(_) => None,
    }
}

/// The stream each target format is expected to open with. `Same` emits a
/// bare pixel buffer, which carries no signature.
pub open spec fn matches_signature(fmt: ImageType, out: Seq<u8>) -> bool {
    match fmt {
        ImageType::Png => starts_with(out, png_signature()),
        ImageType::Jpeg => starts_with(out, jpeg_signature()),
        ImageType::Gif => starts_with(out, gif_signature()),
        ImageType::Bmp => starts_with(out, bmp_signature()),
        ImageType::Tiff => starts_with(out, tiff_le_signature()) || starts_with(
            out,
            tiff_be_signature(),
        ),
        ImageType::Same => true,
    }
}

/// What a successful write of image `v` in format `fmt` at quality `q`
/// returned: the exact encoder output for the deterministic writers, the
/// bare pixel buffer for `Same`, and for `Tiff`, whose byte order follows
/// the host, no more than its signature. In every case the output opens
/// with the format's expected signature.
pub open spec fn write_result_ok(v: RgbView, fmt: ImageType, q: u8, out: Seq<u8>) -> bool {
    matches_signature(fmt, out) && match fmt {
        ImageType::Png => png_encoding(v.pixels, v.width, v.height) == Some(out),
        ImageType::Jpeg => jpeg_encoding(v.pixels, v.width, v.height, q) == Some(out),
        ImageType::Gif => gif_encoding(v.pixels, v.width, v.height) == Some(out),
        ImageType::Bmp => bmp_encoding(v.pixels, v.width, v.height) == Some(out),
        ImageType::Tiff => true,
        ImageType::Same => out == v.pixels,
    }
}

/// Whether a write of image `v` in format `fmt` at quality `q` is allowed
/// to fail: exactly when the format's writer rejects the image. `Same`
/// never fails; of `Tiff` nothing is promised.
pub open spec fn write_may_fail(v: RgbView, fmt: ImageType, q: u8) -> bool {
    match fmt {
        ImageType::Png => png_encoding(v.pixels, v.width, v.height) is None,
        ImageType::Jpeg => jpeg_encoding(v.pixels, v.width, v.height, q) is None,
        ImageType::Gif => gif_encoding(v.pixels, v.width, v.height) is None,
        ImageType::Bmp => bmp_encoding(v.pixels, v.width, v.height) is None,
        ImageType::Tiff => true,
        ImageType::Same => false,
    }
}

/// Every successful write opens with its target format's expected
/// signature, whatever the image, the quality and the format.
pub proof fn lemma_output_signature(v: RgbView, fmt: ImageType, q: u8, out: Seq<u8>)
    requires
        write_result_ok(v, fmt, q, out),
    ensures
        matches_signature(fmt, out),
{
}

/// Decodes an encoded byte stream of auto-detected format into the
/// in-memory image. Fails with `DecodeError` exactly when the signature is
/// unrecognized, the stream is malformed, or the decoded image has a zero
/// dimension.
pub fn read_image_bytes(bytes: &[u8]) -> (r: Result<PixelImage, ConvertError>)
    ensures
        r is Ok <==> (decoded_rgb(bytes@) is Some && 1 <= decoded_rgb(bytes@)->Some_0.0 && 1 <= decoded_rgb(
            bytes@,
        )->Some_0.1),
        r is Ok ==> r->Ok_0@ == (RgbView {
            width: decoded_rgb(bytes@)->Some_0.0 as int,
            height: decoded_rgb(bytes@)->Some_0.1 as int,
            pixels: decoded_rgb(bytes@)->Some_0.2,
        }),
        r is Ok ==> r->Ok_0@.wf(),
        r is Err ==> r->Err_0 == ConvertError::DecodeError,
{
    match decode_rgb8(bytes) {
        None => Err(ConvertError::DecodeError),
        Some((w, h, pixels)) => PixelImage::from_rgb8(w, h, pixels),
    }
}

/// Serializes the image into the target format: PNG, GIF, BMP and TIFF
/// ignore the quality, JPEG applies it directly, and `Same` re-emits the
/// raw pixel buffer as it stands. Fails with `EncodeError` exactly when
/// the chosen writer rejects the image.
pub fn write_image(img: &PixelImage, img_ops: &ImageOptions) -> (r: Result<Vec<u8>, ConvertError>)
    requires
        img@.wf(),
    ensures
        r is Ok ==> write_result_ok(img@, img_ops.new_format, img_ops.image_quality, r->Ok_0@),
        r is Err ==> write_may_fail(img@, img_ops.new_format, img_ops.image_quality),
        r is Err ==> r->Err_0 == ConvertError::EncodeError,
        !write_may_fail(img@, img_ops.new_format, img_ops.image_quality) ==> r is Ok,
{
    let result = match img_ops.new_format {
        ImageType::Png => encode_png(&img.pixels, img.width, img.height),
        ImageType::Jpeg => encode_jpeg(&img.pixels, img.width, img.height, img_ops.image_quality),
        ImageType::Gif => encode_gif(&img.pixels, img.width, img.height),
        ImageType::Bmp => encode_bmp(&img.pixels, img.width, img.height),
        ImageType::Tiff => encode_tiff(&img.pixels, img.width, img.height),
        ImageType::Same => Some(slice_to_vec(img.pixels.as_slice())),
    };
    match result {
        Some(dat) => Ok(dat),
        None => Err(ConvertError::EncodeError),
    }
}

} // verus!
