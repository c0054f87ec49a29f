use vstd::prelude::*;

verus! {

use crate::codec::{decoded_rgb, read_image_bytes, write_image, write_may_fail, write_result_ok};
use crate::errors::ConvertError;
use crate::options::{parse_image_operations, spec_resolve_options, ImageOptions, ImageOptionsInput, ImageType};
use crate::pixel::{PixelImage, RgbView};
use crate::resize::{fit_dimensions, resize_fits, resize_image, spec_resize};
use vstd::arithmetic::div_mod::lemma_fundamental_div_mod;
use vstd::slice::slice_to_vec;

/// What the resize-and-encode tail of the pipeline guarantees for an image
/// `v0`, a resolved configuration `ops` and a result `r`: the image the
/// bounding box cannot fit on this machine is refused with `EncodeError`;
/// otherwise the resized image is written exactly as `write_image` states,
/// failing, with `EncodeError`, only where the format's writer may.
pub open spec fn converted_ok(v0: RgbView, ops: ImageOptions, r: Result<Vec<u8>, ConvertError>) -> bool {
    let v = spec_resize(v0, ops.max_size as int);
    &&& !resize_fits(v0, ops.max_size as int) ==> r is Err && r->Err_0
        == ConvertError::EncodeError
    &&& resize_fits(v0, ops.max_size as int) ==> {
        &&& r is Ok ==> write_result_ok(v, ops.new_format, ops.image_quality, r->Ok_0@)
        &&& r is Err ==> write_may_fail(v, ops.new_format, ops.image_quality) && r->Err_0
            == ConvertError::EncodeError
        &&& !write_may_fail(v, ops.new_format, ops.image_quality) ==> r is Ok
    }
}

/// Resizes the image to fit within `max_size` and serializes it in the
/// target format: the common tail both entry points converge on.
pub fn process_image_ops(image: &PixelImage, image_operations: &ImageOptions) -> (r: Result<
    Vec<u8>,
    ConvertError,
>)
    requires
        image@.wf(),
    ensures
        converted_ok(image@, *image_operations, r),
{
    let n = image_operations.max_size;
    if n > 0 {
        let (fw, fh) = fit_dimensions(image.width, image.height, n);
        proof {
            assert(fw as int * fh as int <= u64::MAX as int) by (nonlinear_arith)
                requires
                    fw <= u32::MAX,
                    fh <= u32::MAX,
            ;
        }
        let prod: u64 = fw as u64 * fh as u64;
        let limit: u64 = usize::MAX as u64 / 3;
        proof {
            lemma_fundamental_div_mod(usize::MAX as int, 3);
        }
        if prod > limit {
            return Err(ConvertError::EncodeError);
        }
    }
    let resized_img = resize_image(image, n);
    write_image(&resized_img, image_operations)
}

/// Converts a complete encoded image of auto-detected format into the
/// target format the options select, resized to fit within `max_size`.
///
/// When the options resolve to "no conversion" the input bytes come back
/// untouched, byte for byte, with no decode at all. Otherwise the stream is
/// decoded (`DecodeError` when that is impossible), resized and re-encoded
/// (`EncodeError` when the writer refuses or the machine cannot hold the
/// output), and every success opens with the target format's signature.
pub fn process_image(bytes: &[u8], input: &ImageOptionsInput) -> (r: Result<
    Vec<u8>,
    ConvertError,
>)
    ensures
        ({
            let ops = spec_resolve_options(*input);
            &&& ops.new_format == ImageType::Same ==> r is Ok && r->Ok_0@ == bytes@
            &&& ops.new_format != ImageType::Same ==> {
                &&& decoded_rgb(bytes@) is None ==> r is Err && r->Err_0
                    == ConvertError::DecodeError
                &&& decoded_rgb(bytes@) is Some ==> ({
                    let t = decoded_rgb(bytes@)->Some_0;
                    let v0 = RgbView { width: t.0 as int, height: t.1 as int, pixels: t.2 };
                    &&& (t.0 == 0 || t.1 == 0) ==> r is Err && r->Err_0
                        == ConvertError::DecodeError
                    &&& (1 <= t.0 && 1 <= t.1) ==> converted_ok(v0, ops, r)
                })
            }
        }),
{
    let img_ops = parse_image_operations(input);

    let return_same = match img_ops.new_format {
        ImageType::Same => true,
        _ => false,
    };

    if return_same {
        return Ok(slice_to_vec(bytes));
    }

    let image = match read_image_bytes(bytes) {
        Ok(image) => image,
        Err(err) => {
            return Err(err);
        },
    };

    process_image_ops(&image, &img_ops)
}

/// Converts a raw, already decoded 8-bit RGB buffer with explicit
/// dimensions: the entry point for formats an upstream collaborator
/// decodes. The buffer must hold exactly `width * height * 3` bytes, else
/// `DecodeError`. "No conversion" is remapped to JPEG here: a caller that
/// already holds raw samples needs an encoded container back, so there is
/// no passthrough on this path.
pub fn process_heif_image(
    bytes: &[u8],
    width: u32,
    height: u32,
    input: &ImageOptionsInput,
) -> (r: Result<Vec<u8>, ConvertError>)
    ensures
        ({
            let ops0 = spec_resolve_options(*input);
            let ops = ImageOptions {
                new_format: if ops0.new_format == ImageType::Same {
                    ImageType::Jpeg
                } else {
                    ops0.new_format
                },
                ..ops0
            };
            let v0 = RgbView { width: width as int, height: height as int, pixels: bytes@ };
            &&& (bytes@.len() != width * height * 3 || width == 0 || height == 0) ==> r is Err
                && r->Err_0 == ConvertError::DecodeError
            &&& (bytes@.len() == width * height * 3 && 1 <= width && 1 <= height)
                ==> converted_ok(v0, ops, r)
        }),
{
    let mut img_ops = parse_image_operations(input);
    img_ops.new_format = match img_ops.new_format {
        ImageType::Same => ImageType::Jpeg,
        other => other,
    };

    let pixels = slice_to_vec(bytes);
    let image = match PixelImage::from_rgb8(width, height, pixels) {
        Ok(buf) => buf,
        Err(err) => {
            return Err(err);
        },
    };

    process_image_ops(&image, &img_ops)
}

} // verus!
