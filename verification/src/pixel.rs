use vstd::prelude::*;

verus! {

use crate::errors::ConvertError;

/// The mathematical model of an in-memory image: dimensions in pixels and
/// the flat, row-major 8-bit RGB sample sequence.
pub ghost struct RgbView {
    pub width: int,
    pub height: int,
    pub pixels: Seq<u8>,
}

impl RgbView {
    /// Well-formedness: positive dimensions, and exactly three samples per
    /// pixel.
    pub open spec fn wf(self) -> bool {
        1 <= self.width && 1 <= self.height && self.pixels.len() == self.width * self.height * 3
    }
}

/// The in-memory image every entry path converges on before resizing and
/// encoding: an 8-bit RGB pixel buffer, row-major, no padding.
///
/// Invariant (`wf` on the view): `width >= 1`, `height >= 1`, and the buffer
/// holds exactly `width * height * 3` bytes. A mismatch is a construction
/// error, never a runtime corruption: `from_rgb8` checks it, and every
/// pipeline step requires and preserves it.
#[derive(Debug, PartialEq)]
pub struct PixelImage {
    pub width: u32,
    pub height: u32,
    pub pixels: Vec<u8>,
}

impl View for PixelImage {
    type V = RgbView;

    open spec fn view(&self) -> RgbView {
        RgbView { width: self.width as int, height: self.height as int, pixels: self.pixels@ }
    }
}

impl PixelImage {
    /// Constructs the image from explicit dimensions and a flat RGB buffer.
    /// Fails with `DecodeError` exactly when the buffer length does not
    /// equal `width * height * 3` or a dimension is zero.
    pub fn from_rgb8(width: u32, height: u32, pixels: Vec<u8>) -> (r: Result<PixelImage, ConvertError>)
        ensures
            r is Ok <==> (1 <= width && 1 <= height && pixels@.len() == width * height * 3),
            r is Ok ==> r->Ok_0@ == (RgbView {
                width: width as int,
                height: height as int,
                pixels: pixels@,
            }),
            r is Ok ==> r->Ok_0@.wf(),
            r is Err ==> r->Err_0 == ConvertError::DecodeError,
    {
        if width == 0 || height == 0 {
            return Err(ConvertError::DecodeError);
        }
        proof {
            assert((width as int) * (height as int) <= u64::MAX as int) by (nonlinear_arith)
                requires
                    width <= u32::MAX,
                    height <= u32::MAX,
            ;
        }
        let samples: u64 = width as u64 * height as u64;
        let len: u64 = pixels.len() as u64;
        if len % 3 == 0 && len / 3 == samples {
            proof {
                assert(pixels@.len() == width * height * 3) by (nonlinear_arith)
                    requires
                        len == pixels@.len(),
                        samples == width * height,
                        len % 3 == 0,
                        len / 3 == samples,
                ;
            }
            Ok(PixelImage { width, height, pixels })
        } else {
            proof {
                assert(pixels@.len() != width * height * 3) by (nonlinear_arith)
                    requires
                        len == pixels@.len(),
                        samples == width * height,
                        !(len % 3 == 0 && len / 3 == samples),
                ;
            }
            Err(ConvertError::DecodeError)
        }
    }
}

} // verus!
