//! A verified image conversion pipeline.
//!
//! The library turns an input image, either a fully encoded byte stream of
//! auto-detected format or a raw 8-bit RGB pixel buffer with explicit
//! dimensions, into a re-encoded byte stream in a caller-selected output
//! format, optionally resized to fit within a bounding dimension and, for
//! lossy formats, quality-adjusted.
//!
//! Decoding, resampling and the format writers come from the `image` crate
//! and are called through a small set of trusted wrappers; everything around
//! them, the options model, the pixel-buffer invariants, the bounding-box
//! dimension arithmetic, the format dispatch and the orchestration of the two
//! entry points, is verified.

pub mod codec;
pub mod errors;
pub mod options;
pub mod pipeline;
pub mod pixel;
pub mod resize;

pub use codec::{read_image_bytes, write_image};
pub use errors::ConvertError;
pub use options::parse_image_operations;
pub use options::{ImageOptions, ImageOptionsInput, ImageType};
pub use pipeline::{process_heif_image, process_image, process_image_ops};
pub use pixel::PixelImage;
pub use resize::{fit_dimensions, resize_image};
