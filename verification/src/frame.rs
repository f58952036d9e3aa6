//! Decoded frame buffers and the decode/resize step that produces them.
//!
//! A loader worker hands the raw bytes of a source file to `decode_frame`,
//! which decodes them as an image and resizes the result to exactly the
//! display resolution. Decoding and resampling are done by the `image`
//! crate behind trusted wrappers; everything downstream relies only on the
//! stated dimensions.

use vstd::prelude::*;

verus! {

/// Why a frame could not be produced.
#[derive(Clone, Copy, Debug, PartialEq, Eq, Structural)]
pub enum LoadError {
    /// The source file was missing or unreadable.
    Io,
    /// The file contents are not a decodable image.
    Decode,
}

/// A decoded frame: a tightly packed RGB pixel grid, three bytes per
/// pixel, row-major. Produced once by a loader worker, moved into its
/// lane queue, and moved out to the scheduler; never shared.
pub struct FrameBuffer {
    pub width: u32,
    pub height: u32,
    pub pixels: Vec<u8>,
}

impl FrameBuffer {
    /// The pixel data covers the stated dimensions exactly.
    pub open spec fn wf(&self) -> bool {
        self.pixels@.len() == 3 * (self.width as int) * (self.height as int)
    }

    /// Wraps an already decoded pixel grid.
    pub fn new(width: u32, height: u32, pixels: Vec<u8>) -> (fb: FrameBuffer)
        requires
            pixels@.len() == 3 * (width as int) * (height as int),
        ensures
            fb.wf(),
            fb.width == width,
            fb.height == height,
            fb.pixels == pixels,
    {
        FrameBuffer { width, height, pixels }
    }
}

// Whether `image::load_from_memory` accepts these bytes as an image:
// format detection and decoding read the bytes alone, so decodability is
// a function of the byte sequence.
pub uninterp spec fn is_decodable(bytes: Seq<u8>) -> bool;

#[verifier::external_type_specification]
#[verifier::external_body]
pub struct ExDynamicImage(image::DynamicImage);

#[verifier::external_type_specification]
#[verifier::external_body]
pub struct ExImageError(image::ImageError);

/// Relies on `image::load_from_memory`: decodes in-memory bytes as an
/// image, guessing the format from the bytes themselves; it succeeds
/// exactly on decodable input and reports the rest as an error.
#[verifier::external_body]
fn decode_image(bytes: &[u8]) -> (r: Result<image::DynamicImage, image::ImageError>)
    ensures
        r is Ok <==> is_decodable(bytes@),
{
    image::load_from_memory(bytes)
}

/// Relies on `image::DynamicImage::resize_exact`, which resamples to
/// exactly the requested dimensions without preserving aspect ratio, and
/// on `DynamicImage::to_rgb8` / `ImageBuffer::into_raw`, whose raw buffer
/// holds three bytes per pixel. `ImageBuffer::new` panics when the buffer
/// length overflows `usize`, so that case is excluded here.
#[verifier::external_body]
fn resize_to_rgb(img: &image::DynamicImage, width: u32, height: u32) -> (fb: FrameBuffer)
    requires
        width >= 1,
        height >= 1,
        3 * (width as int) * (height as int) <= usize::MAX,
    ensures
        fb.width == width,
        fb.height == height,
        fb.wf(),
{
    let buf = img.resize_exact(width, height, image::imageops::FilterType::Triangle).to_rgb8();
    FrameBuffer { width, height, pixels: buf.into_raw() }
}

/// Decodes `bytes` as an image and resizes it to exactly
/// `width` by `height`. It succeeds exactly when the bytes decode —
/// resampling never fails — and every frame it returns has the
/// configured target dimensions, whatever the source image's size or
/// aspect ratio; undecodable bytes are rejected with `LoadError::Decode`.
pub fn decode_frame(bytes: &Vec<u8>, width: u32, height: u32) -> (r: Result<
    FrameBuffer,
    LoadError,
>)
    requires
        width >= 1,
        height >= 1,
        3 * (width as int) * (height as int) <= usize::MAX,
    ensures
        r is Ok <==> is_decodable(bytes@),
        match r {
            Ok(fb) => fb.wf() && fb.width == width && fb.height == height,
            Err(e) => e == LoadError::Decode,
        },
{
    match decode_image(bytes.as_slice()) {
        Ok(img) => Ok(resize_to_rgb(&img, width, height)),
        Err(_) => Err(LoadError::Decode),
    }
}

} // verus!
