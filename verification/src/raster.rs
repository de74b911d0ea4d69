//! The frame source's decoder: from the bytes of a PNG file to a frame of
//! the display's size.
//!
//! Decoding and resampling are the `image` crate's work. This module holds
//! the calls, states what is taken on trust about each, and proves on which
//! bytes a frame comes out and that it has exactly the size that was asked
//! for.

use crate::frame::pixel_area;
use crate::frame::RgbaFrame;
use vstd::prelude::*;

verus! {

/// A decoded raster of the `image` crate. Its pixels are not visible to the
/// verifier.
#[verifier::external_type_specification]
#[verifier::external_body]
pub struct ExDynamicImage(image::DynamicImage);

/// The `image` crate's decoding error.
#[verifier::external_type_specification]
#[verifier::external_body]
pub struct ExImageError(image::ImageError);

/// Width and height of a decoded raster, in pixels.
pub uninterp spec fn raster_extent(raster: image::DynamicImage) -> (nat, nat);

/// What the PNG decoder makes of `bytes`: the width and height of the image
/// they hold, or `None` where the decoder refuses them.
pub uninterp spec fn png_extent(bytes: Seq<u8>) -> Option<(nat, nat)>;

/// Why no frame could be made of an image.
#[derive(Clone, Copy, Debug, PartialEq, Eq, Structural)]
pub enum DecodeError {
    /// The bytes are not a PNG image that the decoder accepts.
    Malformed,
    /// The image or the target is too large to resample in memory.
    TooLarge,
}

/// Whether `frame` is a whole frame of `width` by `height` pixels.
pub open spec fn is_frame_of(frame: RgbaFrame, width: u32, height: u32) -> bool {
    &&& frame.width() == width
    &&& frame.height() == height
    &&& frame@.len() == 4 * (width as nat * height as nat)
}

/// Whether buffers of 16 bytes per pixel fit in memory for a raster of
/// `width` by `height` pixels. This is the most a resampling step needs.
pub open spec fn fits_in_memory(width: nat, height: nat) -> bool {
    16 * (width * height) <= isize::MAX
}

/// Whether a raster of `source_width` can be resampled to `width` by
/// `height`: both the intermediate raster, of the source's width and the
/// target's height, and the result fit in memory.
pub open spec fn can_resample(source_width: nat, width: u32, height: u32) -> bool {
    fits_in_memory(source_width, height as nat) && fits_in_memory(width as nat, height as nat)
}

/// `image::load_from_memory_with_format` with the PNG format: decodes the
/// bytes of a PNG file. The call reads nothing but its argument, so the same
/// bytes are always accepted or always refused, and an image that they hold
/// always has the same extent: `png_extent` names that verdict. What makes
/// bytes acceptable is the decoder's business and is not stated.
#[verifier::external_body]
fn decode_raster(bytes: &[u8]) -> (decoded: Result<image::DynamicImage, image::ImageError>)
    ensures
        match decoded {
            Ok(raster) => png_extent(bytes@) == Some(raster_extent(raster)),
            Err(_) => png_extent(bytes@) is None,
        },
{
    image::load_from_memory_with_format(bytes, image::ImageFormat::Png)
}

/// `GenericImageView::dimensions` of a `DynamicImage`: the raster's width and
/// height.
#[verifier::external_body]
fn raster_size(raster: &image::DynamicImage) -> (size: (u32, u32))
    ensures
        (size.0 as nat, size.1 as nat) == raster_extent(*raster),
{
    image::GenericImageView::dimensions(raster)
}

/// `DynamicImage::resize_exact` with the Lanczos filter of window 3: a new
/// raster of exactly `width` by `height` pixels, whatever the source's aspect
/// ratio. The call allocates a raster of the source's width and the target's
/// height with four 32-bit samples per pixel, and the result; it panics
/// where either is too large for a vector, which `requires` rules out.
#[verifier::external_body]
fn resize_exact(raster: &image::DynamicImage, width: u32, height: u32) -> (resized:
    image::DynamicImage)
    requires
        can_resample(raster_extent(*raster).0, width, height),
    ensures
        raster_extent(resized) == (width as nat, height as nat),
{
    raster.resize_exact(width, height, image::imageops::FilterType::Lanczos3)
}

/// `DynamicImage::to_rgba8`, read pixel by pixel: the raster as RGBA bytes
/// in row-major order, four for each pixel and no more. A raster without
/// alpha comes out opaque.
#[verifier::external_body]
fn rgba_bytes(raster: &image::DynamicImage) -> (rgba: Vec<u8>)
    requires
        fits_in_memory(raster_extent(*raster).0, raster_extent(*raster).1),
    ensures
        rgba@.len() == 4 * (raster_extent(*raster).0 * raster_extent(*raster).1),
{
    raster.to_rgba8().pixels().flat_map(|pixel| pixel.0).collect()
}

/// Tests whether buffers of 16 bytes per pixel fit in memory for a raster of
/// `width` by `height` pixels.
pub fn check_fits_in_memory(width: u32, height: u32) -> (fits: bool)
    ensures
        fits == fits_in_memory(width as nat, height as nat),
{
    let area: u64 = pixel_area(width, height);
    16 * (area as u128) <= isize::MAX as u128
}

/// Resamples a decoded raster to exactly `width` by `height` pixels and
/// reads it out as an RGBA frame. The raster is stretched to the target: its
/// aspect ratio is not kept.
pub fn resample(raster: &image::DynamicImage, width: u32, height: u32) -> (frame: Result<
    RgbaFrame,
    DecodeError,
>)
    ensures
        frame is Ok <==> can_resample(raster_extent(*raster).0, width, height),
        frame matches Ok(f) ==> is_frame_of(f, width, height),
        frame matches Err(e) ==> e == DecodeError::TooLarge,
{
    let (source_width, _) = raster_size(raster);
    if !check_fits_in_memory(source_width, height) || !check_fits_in_memory(width, height) {
        return Err(DecodeError::TooLarge);
    }
    let resized = resize_exact(raster, width, height);
    let rgba = rgba_bytes(&resized);
    let frame = RgbaFrame::from_raw(width, height, rgba);
    Ok(frame.unwrap())
}

/// Makes a frame of what the decoder returned: a raster is resampled to
/// `width` by `height`, and a refusal of the decoder becomes
/// [`DecodeError::Malformed`].
pub fn frame_from_decoded(
    decoded: Result<image::DynamicImage, image::ImageError>,
    width: u32,
    height: u32,
) -> (frame: Result<RgbaFrame, DecodeError>)
    ensures
        frame is Ok <==> (decoded matches Ok(raster) && can_resample(
            raster_extent(raster).0,
            width,
            height,
        )),
        frame matches Ok(f) ==> is_frame_of(f, width, height),
        frame matches Err(e) ==> (e == DecodeError::Malformed <==> decoded is Err),
        frame matches Err(e) ==> (e == DecodeError::TooLarge <==> decoded is Ok),
{
    match decoded {
        Ok(raster) => resample(&raster, width, height),
        Err(_) => Err(DecodeError::Malformed),
    }
}

/// Whether a frame of `width` by `height` pixels can be made of `bytes`: the
/// decoder accepts them, and the image they hold can be resampled to that
/// size.
pub open spec fn can_make_frame(bytes: Seq<u8>, width: u32, height: u32) -> bool {
    png_extent(bytes) matches Some(extent) && can_resample(extent.0, width, height)
}

/// Decodes the bytes of a PNG file and resamples the image to exactly
/// `width` by `height` pixels.
///
/// A frame comes back exactly for the bytes that the decoder accepts and
/// whose image can be resampled to the target; it has the size that was
/// asked for. Bytes that the decoder refuses are [`DecodeError::Malformed`],
/// whatever the target; an image that cannot be resampled to the target is
/// [`DecodeError::TooLarge`].
pub fn decode_and_resample(bytes: &[u8], width: u32, height: u32) -> (frame: Result<
    RgbaFrame,
    DecodeError,
>)
    ensures
        frame is Ok <==> can_make_frame(bytes@, width, height),
        frame matches Ok(f) ==> is_frame_of(f, width, height),
        frame matches Err(e) ==> (e == DecodeError::Malformed <==> png_extent(bytes@) is None),
        frame matches Err(e) ==> (e == DecodeError::TooLarge <==> png_extent(bytes@) is Some),
{
    frame_from_decoded(decode_raster(bytes), width, height)
}

} // verus!
