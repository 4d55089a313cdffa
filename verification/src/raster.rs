//! Decoded images and the codec calls made on them.
//!
//! Format lookup, decoding, resampling and encoding are done by the `image`
//! crate. A decoded image is opaque here. What the pipeline reasons about
//! is its size, and that each call gives the same result for the same
//! arguments.

use crate::codec::{Codec, Format};
use crate::sizing::fitted_size;
use image::{GenericImageView, ImageFormat};
use vstd::prelude::*;

verus! {

/// `image::DynamicImage`, a decoded image: a grid of pixels. It is carried
/// from one codec call to the next and never looked into.
#[verifier::external_type_specification]
#[verifier::external_body]
pub struct ExDynamicImage(image::DynamicImage);

/// `image::ImageError`, what a codec reports when it fails.
#[verifier::external_type_specification]
#[verifier::external_body]
pub struct ExImageError(image::ImageError);

/// The extent of the pixel grid that `raster` holds, width first: what
/// `GenericImageView::dimensions` returns for it.
pub uninterp spec fn raster_size(raster: image::DynamicImage) -> (u32, u32);

/// The format that `ImageFormat::from_path` finds for `key`, or `None`
/// where it reports an error.
pub uninterp spec fn format_of_key(key: Seq<char>) -> Option<Format>;

/// The image that `image::load` decodes from `bytes` under `codec`, or
/// `None` where it reports an error.
pub uninterp spec fn decoded_raster(bytes: Seq<u8>, codec: Codec) -> Option<image::DynamicImage>;

/// The image that `DynamicImage::resize` makes of `raster` for the box
/// `max_width` by `max_height` with the nearest-neighbour filter.
pub uninterp spec fn resized_raster(
    raster: image::DynamicImage,
    max_width: u32,
    max_height: u32,
) -> image::DynamicImage;

/// The bytes that `DynamicImage::write_to` writes for `raster` under
/// `codec`, or `None` where it reports an error.
pub uninterp spec fn encoded_bytes(raster: image::DynamicImage, codec: Codec) -> Option<Seq<u8>>;

/// Looks up the format that an object key calls for with
/// `ImageFormat::from_path`, which goes by the extension that the
/// platform's path rules find in the key, without regard to case.
///
/// Nothing is claimed about which keys call for which format, only that
/// the outcome is a function of the key: it is recorded as `format_of_key`.
/// The format found is handed out under its own name.
#[verifier::external_body]
pub(crate) fn format_for_key(key: &str) -> (found: Result<Format, image::ImageError>)
    ensures
        match found {
            Ok(format) => format_of_key(key@) == Some(format),
            Err(_) => format_of_key(key@) is None,
        },
{
    Ok(match ImageFormat::from_path(key)? {
        ImageFormat::Png => Format::Png,
        ImageFormat::Jpeg => Format::Jpeg,
        ImageFormat::Gif => Format::Gif,
        ImageFormat::WebP => Format::WebP,
        ImageFormat::Pnm => Format::Pnm,
        ImageFormat::Tiff => Format::Tiff,
        ImageFormat::Tga => Format::Tga,
        ImageFormat::Dds => Format::Dds,
        ImageFormat::Bmp => Format::Bmp,
        ImageFormat::Ico => Format::Ico,
        ImageFormat::Hdr => Format::Hdr,
        ImageFormat::Farbfeld => Format::Farbfeld,
        ImageFormat::Avif => Format::Avif,
        _ => Format::Other })
}

/// Decodes `bytes` as a PNG or a JPEG image with `image::load`.
///
/// Nothing is claimed about which byte streams it accepts, only that the
/// outcome is a function of the bytes and the codec: it is recorded as
/// `decoded_raster`. No decoder but these two is ever called.
#[verifier::external_body]
pub(crate) fn decode(bytes: &[u8], codec: Codec) -> (decoded: Result<
    image::DynamicImage,
    image::ImageError,
>)
    ensures
        match decoded {
            Ok(raster) => decoded_raster(bytes@, codec) == Some(raster),
            Err(_) => decoded_raster(bytes@, codec) is None,
        },
{
    let format = match codec {
        Codec::Png => ImageFormat::Png,
        Codec::Jpeg => ImageFormat::Jpeg,
    };
    image::load(std::io::Cursor::new(bytes), format)
}

/// Reads the extent of a decoded image with `GenericImageView::dimensions`.
#[verifier::external_body]
pub(crate) fn dimensions(raster: &image::DynamicImage) -> (size: (u32, u32))
    ensures
        size == raster_size(*raster),
{
    raster.dimensions()
}

/// Scales `raster` into the box `max_width` by `max_height` with
/// `DynamicImage::resize` and the nearest-neighbour filter.
///
/// `resize` is documented to keep the aspect ratio and to scale to the
/// largest size that fits the box. The size it computes for that, in whole
/// numbers, is claimed to be `fitted_size`. The image it returns is a
/// function of the image and the box: it is recorded as `resized_raster`.
/// An image or a box without pixels is left out: for such an image `resize`
/// divides by zero.
#[verifier::external_body]
pub(crate) fn resize_nearest(raster: &image::DynamicImage, max_width: u32, max_height: u32) -> (scaled:
    image::DynamicImage)
    requires
        raster_size(*raster).0 >= 1,
        raster_size(*raster).1 >= 1,
        max_width >= 1,
        max_height >= 1,
    ensures
        scaled == resized_raster(*raster, max_width, max_height),
        (raster_size(scaled).0 as int, raster_size(scaled).1 as int) == fitted_size(
            raster_size(*raster).0 as int,
            raster_size(*raster).1 as int,
            max_width as int,
            max_height as int,
        ),
{
    raster.resize(max_width, max_height, image::imageops::FilterType::Nearest)
}

/// Encodes `raster` as a PNG or a JPEG image with `DynamicImage::write_to`,
/// into memory.
///
/// Nothing is claimed about what the bytes are, only that the outcome is a
/// function of the image and the codec: it is recorded as `encoded_bytes`.
#[verifier::external_body]
pub(crate) fn encode(raster: &image::DynamicImage, codec: Codec) -> (encoded: Result<
    Vec<u8>,
    image::ImageError,
>)
    ensures
        match encoded {
            Ok(bytes) => encoded_bytes(*raster, codec) == Some(bytes@),
            Err(_) => encoded_bytes(*raster, codec) is None,
        },
{
    let format = match codec {
        Codec::Png => ImageFormat::Png,
        Codec::Jpeg => ImageFormat::Jpeg,
    };
    let mut sink = std::io::Cursor::new(Vec::new());
    match raster.write_to(&mut sink, format) {
        Ok(()) => Ok(sink.into_inner()),
        Err(error) => Err(error),
    }
}

} // verus!
