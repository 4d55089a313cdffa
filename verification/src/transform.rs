//! Image transformation: bytes in, bytes of an image that fits the box out,
//! in the same format.
//!
//! The format is chosen from the object key, never from the payload, and
//! only PNG and JPEG are worked on. The image is decoded, fitted into
//! `MAX_WIDTH` by `MAX_HEIGHT` with the same filter on every run, and
//! encoded again with the codec it was decoded with.

use crate::codec::{codec_of, supported, Codec};
use crate::error::{ErrorKind, Failure, PipelineError};
use crate::raster::{
    decode,
    decoded_raster,
    dimensions,
    encode,
    encoded_bytes,
    format_for_key,
    format_of_key,
    raster_size,
    resize_nearest,
    resized_raster,
};
use crate::sizing::{
    fitted_size,
    lemma_fitted_size_in_box,
    lemma_fitted_size_keeps_shape,
    width_bound,
    MAX_HEIGHT,
    MAX_WIDTH,
};
use vstd::prelude::*;
use vstd::string::*;

verus! {

/// An encoded image together with its size and the size of the image it was
/// made from.
#[derive(Clone, Debug, PartialEq, Eq)]
pub struct TransformedImage {
    pub bytes: Vec<u8>,
    pub width: u32,
    pub height: u32,
    pub source_width: u32,
    pub source_height: u32,
}

/// Mathematical model of a [`TransformedImage`].
pub struct ImageModel {
    pub bytes: Seq<u8>,
    pub width: int,
    pub height: int,
    pub source_width: int,
    pub source_height: int,
}

impl ImageModel {
    /// The source has pixels, and the image has the size that the source
    /// takes when fitted into `MAX_WIDTH` by `MAX_HEIGHT`.
    pub open spec fn wf(self) -> bool {
        &&& self.source_width >= 1
        &&& self.source_height >= 1
        &&& (self.width, self.height) == fitted_size(
            self.source_width,
            self.source_height,
            MAX_WIDTH as int,
            MAX_HEIGHT as int,
        )
    }
}

impl View for TransformedImage {
    type V = ImageModel;

    open spec fn view(&self) -> ImageModel {
        ImageModel {
            bytes: self.bytes@,
            width: self.width as int,
            height: self.height as int,
            source_width: self.source_width as int,
            source_height: self.source_height as int,
        }
    }
}

/// Whether `failure` is one that the transformation of the object at `key`
/// can end with.
pub open spec fn transform_failure(failure: Failure, key: Seq<char>) -> bool {
    match failure {
        Failure::UnrecognizedFormat { key: subject, .. } => subject == key,
        Failure::CorruptImage { key: subject, .. } => subject == key,
        Failure::EncodeError { key: subject, .. } => subject == key,
        _ => false,
    }
}

/// A well-formed image is at least one pixel and at most `MAX_WIDTH` by
/// `MAX_HEIGHT` pixels large, and as wide or as high as that box.
pub proof fn lemma_image_in_box(image: ImageModel)
    requires
        image.wf(),
    ensures
        1 <= image.width <= MAX_WIDTH,
        1 <= image.height <= MAX_HEIGHT,
        image.width == MAX_WIDTH || image.height == MAX_HEIGHT,
{
    lemma_fitted_size_in_box(
        image.source_width,
        image.source_height,
        MAX_WIDTH as int,
        MAX_HEIGHT as int,
    );
}

/// A well-formed image has the shape of its source up to rounding: the
/// scaled side is within one pixel of the exact proportion. Stated without
/// division, the cross products of the two sizes differ by less than the
/// source's width where the width of the box binds, and by less than the
/// source's height otherwise.
pub proof fn lemma_image_keeps_shape(image: ImageModel)
    requires
        image.wf(),
    ensures
        ({
            let skew = image.width * image.source_height - image.height * image.source_width;
            let slack = if width_bound(
                image.source_width,
                image.source_height,
                MAX_WIDTH as int,
                MAX_HEIGHT as int,
            ) {
                image.source_width
            } else {
                image.source_height
            };
            -slack < skew < slack
        }),
{
    lemma_fitted_size_keeps_shape(
        image.source_width,
        image.source_height,
        MAX_WIDTH as int,
        MAX_HEIGHT as int,
    );
}

/// Model of an outcome of the transformation.
pub open spec fn outcome_model(transformed: Result<TransformedImage, PipelineError>) -> Result<
    ImageModel,
    Failure,
> {
    match transformed {
        Ok(image) => Ok(image@),
        Err(error) => Err(error@),
    }
}

/// What the transformation of the object at `key` ends with once the
/// encoder has spoken: the bytes it produced, unchanged, with the sizes
/// measured before and after scaling, or an `EncodeError` with what it
/// reported.
pub open spec fn packaged(
    encoded: Result<Seq<u8>, Seq<char>>,
    key: Seq<char>,
    source: (u32, u32),
    size: (u32, u32),
) -> Result<ImageModel, Failure> {
    match encoded {
        Ok(bytes) => Ok(
            ImageModel {
                bytes,
                width: size.0 as int,
                height: size.1 as int,
                source_width: source.0 as int,
                source_height: source.1 as int,
            },
        ),
        Err(cause) => Err(Failure::EncodeError { key, cause }),
    }
}

/// Ends the transformation of the object at `key`: `encoded` is what the
/// encoder produced or reported, `source` and `size` are width and height
/// before and after scaling.
pub fn package(encoded: Result<Vec<u8>, String>, key: &str, source: (u32, u32), size: (u32, u32)) -> (done:
    Result<TransformedImage, PipelineError>)
    ensures
        outcome_model(done) == packaged(
            match encoded {
                Ok(bytes) => Ok(bytes@),
                Err(cause) => Err(cause@),
            },
            key@,
            source,
            size,
        ),
{
    match encoded {
        Ok(bytes) => Ok(
            TransformedImage {
                bytes,
                width: size.0,
                height: size.1,
                source_width: source.0,
                source_height: source.1,
            },
        ),
        Err(cause) => Err(PipelineError::EncodeError { key: String::from_str(key), cause }),
    }
}

/// What the transformation of `bytes` under `codec` comes to: the image
/// that the bytes decode to is fitted into `MAX_WIDTH` by `MAX_HEIGHT` and
/// encoded under the same codec, and the result holds the encoder's bytes
/// with the extent of the image before and after. Bytes that do not decode,
/// and an image without pixels, are a `CorruptImage`; a fitted image that
/// does not encode is an `EncodeError`.
pub open spec fn transformation(bytes: Seq<u8>, codec: Codec) -> Result<ImageModel, ErrorKind> {
    match decoded_raster(bytes, codec) {
        None => Err(ErrorKind::CorruptImage),
        Some(raster) => if raster_size(raster).0 == 0 || raster_size(raster).1 == 0 {
            Err(ErrorKind::CorruptImage)
        } else {
            let scaled = resized_raster(raster, MAX_WIDTH, MAX_HEIGHT);
            match encoded_bytes(scaled, codec) {
                None => Err(ErrorKind::EncodeError),
                Some(encoded) => Ok(
                    ImageModel {
                        bytes: encoded,
                        width: raster_size(scaled).0 as int,
                        height: raster_size(scaled).1 as int,
                        source_width: raster_size(raster).0 as int,
                        source_height: raster_size(raster).1 as int,
                    },
                ),
            }
        },
    }
}

/// The codec that the object at `key` is transformed under: the one for the
/// format that the key calls for. A key that calls for no format has none,
/// and neither has a key that calls for a format outside the supported
/// ones.
pub open spec fn codec_of_key(key: Seq<char>) -> Option<Codec> {
    match format_of_key(key) {
        None => None,
        Some(format) => codec_of(format),
    }
}

/// What the transformation of the payload `bytes` of the object at `key`
/// comes to: an `UnrecognizedFormat` where the key has no codec, and what
/// the transformation under its codec comes to otherwise. The payload has
/// no say in which codec is used.
pub open spec fn transformation_for_key(bytes: Seq<u8>, key: Seq<char>) -> Result<
    ImageModel,
    ErrorKind,
> {
    match codec_of_key(key) {
        None => Err(ErrorKind::UnrecognizedFormat),
        Some(codec) => transformation(bytes, codec),
    }
}

/// Whether `done` is the outcome `owed` for the object at `key`: the very
/// image where one is owed, and otherwise a failure of the owed kind that
/// names the key.
pub open spec fn ends_as(
    done: Result<ImageModel, Failure>,
    owed: Result<ImageModel, ErrorKind>,
    key: Seq<char>,
) -> bool {
    match owed {
        Ok(image) => done == Ok::<ImageModel, Failure>(image),
        Err(kind) => done matches Err(failure) && failure.kind() == kind && transform_failure(
            failure,
            key,
        ),
    }
}

/// Transforms `bytes` under `codec`, for the object at `key`: decodes them,
/// fits the image into `MAX_WIDTH` by `MAX_HEIGHT` and encodes it under the
/// same codec.
///
/// The outcome is the one that `transformation` gives for the bytes and the
/// codec. A result is well-formed, so the image that was encoded lies in
/// the box and has the shape of its source.
pub fn transform_as(bytes: &[u8], key: &str, codec: Codec) -> (done: Result<
    TransformedImage,
    PipelineError,
>)
    ensures
        ends_as(outcome_model(done), transformation(bytes@, codec), key@),
        done matches Ok(image) ==> image@.wf() && image.width <= MAX_WIDTH && image.height
            <= MAX_HEIGHT,
{
    let raster = match decode(bytes, codec) {
        Ok(raster) => raster,
        Err(error) => {
            return Err(
                PipelineError::CorruptImage { key: String::from_str(key), cause: error.to_string() },
            );
        },
    };
    let source = dimensions(&raster);
    if source.0 == 0 || source.1 == 0 {
        return Err(
            PipelineError::CorruptImage {
                key: String::from_str(key),
                cause: String::from_str("the image has no pixels"),
            },
        );
    }
    let scaled = resize_nearest(&raster, MAX_WIDTH, MAX_HEIGHT);
    let size = dimensions(&scaled);
    let encoded = match encode(&scaled, codec) {
        Ok(bytes) => Ok(bytes),
        Err(error) => Err(error.to_string()),
    };
    let done = package(encoded, key, source, size);
    proof {
        if let Ok(image) = outcome_model(done) {
            lemma_image_in_box(image);
        }
    }
    done
}

/// Transforms the payload of the object at `key`: looks up the format that
/// the key calls for, refuses it unless it is a supported one, and
/// transforms the bytes under its codec.
///
/// The outcome is the one that `transformation_for_key` gives for the bytes
/// and the key. A result is well-formed, and a failure is an
/// `UnrecognizedFormat`, a `CorruptImage` or an `EncodeError` for this key.
pub fn transform(bytes: &[u8], key: &str) -> (done: Result<TransformedImage, PipelineError>)
    ensures
        ends_as(outcome_model(done), transformation_for_key(bytes@, key@), key@),
        match done {
            Ok(image) => image@.wf() && image.width <= MAX_WIDTH && image.height <= MAX_HEIGHT,
            Err(e) => transform_failure(e@, key@),
        },
{
    let format = match format_for_key(key) {
        Ok(format) => format,
        Err(error) => {
            return Err(
                PipelineError::UnrecognizedFormat {
                    key: String::from_str(key),
                    cause: error.to_string(),
                },
            );
        },
    };
    match supported(format) {
        Some(codec) => transform_as(bytes, key, codec),
        None => Err(
            PipelineError::UnrecognizedFormat {
                key: String::from_str(key),
                cause: String::from_str("the format is not one of the supported ones"),
            },
        ),
    }
}

} // verus!
