//! Image formats: the ones that an object key can call for, and the ones
//! that the pipeline reads and writes.
//!
//! A key may call for any format that the codec library knows by its
//! extension. The pipeline works on an enumerated few of them; every other
//! format is refused before a byte of the payload is looked at.

use vstd::prelude::*;

verus! {

/// A format that the extension of an object key can call for.
#[derive(Clone, Copy, Debug, PartialEq, Eq, Structural)]
pub enum Format {
    Png,
    Jpeg,
    Gif,
    WebP,
    Pnm,
    Tiff,
    Tga,
    Dds,
    Bmp,
    Ico,
    Hdr,
    Farbfeld,
    Avif,
    /// A format that has no name here.
    Other,
}

/// A format that the pipeline decodes and encodes.
#[derive(Clone, Copy, Debug, PartialEq, Eq, Structural)]
pub enum Codec {
    Png,
    Jpeg,
}

/// The codec for `format`, where the pipeline supports the format.
pub open spec fn codec_of(format: Format) -> Option<Codec> {
    match format {
        Format::Png => Some(Codec::Png),
        Format::Jpeg => Some(Codec::Jpeg),
        _ => None,
    }
}

/// Picks the codec for `format`. PNG and JPEG are supported; every other
/// format has none.
pub fn supported(format: Format) -> (codec: Option<Codec>)
    ensures
        codec == codec_of(format),
{
    match format {
        Format::Png => Some(Codec::Png),
        Format::Jpeg => Some(Codec::Jpeg),
        Format::Gif
        | Format::WebP
        | Format::Pnm
        | Format::Tiff
        | Format::Tga
        | Format::Dds
        | Format::Bmp
        | Format::Ico
        | Format::Hdr
        | Format::Farbfeld
        | Format::Avif
        | Format::Other => None,
    }
}

} // verus!
