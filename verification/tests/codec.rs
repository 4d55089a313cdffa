use imageprocessing::codec::{supported, Codec, Format};

#[test]
fn png_and_jpeg_are_supported() {
    assert_eq!(supported(Format::Png), Some(Codec::Png));
    assert_eq!(supported(Format::Jpeg), Some(Codec::Jpeg));
}

#[test]
fn every_other_format_is_unsupported() {
    let others = [
        Format::Gif,
        Format::WebP,
        Format::Pnm,
        Format::Tiff,
        Format::Tga,
        Format::Dds,
        Format::Bmp,
        Format::Ico,
        Format::Hdr,
        Format::Farbfeld,
        Format::Avif,
        Format::Other,
    ];
    for format in others {
        assert_eq!(supported(format), None);
    }
}
