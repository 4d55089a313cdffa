use image::GenericImageView;
use imageprocessing::codec::Codec;
use imageprocessing::error::{ErrorKind, PipelineError};
use imageprocessing::sizing::{MAX_HEIGHT, MAX_WIDTH};
use imageprocessing::transform::{package, transform, transform_as, TransformedImage};

const PNG_MARKER: [u8; 8] = [0x89, b'P', b'N', b'G', 0x0d, 0x0a, 0x1a, 0x0a];
const JPEG_MARKER: [u8; 3] = [0xff, 0xd8, 0xff];

fn gradient(width: u32, height: u32) -> image::DynamicImage {
    image::DynamicImage::ImageRgb8(image::RgbImage::from_fn(width, height, |x, y| {
        image::Rgb([(x % 251) as u8, (y % 241) as u8, ((x + y) % 239) as u8])
    }))
}

fn encoded(width: u32, height: u32, format: image::ImageFormat) -> Vec<u8> {
    let mut bytes = Vec::new();
    gradient(width, height).write_to(&mut bytes, format).unwrap();
    bytes
}

fn tiff(width: u32, height: u32) -> Vec<u8> {
    let mut sink = std::io::Cursor::new(Vec::new());
    let raster = gradient(width, height).to_rgb8();
    image::codecs::tiff::TiffEncoder::new(&mut sink)
        .encode(raster.as_raw(), width, height, image::ColorType::Rgb8)
        .unwrap();
    sink.into_inner()
}

fn size_after(width: u32, height: u32) -> (u32, u32) {
    let done = transform(&encoded(width, height, image::ImageFormat::Png), "shape.png").unwrap();
    assert_eq!((done.source_width, done.source_height), (width, height));
    let decoded = image::load_from_memory_with_format(&done.bytes, image::ImageFormat::Png).unwrap();
    assert_eq!(decoded.dimensions(), (done.width, done.height));
    (done.width, done.height)
}

#[test]
fn limits_are_four_hundred_pixels() {
    assert_eq!(MAX_WIDTH, 400);
    assert_eq!(MAX_HEIGHT, 400);
}

#[test]
fn png_stays_png() {
    let done = transform(&encoded(800, 600, image::ImageFormat::Png), "photos/cat.png").unwrap();
    assert_eq!(done.bytes[..8], PNG_MARKER);
    assert_eq!(image::guess_format(&done.bytes).unwrap(), image::ImageFormat::Png);
    assert_eq!((done.width, done.height), (400, 300));
    assert_eq!((done.source_width, done.source_height), (800, 600));
    let decoded = image::load_from_memory(&done.bytes).unwrap();
    assert_eq!(decoded.dimensions(), (400, 300));
}

#[test]
fn jpeg_stays_jpeg() {
    let done = transform(&encoded(300, 600, image::ImageFormat::Jpeg), "cat.jpg").unwrap();
    assert_eq!(done.bytes[..3], JPEG_MARKER);
    assert_eq!(image::guess_format(&done.bytes).unwrap(), image::ImageFormat::Jpeg);
    assert_eq!((done.width, done.height), (200, 400));
    let decoded = image::load_from_memory(&done.bytes).unwrap();
    assert_eq!(decoded.dimensions(), (200, 400));
}

#[test]
fn extension_is_matched_without_regard_to_case() {
    let done = transform(&encoded(40, 40, image::ImageFormat::Jpeg), "CAT.JPEG").unwrap();
    assert_eq!(done.bytes[..3], JPEG_MARKER);
    let done = transform(&encoded(40, 40, image::ImageFormat::Png), "dir.v2/Cat.PnG").unwrap();
    assert_eq!(done.bytes[..8], PNG_MARKER);
}

#[test]
fn wide_image_is_bound_by_width() {
    assert_eq!(size_after(800, 600), (400, 300));
}

#[test]
fn tall_image_is_bound_by_height() {
    assert_eq!(size_after(600, 800), (300, 400));
}

#[test]
fn square_image_fills_the_box() {
    assert_eq!(size_after(400, 400), (400, 400));
    assert_eq!(size_after(500, 500), (400, 400));
}

#[test]
fn scaled_side_is_rounded_down() {
    // 767 * 400 / 1023 = 299.9...
    assert_eq!(size_after(1023, 767), (400, 299));
    // 3 * 400 / 7 = 171.4...
    assert_eq!(size_after(3, 7), (171, 400));
}

#[test]
fn scaled_side_is_never_below_one_pixel() {
    assert_eq!(size_after(1000, 2), (400, 1));
    assert_eq!(size_after(1, 900), (1, 400));
}

#[test]
fn small_image_is_enlarged() {
    assert_eq!(size_after(10, 20), (200, 400));
    assert_eq!(size_after(1, 1), (400, 400));
}

#[test]
fn result_fits_the_box_and_keeps_the_shape() {
    let shapes = [(640, 480), (480, 640), (401, 400), (400, 401), (37, 911), (1200, 5), (2, 3)];
    for (width, height) in shapes.iter().copied() {
        let (scaled_width, scaled_height) = size_after(width, height);
        assert!(1 <= scaled_width && scaled_width <= MAX_WIDTH);
        assert!(1 <= scaled_height && scaled_height <= MAX_HEIGHT);
        assert!(scaled_width == MAX_WIDTH || scaled_height == MAX_HEIGHT);
        let skew = scaled_width as i64 * height as i64 - scaled_height as i64 * width as i64;
        assert!(skew.abs() < width.max(height) as i64);
    }
}

#[test]
fn size_follows_the_rule_for_many_shapes() {
    let sides = [1u32, 2, 3, 5, 8, 13, 21, 34, 55, 89, 144, 233, 377, 399, 400, 401, 610];
    for (i, width) in sides.iter().copied().enumerate() {
        let height = sides[(i * 7 + 3) % sides.len()];
        let expected = if 400 * height <= width * 400 {
            (400, std::cmp::max(1, height * 400 / width))
        } else {
            (std::cmp::max(1, width * 400 / height), 400)
        };
        assert_eq!(size_after(width, height), expected);
    }
}

#[test]
fn package_keeps_what_the_encoder_produced() {
    assert_eq!(
        package(Ok(vec![1, 2, 3]), "cat.png", (800, 600), (400, 300)),
        Ok(TransformedImage {
            bytes: vec![1, 2, 3],
            width: 400,
            height: 300,
            source_width: 800,
            source_height: 600,
        })
    );
    assert_eq!(
        package(Ok(vec![]), "cat.png", (1, 1), (400, 400)).unwrap().bytes,
        Vec::<u8>::new()
    );
}

#[test]
fn package_turns_a_refusal_into_an_encode_error() {
    assert_eq!(
        package(Err("no encoder".to_string()), "scan.tiff", (16, 8), (400, 200)),
        Err(PipelineError::EncodeError {
            key: "scan.tiff".to_string(),
            cause: "no encoder".to_string(),
        })
    );
}

#[test]
fn transform_as_goes_by_the_given_codec() {
    let png = encoded(80, 20, image::ImageFormat::Png);
    let done = transform_as(&png, "no-extension", Codec::Png).unwrap();
    assert_eq!(done.bytes[..8], PNG_MARKER);
    assert_eq!((done.width, done.height), (400, 100));
    assert_eq!((done.source_width, done.source_height), (80, 20));
    assert_eq!(done, transform(&png, "cat.png").unwrap());

    match transform_as(&png, "cat.png", Codec::Jpeg) {
        Err(PipelineError::CorruptImage { key, .. }) => assert_eq!(key, "cat.png"),
        other => panic!("expected a corrupt image, got {:?}", other),
    }

    let jpeg = encoded(80, 20, image::ImageFormat::Jpeg);
    let done = transform_as(&jpeg, "cat.png", Codec::Jpeg).unwrap();
    assert_eq!(done.bytes[..3], JPEG_MARKER);
    assert_eq!(done, transform(&jpeg, "cat.jpeg").unwrap());
}

#[test]
fn transform_as_encodes_the_resized_image() {
    let source = gradient(800, 200);
    let mut bytes = Vec::new();
    source.write_to(&mut bytes, image::ImageFormat::Png).unwrap();
    let mut expected = Vec::new();
    source
        .resize(MAX_WIDTH, MAX_HEIGHT, image::imageops::FilterType::Nearest)
        .write_to(&mut expected, image::ImageFormat::Png)
        .unwrap();
    let done = transform_as(&bytes, "wide.png", Codec::Png).unwrap();
    assert_eq!(done.bytes, expected);
    assert!(done.bytes != bytes);
    let decoded = image::load_from_memory_with_format(&done.bytes, image::ImageFormat::Png).unwrap();
    assert_eq!(decoded.dimensions(), (400, 100));
}

#[test]
fn same_input_gives_same_output() {
    let source = encoded(320, 200, image::ImageFormat::Png);
    let first = transform(&source, "cat.png").unwrap();
    let second = transform(&source, "cat.png").unwrap();
    assert_eq!(first, second);
}

#[test]
fn unknown_extension_is_unrecognized() {
    let source = encoded(8, 8, image::ImageFormat::Png);
    for key in ["notes.txt", "cat", "cat.", ".png", "cat.png/readme", "cat.png.bak"] {
        match transform(&source, key) {
            Err(PipelineError::UnrecognizedFormat { key: subject, .. }) => assert_eq!(subject, key),
            other => panic!("{}: expected an unrecognized format, got {:?}", key, other),
        }
    }
}

#[test]
fn format_goes_by_the_key_not_by_the_bytes() {
    let png = encoded(8, 8, image::ImageFormat::Png);
    let error = transform(&png, "cat.jpg").unwrap_err();
    assert_eq!(error.kind(), ErrorKind::CorruptImage);
    let jpeg = encoded(8, 8, image::ImageFormat::Jpeg);
    let error = transform(&jpeg, "cat.png").unwrap_err();
    assert_eq!(error.kind(), ErrorKind::CorruptImage);
}

#[test]
fn garbage_is_corrupt() {
    for bytes in [&b""[..], &b"not an image"[..], &PNG_MARKER[..]] {
        match transform(bytes, "cat.png") {
            Err(PipelineError::CorruptImage { key, .. }) => assert_eq!(key, "cat.png"),
            other => panic!("expected a corrupt image, got {:?}", other),
        }
    }
}

#[test]
fn truncated_image_is_corrupt() {
    let mut source = encoded(64, 64, image::ImageFormat::Png);
    source.truncate(source.len() / 2);
    assert_eq!(transform(&source, "cat.png").unwrap_err().kind(), ErrorKind::CorruptImage);
}

#[test]
fn known_format_outside_the_supported_ones_is_unrecognized() {
    let keys = [
        "a.gif", "a.webp", "a.pbm", "a.pam", "a.ppm", "a.pgm", "a.tif", "a.tiff", "a.tga",
        "a.dds", "a.bmp", "a.ico", "a.hdr", "a.ff", "a.farbfeld", "a.avif", "A.GIF",
    ];
    let png = encoded(8, 8, image::ImageFormat::Png);
    for key in keys {
        match transform(&png, key) {
            Err(PipelineError::UnrecognizedFormat { key: subject, cause }) => {
                assert_eq!(subject, key);
                assert_eq!(cause, "the format is not one of the supported ones");
            }
            other => panic!("{}: expected an unrecognized format, got {:?}", key, other),
        }
    }
}

#[test]
fn valid_image_of_an_unsupported_format_is_not_decoded() {
    assert_eq!(
        transform(&tiff(16, 8), "scan.tiff").unwrap_err().kind(),
        ErrorKind::UnrecognizedFormat
    );
    assert_eq!(
        transform(&encoded(16, 8, image::ImageFormat::Bmp), "scan.bmp").unwrap_err().kind(),
        ErrorKind::UnrecognizedFormat
    );
}

#[test]
fn colour_mapped_tga_with_alpha_bits_is_refused_unread() {
    let bytes: [u8; 22] = [
        0x00, 0x01, 0x01, 0x00, 0x00, 0x01, 0x00, 0x18, 0x00, 0x00, 0x00, 0x00, 0x01, 0x00, 0x01,
        0x00, 0x08, 0x28, 0x00, 0x00, 0x00, 0x00,
    ];
    match transform(&bytes, "x.tga") {
        Err(PipelineError::UnrecognizedFormat { key, .. }) => assert_eq!(key, "x.tga"),
        other => panic!("expected an unrecognized format, got {:?}", other),
    }
}
