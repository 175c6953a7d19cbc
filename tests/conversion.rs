use std::io::Cursor;

use imgconv::format::{str_to_type, Format, IdentifierTable};
use imgconv::pipeline::{convert, map_image_err, Action, Conversion};
use imgconv::tuning::{parse_compression, parse_filter, Compression, EncoderInput, EncoderOptions, Filter};

const LOADING: &str = "Loading image...";
const CONVERTING: &str = "Converting to new format...";
const COMPLETED: &str = "Completed conversion.";

fn png_bytes(img: image::DynamicImage) -> Vec<u8> {
    let mut out: Vec<u8> = Vec::new();
    img.write_to(&mut Cursor::new(&mut out), image::ImageFormat::Png).unwrap();
    out
}

fn one_pixel_png() -> Vec<u8> {
    png_bytes(image::DynamicImage::ImageRgb8(image::RgbImage::from_pixel(1, 1, image::Rgb([200, 30, 60]))))
}

fn no_tuning() -> EncoderInput {
    EncoderInput::new(None, None, None)
}

fn tuning(quality: Option<u8>, compression: Option<&str>, filter: Option<&str>) -> EncoderInput {
    EncoderInput::new(quality, compression.map(String::from), filter.map(String::from))
}

const ALL: [Format; 15] = [
    Format::Avif, Format::Bmp, Format::Dds, Format::OpenExr, Format::Farbfeld, Format::Gif,
    Format::Hdr, Format::Ico, Format::Jpeg, Format::Png, Format::Pnm, Format::Qoi, Format::Tga,
    Format::Tiff, Format::WebP,
];

#[test]
fn mime_identifiers_resolve_to_their_formats() {
    let names = [
        "image/avif", "image/bmp", "image/vnd-ms.dds", "image/x-exr", "image/ff", "image/gif",
        "image/vnd.radiance", "image/x-icon", "image/jpeg", "image/png", "image/x-portable-bitmap",
        "image/qoi", "image/x-tga", "image/tiff", "image/webp",
    ];
    for (name, f) in names.iter().zip(ALL.iter()) {
        assert_eq!(str_to_type(name), Some(*f));
        assert_eq!(IdentifierTable::Mime.resolve(&name.to_uppercase()), Some(*f));
    }
}

#[test]
fn mime_synonyms_resolve() {
    assert_eq!(str_to_type("image/x-bmp"), Some(Format::Bmp));
    assert_eq!(str_to_type("image/x-direct-draw-surface"), Some(Format::Dds));
    assert_eq!(str_to_type("image/x-portable-graymap"), Some(Format::Pnm));
    assert_eq!(str_to_type("image/x-portable-pixmap"), Some(Format::Pnm));
    assert_eq!(str_to_type("image/x-portable-anymap"), Some(Format::Pnm));
    assert_eq!(str_to_type("image/x-targa"), Some(Format::Tga));
    assert_eq!(str_to_type("image/tiff-fx"), Some(Format::Tiff));
}

#[test]
fn resolution_ignores_letter_case() {
    for s in ["PNG", "png", "Png", "pNg"] {
        assert_eq!(IdentifierTable::ShortName.resolve(s), Some(Format::Png));
    }
    assert_eq!(str_to_type("Image/PNG"), Some(Format::Png));
    assert_eq!(IdentifierTable::ShortName.resolve("EXR"), Some(Format::OpenExr));
}

#[test]
fn short_names_resolve_to_their_formats() {
    let names = [
        "avif", "bmp", "dds", "exr", "ff", "gif", "hdr", "ico", "jpeg", "png", "pnm", "qoi", "tga",
        "tiff", "webp",
    ];
    for (name, f) in names.iter().zip(ALL.iter()) {
        assert_eq!(IdentifierTable::ShortName.resolve(name), Some(*f));
    }
    assert_eq!(IdentifierTable::ShortName.resolve("jpg"), None);
}

#[test]
fn legacy_table_accepts_jpg_and_a_reduced_set() {
    assert_eq!(IdentifierTable::Legacy.resolve("jpg"), Some(Format::Jpeg));
    assert_eq!(IdentifierTable::Legacy.resolve("JPEG"), Some(Format::Jpeg));
    assert_eq!(IdentifierTable::Legacy.resolve("webp"), Some(Format::WebP));
    assert_eq!(IdentifierTable::Legacy.resolve("avif"), None);
    assert_eq!(IdentifierTable::Legacy.resolve("qoi"), None);
}

#[test]
fn unknown_identifiers_are_not_found() {
    assert_eq!(str_to_type("png"), None);
    assert_eq!(str_to_type(""), None);
    assert_eq!(str_to_type("image/png "), None);
    assert_eq!(IdentifierTable::ShortName.resolve("image/png"), None);
}

#[test]
fn unsupported_input_is_quoted_verbatim() {
    match Conversion::start(IdentifierTable::Mime, one_pixel_png(), "Image/Bogus", "image/png", &no_tuning()) {
        Err(m) => assert_eq!(m, "Unsupported input format: Image/Bogus"),
        Ok(_) => panic!("an unknown input format was accepted"),
    }
}

#[test]
fn unsupported_output_is_reported_before_any_progress() {
    // The refusal comes from `start`, before a conversion exists that could
    // announce anything.
    match Conversion::start(IdentifierTable::ShortName, one_pixel_png(), "png", "bogus", &no_tuning()) {
        Err(m) => assert_eq!(m, "Unsupported output format: bogus"),
        Ok(_) => panic!("an unknown output format was accepted"),
    }
}

#[test]
fn equal_conversions_give_equal_results() {
    let mut first: Vec<String> = Vec::new();
    let mut second: Vec<String> = Vec::new();
    let a = convert(one_pixel_png(), Format::Png, Format::Bmp, EncoderOptions::DefaultEncoding, &mut first);
    let b = convert(one_pixel_png(), Format::Png, Format::Bmp, EncoderOptions::DefaultEncoding, &mut second);
    assert_eq!(a, b);
    assert_eq!(first, second);
}

#[test]
fn encoder_failure_stops_after_converting() {
    // The JPEG encoder refuses an image wider than 65535 pixels.
    let wide = png_bytes(image::DynamicImage::ImageLuma8(image::GrayImage::new(70000, 1)));
    let mut progress: Vec<String> = Vec::new();
    let err = convert(wide, Format::Png, Format::Jpeg, EncoderOptions::Jpeg { quality: 80 }, &mut progress).unwrap_err();
    assert!(err.starts_with("Image processing error: "));
    assert_eq!(progress, vec![LOADING, CONVERTING]);
}

#[test]
fn input_is_checked_before_output() {
    match Conversion::start(IdentifierTable::Mime, Vec::new(), "a", "b", &no_tuning()) {
        Err(m) => assert_eq!(m, "Unsupported input format: a"),
        Ok(_) => panic!("unknown formats were accepted"),
    }
}

#[test]
fn keywords_parse() {
    assert_eq!(parse_compression("fast"), Some(Compression::Fast));
    assert_eq!(parse_compression("best"), Some(Compression::Best));
    assert_eq!(parse_compression("default"), Some(Compression::Default));
    assert_eq!(parse_compression("Best"), None);
    assert_eq!(parse_filter("no_filter"), Some(Filter::NoFilter));
    assert_eq!(parse_filter("sub"), Some(Filter::Sub));
    assert_eq!(parse_filter("up"), Some(Filter::Up));
    assert_eq!(parse_filter("avg"), Some(Filter::Avg));
    assert_eq!(parse_filter("paeth"), Some(Filter::Paeth));
    assert_eq!(parse_filter("adaptive"), Some(Filter::Adaptive));
    assert_eq!(parse_filter("none"), None);
}

#[test]
fn jpeg_takes_the_quality() {
    assert_eq!(tuning(Some(40), None, None).to_options(Format::Jpeg), EncoderOptions::Jpeg { quality: 40 });
    assert_eq!(tuning(None, Some("best"), Some("sub")).to_options(Format::Jpeg), EncoderOptions::DefaultEncoding);
}

#[test]
fn png_takes_both_settings_or_none() {
    assert_eq!(
        tuning(Some(10), Some("best"), Some("paeth")).to_options(Format::Png),
        EncoderOptions::Png { compression: Compression::Best, filter: Filter::Paeth }
    );
    assert_eq!(tuning(None, Some("best"), None).to_options(Format::Png), EncoderOptions::DefaultEncoding);
    assert_eq!(tuning(None, None, Some("up")).to_options(Format::Png), EncoderOptions::DefaultEncoding);
    assert_eq!(tuning(None, Some("best"), Some("bogus")).to_options(Format::Png), EncoderOptions::DefaultEncoding);
}

#[test]
fn other_formats_use_defaults() {
    let t = tuning(Some(90), Some("fast"), Some("up"));
    for f in ALL {
        let o = t.to_options(f);
        match f {
            Format::Jpeg => assert_eq!(o, EncoderOptions::Jpeg { quality: 90 }),
            Format::Png => assert_eq!(o, EncoderOptions::Png { compression: Compression::Fast, filter: Filter::Up }),
            _ => assert_eq!(o, EncoderOptions::DefaultEncoding),
        }
    }
}

#[test]
fn codec_errors_are_prefixed() {
    assert_eq!(map_image_err(String::from("bad data")), "Image processing error: bad data");
}

#[test]
fn png_to_jpeg_reports_progress_in_order() {
    let mut progress: Vec<String> = Vec::new();
    let out = convert(one_pixel_png(), Format::Png, Format::Jpeg, EncoderOptions::DefaultEncoding, &mut progress).unwrap();
    assert_eq!(progress, vec![LOADING, CONVERTING, COMPLETED]);
    assert_eq!(&out[..2], &[0xFF, 0xD8]);
    let back = image::load_from_memory_with_format(&out, image::ImageFormat::Jpeg).unwrap();
    assert_eq!((back.width(), back.height()), (1, 1));
}

#[test]
fn identifiers_drive_a_whole_conversion() {
    let mut c = Conversion::start(IdentifierTable::Mime, one_pixel_png(), "IMAGE/PNG", "image/bmp", &no_tuning()).unwrap();
    let mut progress: Vec<String> = Vec::new();
    let out = c.run(&mut progress).unwrap();
    assert_eq!(progress, vec![LOADING, CONVERTING, COMPLETED]);
    assert_eq!(&out[..2], b"BM");
}

#[test]
fn stepping_announces_each_phase() {
    let mut c = Conversion::start(IdentifierTable::ShortName, one_pixel_png(), "png", "qoi", &no_tuning()).unwrap();
    let mut seen: Vec<String> = Vec::new();
    let result = loop {
        match c.step() {
            Action::Report(m) => seen.push(m),
            Action::Finish(r) => break r,
        }
    };
    assert_eq!(seen, vec![LOADING, CONVERTING, COMPLETED]);
    assert_eq!(&result.unwrap()[..4], b"qoif");
}

#[test]
fn truncated_png_fails_while_loading() {
    let mut data: Vec<u8> = one_pixel_png()[..4].to_vec();
    data.extend_from_slice(&[0u8; 60]);
    let mut progress: Vec<String> = Vec::new();
    let err = convert(data, Format::Png, Format::Jpeg, EncoderOptions::DefaultEncoding, &mut progress).unwrap_err();
    assert!(err.starts_with("Image processing error: "));
    assert!(err.len() > "Image processing error: ".len());
    assert_eq!(progress, vec![LOADING]);
}

#[test]
fn bytes_of_another_format_fail_to_decode() {
    let mut progress: Vec<String> = Vec::new();
    let err = convert(one_pixel_png(), Format::Gif, Format::Png, EncoderOptions::DefaultEncoding, &mut progress).unwrap_err();
    assert!(err.starts_with("Image processing error: "));
    assert_eq!(progress, vec![LOADING]);
}

#[test]
fn lossless_round_trip_keeps_pixels() {
    let mut img = image::RgbaImage::new(3, 2);
    for (x, y, p) in img.enumerate_pixels_mut() {
        *p = image::Rgba([(x * 70) as u8, (y * 100) as u8, 17, 255 - (x + y) as u8]);
    }
    let original = image::DynamicImage::ImageRgba8(img);
    let mut progress: Vec<String> = Vec::new();
    let out = convert(png_bytes(original.clone()), Format::Png, Format::Png, EncoderOptions::DefaultEncoding, &mut progress).unwrap();
    let back = image::load_from_memory_with_format(&out, image::ImageFormat::Png).unwrap();
    assert_eq!((back.width(), back.height()), (3, 2));
    assert_eq!(back.to_rgba8().into_raw(), original.to_rgba8().into_raw());
}

#[test]
fn png_settings_reach_the_encoder() {
    let mut img = image::GrayImage::new(8, 8);
    for (x, y, p) in img.enumerate_pixels_mut() {
        *p = image::Luma([(x * 30 + y) as u8]);
    }
    let input = png_bytes(image::DynamicImage::ImageLuma8(img.clone()));
    let mut progress: Vec<String> = Vec::new();
    let options = EncoderOptions::Png { compression: Compression::Best, filter: Filter::Paeth };
    let out = convert(input, Format::Png, Format::Png, options, &mut progress).unwrap();
    assert_eq!(&out[..8], &[0x89, b'P', b'N', b'G', 0x0D, 0x0A, 0x1A, 0x0A]);
    let back = image::load_from_memory_with_format(&out, image::ImageFormat::Png).unwrap();
    assert_eq!(back.to_luma8().into_raw(), img.into_raw());
}

#[test]
fn jpeg_quality_changes_the_output() {
    let mut img = image::RgbImage::new(16, 16);
    for (x, y, p) in img.enumerate_pixels_mut() {
        *p = image::Rgb([(x * 16) as u8, (y * 16) as u8, ((x * y) % 256) as u8]);
    }
    let input = png_bytes(image::DynamicImage::ImageRgb8(img));
    let mut progress: Vec<String> = Vec::new();
    let low = convert(input.clone(), Format::Png, Format::Jpeg, EncoderOptions::Jpeg { quality: 5 }, &mut progress).unwrap();
    let high = convert(input, Format::Png, Format::Jpeg, EncoderOptions::Jpeg { quality: 100 }, &mut progress).unwrap();
    assert_eq!(&low[..2], &[0xFF, 0xD8]);
    assert!(low.len() < high.len());
}
