//! The calls into the image codec library, and the translation of the
//! library's own settings and errors.
use vstd::prelude::*;
use image::ImageEncoder;
use crate::format::Format;
use crate::tuning::{Compression, Filter};

verus! {

/// `image::ImageFormat`, whose variants Verus reads from the crate itself.
#[verifier::external_type_specification]
pub struct ExImageFormat(image::ImageFormat);

/// `image::codecs::png::CompressionType`, read from the crate like the formats.
#[verifier::external_type_specification]
pub struct ExCompressionType(image::codecs::png::CompressionType);

/// `image::codecs::png::FilterType`, read from the crate like the formats.
#[verifier::external_type_specification]
pub struct ExFilterType(image::codecs::png::FilterType);

/// `image::DynamicImage`: a decoded image, carried from decoder to encoder
/// without being looked into.
#[verifier::external_type_specification]
#[verifier::external_body]
pub struct ExDynamicImage(image::DynamicImage);

/// The codec library's name for a format.
pub open spec fn image_format_of(f: Format) -> image::ImageFormat {
    match f {
        Format::Avif => image::ImageFormat::Avif,
        Format::Bmp => image::ImageFormat::Bmp,
        Format::Dds => image::ImageFormat::Dds,
        Format::OpenExr => image::ImageFormat::OpenExr,
        Format::Farbfeld => image::ImageFormat::Farbfeld,
        Format::Gif => image::ImageFormat::Gif,
        Format::Hdr => image::ImageFormat::Hdr,
        Format::Ico => image::ImageFormat::Ico,
        Format::Jpeg => image::ImageFormat::Jpeg,
        Format::Png => image::ImageFormat::Png,
        Format::Pnm => image::ImageFormat::Pnm,
        Format::Qoi => image::ImageFormat::Qoi,
        Format::Tga => image::ImageFormat::Tga,
        Format::Tiff => image::ImageFormat::Tiff,
        Format::WebP => image::ImageFormat::WebP,
    }
}

/// Names a format for the codec library.
pub fn image_format(f: Format) -> (r: image::ImageFormat)
    ensures
        r == image_format_of(f),
{
    match f {
        Format::Avif => image::ImageFormat::Avif,
        Format::Bmp => image::ImageFormat::Bmp,
        Format::Dds => image::ImageFormat::Dds,
        Format::OpenExr => image::ImageFormat::OpenExr,
        Format::Farbfeld => image::ImageFormat::Farbfeld,
        Format::Gif => image::ImageFormat::Gif,
        Format::Hdr => image::ImageFormat::Hdr,
        Format::Ico => image::ImageFormat::Ico,
        Format::Jpeg => image::ImageFormat::Jpeg,
        Format::Png => image::ImageFormat::Png,
        Format::Pnm => image::ImageFormat::Pnm,
        Format::Qoi => image::ImageFormat::Qoi,
        Format::Tga => image::ImageFormat::Tga,
        Format::Tiff => image::ImageFormat::Tiff,
        Format::WebP => image::ImageFormat::WebP,
    }
}

/// The codec library's PNG compression setting for ours.
pub open spec fn compression_type_of(c: Compression) -> image::codecs::png::CompressionType {
    match c {
        Compression::Fast => image::codecs::png::CompressionType::Fast,
        Compression::Best => image::codecs::png::CompressionType::Best,
        Compression::Default => image::codecs::png::CompressionType::Default,
    }
}

/// The codec library's PNG filter setting for ours.
pub open spec fn filter_type_of(f: Filter) -> image::codecs::png::FilterType {
    match f {
        Filter::NoFilter => image::codecs::png::FilterType::NoFilter,
        Filter::Sub => image::codecs::png::FilterType::Sub,
        Filter::Up => image::codecs::png::FilterType::Up,
        Filter::Avg => image::codecs::png::FilterType::Avg,
        Filter::Paeth => image::codecs::png::FilterType::Paeth,
        Filter::Adaptive => image::codecs::png::FilterType::Adaptive,
    }
}

pub fn compression_type(c: Compression) -> (r: image::codecs::png::CompressionType)
    ensures
        r == compression_type_of(c),
{
    match c {
        Compression::Fast => image::codecs::png::CompressionType::Fast,
        Compression::Best => image::codecs::png::CompressionType::Best,
        Compression::Default => image::codecs::png::CompressionType::Default,
    }
}

pub fn filter_type(f: Filter) -> (r: image::codecs::png::FilterType)
    ensures
        r == filter_type_of(f),
{
    match f {
        Filter::NoFilter => image::codecs::png::FilterType::NoFilter,
        Filter::Sub => image::codecs::png::FilterType::Sub,
        Filter::Up => image::codecs::png::FilterType::Up,
        Filter::Avg => image::codecs::png::FilterType::Avg,
        Filter::Paeth => image::codecs::png::FilterType::Paeth,
        Filter::Adaptive => image::codecs::png::FilterType::Adaptive,
    }
}

/// An outcome of the codec library seen as values: the bytes produced, or
/// the description of the failure.
pub open spec fn outcome(r: Result<Vec<u8>, String>) -> Result<Seq<u8>, Seq<char>> {
    match r {
        Ok(b) => Ok(b@),
        Err(m) => Err(m@),
    }
}

/// Why `image::load_from_memory_with_format` refuses these bytes as this
/// format, or `None` where it decodes them.
pub uninterp spec fn decode_failure(source: Seq<u8>, format: Format) -> Option<Seq<char>>;

/// What the JPEG encoder makes, at this quality, of the image decoded from
/// `source` as `format`.
pub uninterp spec fn jpeg_outcome(source: Seq<u8>, format: Format, quality: u8) -> Result<Seq<u8>, Seq<char>>;

/// What the PNG encoder makes, with these settings, of the image decoded
/// from `source` as `format`.
pub uninterp spec fn png_outcome(
    source: Seq<u8>,
    format: Format,
    compression: Compression,
    filter: Filter,
) -> Result<Seq<u8>, Seq<char>>;

/// What `DynamicImage::write_to` makes, in `output` with that format's
/// default settings, of the image decoded from `source` as `format`.
pub uninterp spec fn default_outcome(source: Seq<u8>, format: Format, output: Format) -> Result<Seq<u8>, Seq<char>>;

/// A decoded image, with the bytes and format it was decoded from. Only
/// `decode` makes one.
pub struct Decoded {
    image: image::DynamicImage,
    source: Ghost<Seq<u8>>,
    format: Ghost<image::ImageFormat>,
}

impl Decoded {
    pub closed spec fn source(&self) -> Seq<u8> {
        self.source@
    }

    pub closed spec fn format(&self) -> image::ImageFormat {
        self.format@
    }
}

/// Relies on `image::load_from_memory_with_format` and the `Display` of its
/// error: the result depends on the bytes and the format alone.
#[verifier::external_body]
pub(crate) fn decode(data: &[u8], format: image::ImageFormat) -> (r: Result<Decoded, String>)
    ensures
        forall|f: Format| #[trigger] image_format_of(f) == format ==> match r {
            Ok(d) => decode_failure(data@, f) is None && d.source() == data@ && d.format() == format,
            Err(m) => decode_failure(data@, f) == Some(m@),
        },
{
    match image::load_from_memory_with_format(data, format) {
        Ok(image) => Ok(Decoded { image, source: Ghost(data@), format: Ghost(format) }),
        Err(e) => Err(format!("{}", e)),
    }
}

/// Relies on `JpegEncoder::new_with_quality` and `JpegEncoder::encode_image`
/// (and the `Display` of their error): the JPEG bytes of the image at this
/// quality, or why the encoder refused; a function of the image and quality.
#[verifier::external_body]
pub(crate) fn encode_jpeg(img: &Decoded, quality: u8) -> (r: Result<Vec<u8>, String>)
    ensures
        forall|f: Format| #[trigger] image_format_of(f) == img.format()
            ==> outcome(r) == jpeg_outcome(img.source(), f, quality),
{
    let mut out: Vec<u8> = Vec::new();
    let done = image::codecs::jpeg::JpegEncoder::new_with_quality(&mut out, quality).encode_image(&img.image);
    done.map(|()| out).map_err(|e| format!("{}", e))
}

/// Relies on `PngEncoder::new_with_quality` and `ImageEncoder::write_image`
/// (and the `Display` of their error): the PNG bytes of the image's own pixel
/// buffer, size and color model with these settings, or why the encoder
/// refused. The buffer always matches the size and color model, so
/// `write_image` does not panic.
#[verifier::external_body]
pub(crate) fn encode_png(
    img: &Decoded,
    compression: image::codecs::png::CompressionType,
    filter: image::codecs::png::FilterType,
) -> (r: Result<Vec<u8>, String>)
    ensures
        forall|f: Format, c: Compression, p: Filter|
            #![trigger image_format_of(f), compression_type_of(c), filter_type_of(p)]
            image_format_of(f) == img.format() && compression_type_of(c) == compression
            && filter_type_of(p) == filter ==> outcome(r) == png_outcome(img.source(), f, c, p),
{
    let mut out: Vec<u8> = Vec::new();
    let encoder = image::codecs::png::PngEncoder::new_with_quality(&mut out, compression, filter);
    let i = &img.image;
    let done = encoder.write_image(i.as_bytes(), i.width(), i.height(), i.color().into());
    done.map(|()| out).map_err(|e| format!("{}", e))
}

/// Relies on `DynamicImage::write_to` (and the `Display` of its error): the
/// image in the given format with that format's default settings, or why the
/// encoder refused.
#[verifier::external_body]
pub(crate) fn encode_default(img: &Decoded, output: image::ImageFormat) -> (r: Result<Vec<u8>, String>)
    ensures
        forall|f: Format, o: Format| #![trigger image_format_of(f), image_format_of(o)]
            image_format_of(f) == img.format() && image_format_of(o) == output
            ==> outcome(r) == default_outcome(img.source(), f, o),
{
    let mut out: Vec<u8> = Vec::new();
    let done = img.image.write_to(&mut std::io::Cursor::new(&mut out), output);
    done.map(|()| out).map_err(|e| format!("{}", e))
}

} // verus!
