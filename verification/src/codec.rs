//! Turning an image into the bytes of a file, by the codecs of the `image` crate.
//!
//! The encoder variant decides which codec runs and with which options. The
//! codecs themselves are trusted: each call is named, and the contracts here say
//! which call is made with which arguments.

use crate::encoder::CompressionLevel;
use crate::encoder::FileEncoder;
use image::codecs::jpeg::JpegEncoder;
use image::codecs::png::CompressionType;
use image::codecs::png::FilterType;
use image::codecs::png::PngEncoder;
use image::ColorType;
use image::DynamicImage;
use image::ImageEncoder;
use image::ImageError;
use image::ImageFormat;
use vstd::prelude::*;

verus! {

/// The image that is encoded. Nothing of its inside is visible here.
#[verifier::external_type_specification]
#[verifier::external_body]
pub struct ExDynamicImage(image::DynamicImage);

/// The error that a codec reports.
#[verifier::external_type_specification]
#[verifier::external_body]
pub struct ExImageError(image::ImageError);

/// The image's width in pixels.
pub uninterp spec fn image_width(image: DynamicImage) -> u32;

/// The image's height in pixels.
pub uninterp spec fn image_height(image: DynamicImage) -> u32;

/// The number of bytes that one pixel of the image's color type takes.
pub uninterp spec fn image_pixel_bytes(image: DynamicImage) -> u8;

/// The image's color type, `None` for one that this library does not know.
pub uninterp spec fn image_color(image: DynamicImage) -> Option<PixelKind>;

/// The number of bytes in the sample buffer that the image holds.
pub uninterp spec fn image_stored_len(image: DynamicImage) -> usize;

/// The JPEG file that the codec makes of the image's 8-bit RGB rendition at this
/// quality, or `None` where it reports an error.
pub uninterp spec fn jpeg_encoding(image: DynamicImage, quality: u8) -> Option<Seq<u8>>;

/// The PNG file that the codec makes of the image's own samples at this
/// compression level, with its default filter, or `None` where it reports an error.
pub uninterp spec fn png_encoding(image: DynamicImage, level: CompressionLevel) -> Option<Seq<u8>>;

/// The file that the general format dispatch of the `image` crate makes of the
/// image, or `None` where it reports an error.
pub uninterp spec fn dispatch_encoding(image: DynamicImage, format: DispatchFormat) -> Option<
    Seq<u8>,
>;

/// What a pixel is made of: luma or RGB, with or without alpha, in samples of 8
/// or 16 bits or in floats.
#[derive(Debug, Clone, Copy, PartialEq, Eq, Structural)]
pub enum PixelKind {
    L8,
    La8,
    Rgb8,
    Rgba8,
    L16,
    La16,
    Rgb16,
    Rgba16,
    Rgb32F,
    Rgba32F,
}

/// The formats that are written through the general format dispatch.
#[derive(Debug, Clone, Copy, PartialEq, Eq, Structural)]
pub enum DispatchFormat {
    Bmp,
    WebP,
}

/// A codec refused the image or failed on it.
#[derive(Debug)]
pub struct EncodeError {
    pub cause: ImageError,
}

/// Calls `DynamicImage::width`. Trusted: the result is what [`image_width`] names.
#[verifier::external_body]
fn width(image: &DynamicImage) -> (pixels: u32)
    ensures
        pixels == image_width(*image),
{
    image.width()
}

/// Calls `DynamicImage::height`. Trusted: the result is what [`image_height`]
/// names.
#[verifier::external_body]
fn height(image: &DynamicImage) -> (pixels: u32)
    ensures
        pixels == image_height(*image),
{
    image.height()
}

/// Calls `ColorType::bytes_per_pixel` on what `DynamicImage::color` gives.
/// Trusted: the result is what [`image_pixel_bytes`] names.
#[verifier::external_body]
fn pixel_bytes(image: &DynamicImage) -> (bytes: u8)
    ensures
        bytes == image_pixel_bytes(*image),
{
    image.color().bytes_per_pixel()
}

/// Calls `DynamicImage::color` and tells the codec's color types apart. Trusted:
/// the result is what [`image_color`] names.
#[verifier::external_body]
fn color(image: &DynamicImage) -> (kind: Option<PixelKind>)
    ensures
        kind == image_color(*image),
{
    match image.color() {
        ColorType::L8 => Some(PixelKind::L8),
        ColorType::La8 => Some(PixelKind::La8),
        ColorType::Rgb8 => Some(PixelKind::Rgb8),
        ColorType::Rgba8 => Some(PixelKind::Rgba8),
        ColorType::L16 => Some(PixelKind::L16),
        ColorType::La16 => Some(PixelKind::La16),
        ColorType::Rgb16 => Some(PixelKind::Rgb16),
        ColorType::Rgba16 => Some(PixelKind::Rgba16),
        ColorType::Rgb32F => Some(PixelKind::Rgb32F),
        ColorType::Rgba32F => Some(PixelKind::Rgba32F),
        _ => None,
    }
}

/// Calls `DynamicImage::as_bytes` and hands back the length of the buffer.
/// Trusted: the result is what [`image_stored_len`] names.
#[verifier::external_body]
fn stored_len(image: &DynamicImage) -> (bytes: usize)
    ensures
        bytes == image_stored_len(*image),
{
    image.as_bytes().len()
}

/// Calls `DynamicImage::to_rgb8` and `JpegEncoder::encode_image` on a codec made
/// by `JpegEncoder::new_with_quality`, writing into memory. Trusted: the outcome is
/// what [`jpeg_encoding`] names; the codec refuses an image exactly when a side
/// is 0 or above 65535, and a sink in memory does not fail.
#[verifier::external_body]
fn jpeg_encode(image: &DynamicImage, quality: u8) -> (outcome: Result<Vec<u8>, ImageError>)
    ensures
        outcome_bytes(outcome) == jpeg_encoding(*image, quality),
        outcome is Ok <==> jpeg_takes_size(image_width(*image), image_height(*image)),
{
    let mut bytes = Vec::new();
    JpegEncoder::new_with_quality(&mut bytes, quality).encode_image(&image.to_rgb8())?;
    Ok(bytes)
}

/// Calls `PngEncoder::write_image` on a codec made by
/// `PngEncoder::new_with_quality` with the default filter, on the image's own
/// bytes, size and color type, writing into memory. Trusted: the outcome is what
/// [`png_encoding`] names. The codec panics on a buffer of another length than the
/// size and color type ask for, which `requires` leaves out. It refuses a side
/// of 0 and samples that are floats. Of 8-bit samples it refuses nothing else, a
/// sink in memory not failing; samples of 16 bits it may copy first, and it
/// reports an error where the memory for that is not to be had, so nothing is
/// promised of them.
#[verifier::external_body]
fn png_encode(image: &DynamicImage, level: CompressionLevel) -> (outcome: Result<
    Vec<u8>,
    ImageError,
>)
    requires
        buffer_fits(*image),
    ensures
        outcome_bytes(outcome) == png_encoding(*image, level),
        outcome is Ok ==> png_takes(image_color(*image), image_width(*image), image_height(*image)),
        png_owes(image_color(*image), image_width(*image), image_height(*image)) ==> outcome is Ok,
{
    let compression = match level {
        CompressionLevel::Best => CompressionType::Best,
        CompressionLevel::Default => CompressionType::Default,
        CompressionLevel::Fast => CompressionType::Fast,
    };
    let mut bytes = Vec::new();
    PngEncoder::new_with_quality(&mut bytes, compression, FilterType::default()).write_image(
        image.as_bytes(),
        image.width(),
        image.height(),
        image.color().into(),
    )?;
    Ok(bytes)
}

/// Calls `DynamicImage::write_to` with the format, writing into memory. Trusted:
/// the outcome is what [`dispatch_encoding`] names. The WebP codec refuses an
/// image exactly when a side is 0 or above 16384. The BMP codec refuses one
/// exactly when a row or the whole file would be longer than 32 bits count. A
/// sink in memory does not fail. `requires` leaves out the images on which the
/// codecs panic:
/// - An image of 16-bit or float samples is first made one of 8-bit samples, with
///   a buffer of its own. An image of 8-bit samples is read as it is, and its
///   buffer must have the length that its size and color type ask for.
/// - The BMP codec writes luma with alpha (as it is, or made of 16-bit luma with
///   alpha), where it does not refuse the size, from offsets that it counts in
///   32 bits at two bytes a pixel; they must not overflow.
#[verifier::external_body]
fn dispatch_encode(image: &DynamicImage, format: DispatchFormat) -> (outcome: Result<
    Vec<u8>,
    ImageError,
>)
    requires
        dispatch_takes(*image, format),
    ensures
        outcome_bytes(outcome) == dispatch_encoding(*image, format),
        outcome is Ok <==> dispatch_takes_size(
            format,
            image_color(*image),
            image_width(*image),
            image_height(*image),
        ),
{
    let format = match format {
        DispatchFormat::Bmp => ImageFormat::Bmp,
        DispatchFormat::WebP => ImageFormat::WebP,
    };
    let mut sink = std::io::Cursor::new(Vec::new());
    image.write_to(&mut sink, format)?;
    Ok(sink.into_inner())
}

/// The bytes of a codec's outcome, `None` for an error.
pub open spec fn outcome_bytes<E>(outcome: Result<Vec<u8>, E>) -> Option<Seq<u8>> {
    match outcome {
        Ok(bytes) => Some(bytes@),
        Err(_) => None,
    }
}

/// The JPEG codec takes sides from 1 to 65535.
pub open spec fn jpeg_takes_size(width: u32, height: u32) -> bool {
    1 <= width <= 65535 && 1 <= height <= 65535
}

/// The number of bytes that the codecs expect for an image of this size: rows of
/// `width * pixel_bytes` bytes, `height` of them, capped at `u64::MAX`.
pub open spec fn packed_len(width: u32, height: u32, pixel_bytes: u8) -> int {
    let exact = width * pixel_bytes * height;
    if exact > u64::MAX {
        u64::MAX as int
    } else {
        exact
    }
}

/// The image's buffer has just the length that its size and color type ask for.
pub open spec fn buffer_fits(image: DynamicImage) -> bool {
    image_stored_len(image) == packed_len(
        image_width(image),
        image_height(image),
        image_pixel_bytes(image),
    )
}

/// The PNG codec takes no image but of sides from 1 on and of samples that are
/// not floats.
pub open spec fn png_takes(kind: Option<PixelKind>, width: u32, height: u32) -> bool {
    match kind {
        Some(known) => !known.is_float() && width >= 1 && height >= 1,
        None => false,
    }
}

/// The PNG codec makes a file of every image of 8-bit samples and sides from 1
/// on.
pub open spec fn png_owes(kind: Option<PixelKind>, width: u32, height: u32) -> bool {
    match kind {
        Some(known) => known.is_eight_bit() && width >= 1 && height >= 1,
        None => false,
    }
}

/// The WebP codec takes sides from 1 to 16384.
pub open spec fn webp_takes_size(width: u32, height: u32) -> bool {
    1 <= width <= 16384 && 1 <= height <= 16384
}

/// The bytes that a row of a BMP file takes: the pixels, filled up to a multiple
/// of four bytes.
pub open spec fn bmp_row_len(kind: PixelKind, width: u32) -> int {
    (width * kind.bmp_pixel_bytes() + 3) / 4 * 4
}

/// The bytes that a BMP file takes: the file header, the header of the bitmap,
/// the palette, and the rows.
pub open spec fn bmp_file_len(kind: PixelKind, width: u32, height: u32) -> int {
    14 + kind.bmp_header_bytes() + kind.bmp_palette_bytes() + bmp_row_len(kind, width) * height
}

/// The BMP codec takes the sizes of which a row and the whole file are no longer
/// than 32 bits count.
pub open spec fn bmp_takes_size(kind: PixelKind, width: u32, height: u32) -> bool {
    bmp_row_len(kind, width) <= u32::MAX && bmp_file_len(kind, width, height) <= u32::MAX
}

/// The sizes that the codec behind the general format dispatch takes.
pub open spec fn dispatch_takes_size(
    format: DispatchFormat,
    kind: Option<PixelKind>,
    width: u32,
    height: u32,
) -> bool {
    match format {
        DispatchFormat::WebP => webp_takes_size(width, height),
        DispatchFormat::Bmp => match kind {
            Some(known) => bmp_takes_size(known, width, height),
            None => false,
        },
    }
}

/// The offsets of the samples of a luma-with-alpha image, two bytes a pixel, fit
/// in 32 bits: the length of a row, and the offset of the last pixel.
pub open spec fn luma_alpha_offsets_fit(width: u32, height: u32) -> bool {
    &&& 2 * width <= u32::MAX
    &&& width >= 1 && height >= 1 ==> 2 * width * height - 2 <= u32::MAX
}

/// The images that the general format dispatch takes for a format.
/// - The color type is one that this library knows.
/// - An image of 8-bit samples is encoded from its own buffer, which has to have
///   the length that its size and color type ask for. Any other image is first
///   made one of 8-bit samples, with a fresh buffer.
/// - As BMP, luma with alpha of a size that the codec does not refuse is written
///   from offsets counted in 32 bits, which have to fit.
pub open spec fn dispatch_takes(image: DynamicImage, format: DispatchFormat) -> bool {
    match image_color(image) {
        None => false,
        Some(kind) => {
            &&& kind.is_eight_bit() ==> buffer_fits(image)
            &&& format == DispatchFormat::Bmp && kind.is_luma_alpha() && bmp_takes_size(
                kind,
                image_width(image),
                image_height(image),
            ) ==> luma_alpha_offsets_fit(image_width(image), image_height(image))
        },
    }
}

impl PixelKind {
    /// The samples are of 8 bits.
    pub open spec fn is_eight_bit(self) -> bool {
        self is L8 || self is La8 || self is Rgb8 || self is Rgba8
    }

    /// The pixel is luma with alpha.
    pub open spec fn is_luma_alpha(self) -> bool {
        self is La8 || self is La16
    }

    /// The samples are floats.
    pub open spec fn is_float(self) -> bool {
        self is Rgb32F || self is Rgba32F
    }

    /// The bytes that the BMP codec writes for a pixel: three for RGB, four for
    /// RGB with alpha, one for luma, whose alpha it leaves out.
    pub open spec fn bmp_pixel_bytes(self) -> int {
        match self {
            PixelKind::Rgb8 | PixelKind::Rgb16 | PixelKind::Rgb32F => 3,
            PixelKind::Rgba8 | PixelKind::Rgba16 | PixelKind::Rgba32F => 4,
            PixelKind::L8 | PixelKind::La8 | PixelKind::L16 | PixelKind::La16 => 1,
        }
    }

    /// The bytes of the bitmap header that the BMP codec writes: the long one
    /// for RGB with alpha, the short one for the others.
    pub open spec fn bmp_header_bytes(self) -> int {
        match self {
            PixelKind::Rgba8 | PixelKind::Rgba16 | PixelKind::Rgba32F => 108,
            _ => 40,
        }
    }

    /// The bytes of the palette that the BMP codec writes: 256 grays of four
    /// bytes for luma, none for the others.
    pub open spec fn bmp_palette_bytes(self) -> int {
        match self {
            PixelKind::L8 | PixelKind::La8 | PixelKind::L16 | PixelKind::La16 => 1024,
            _ => 0,
        }
    }

    /// The bytes that the BMP codec writes before the rows: the two headers and
    /// the palette.
    pub fn bmp_lead_bytes(&self) -> (bytes: u64)
        ensures
            bytes == 14 + self.bmp_header_bytes() + self.bmp_palette_bytes(),
    {
        match self {
            PixelKind::Rgb8 | PixelKind::Rgb16 | PixelKind::Rgb32F => 54,
            PixelKind::Rgba8 | PixelKind::Rgba16 | PixelKind::Rgba32F => 122,
            PixelKind::L8 | PixelKind::La8 | PixelKind::L16 | PixelKind::La16 => 1078,
        }
    }

    /// The bytes that the BMP codec writes for a pixel.
    pub fn bmp_pixel(&self) -> (bytes: u64)
        ensures
            bytes == self.bmp_pixel_bytes(),
    {
        match self {
            PixelKind::Rgb8 | PixelKind::Rgb16 | PixelKind::Rgb32F => 3,
            PixelKind::Rgba8 | PixelKind::Rgba16 | PixelKind::Rgba32F => 4,
            PixelKind::L8 | PixelKind::La8 | PixelKind::L16 | PixelKind::La16 => 1,
        }
    }

    /// Whether the samples are of 8 bits.
    pub fn eight_bit(&self) -> (yes: bool)
        ensures
            yes == self.is_eight_bit(),
    {
        match self {
            PixelKind::L8 | PixelKind::La8 | PixelKind::Rgb8 | PixelKind::Rgba8 => true,
            _ => false,
        }
    }

    /// Whether the pixel is luma with alpha.
    pub fn luma_alpha(&self) -> (yes: bool)
        ensures
            yes == self.is_luma_alpha(),
    {
        match self {
            PixelKind::La8 | PixelKind::La16 => true,
            _ => false,
        }
    }
}

/// The quality that the JPEG codec is given: the setting, held to the codec's
/// range of 1 to 100.
pub open spec fn codec_quality_of(quality: u32) -> u8 {
    if quality < 1 {
        1
    } else if quality > 100 {
        100
    } else {
        quality as u8
    }
}

impl FileEncoder {
    /// The images that [`FileEncoder::encode`] takes. JPEG is made of a fresh
    /// RGB rendition and takes every image. PNG reads the image's own buffer,
    /// which has to have the length that its size and color type ask for. BMP
    /// and WebP take what the general format dispatch takes.
    pub open spec fn takes(self, image: DynamicImage) -> bool {
        match self {
            FileEncoder::Jpg { .. } => true,
            FileEncoder::Png { .. } => buffer_fits(image),
            FileEncoder::Bmp => dispatch_takes(image, DispatchFormat::Bmp),
            FileEncoder::WebP => dispatch_takes(image, DispatchFormat::WebP),
        }
    }

    /// The images of which this encoder is known to make a file.
    pub open spec fn owes(self, image: DynamicImage) -> bool {
        let kind = image_color(image);
        let width = image_width(image);
        let height = image_height(image);
        match self {
            FileEncoder::Jpg { .. } => jpeg_takes_size(width, height),
            FileEncoder::Png { .. } => png_owes(kind, width, height),
            FileEncoder::Bmp => dispatch_takes_size(DispatchFormat::Bmp, kind, width, height),
            FileEncoder::WebP => dispatch_takes_size(DispatchFormat::WebP, kind, width, height),
        }
    }

    /// The images that this encoder is known to refuse.
    pub open spec fn refuses(self, image: DynamicImage) -> bool {
        let kind = image_color(image);
        let width = image_width(image);
        let height = image_height(image);
        match self {
            FileEncoder::Jpg { .. } => !jpeg_takes_size(width, height),
            FileEncoder::Png { .. } => !png_takes(kind, width, height),
            FileEncoder::Bmp => !dispatch_takes_size(DispatchFormat::Bmp, kind, width, height),
            FileEncoder::WebP => !dispatch_takes_size(DispatchFormat::WebP, kind, width, height),
        }
    }

    /// The file that this encoder makes of the image, `None` where the codec
    /// reports an error.
    pub open spec fn encoding_of(self, image: DynamicImage) -> Option<Seq<u8>> {
        match self {
            FileEncoder::Jpg { quality } => jpeg_encoding(image, codec_quality_of(quality)),
            FileEncoder::Png { compressionlevel } => png_encoding(image, compressionlevel),
            FileEncoder::Bmp => dispatch_encoding(image, DispatchFormat::Bmp),
            FileEncoder::WebP => dispatch_encoding(image, DispatchFormat::WebP),
        }
    }

    /// The quality handed to the JPEG codec for a quality setting.
    pub fn codec_quality(quality: u32) -> (held: u8)
        ensures
            held == codec_quality_of(quality),
            1 <= held <= 100,
            1 <= quality <= 100 ==> held == quality,
    {
        if quality < 1 {
            1
        } else if quality > 100 {
            100
        } else {
            quality as u8
        }
    }

    /// Whether the image's buffer has the length that its size and color type
    /// ask for.
    pub fn buffer_fits(image: &DynamicImage) -> (fits: bool)
        ensures
            fits == buffer_fits(*image),
    {
        let wide = width(image);
        let high = height(image);
        let deep = pixel_bytes(image);
        assert(wide * deep <= 0xffff_ffff * 0xff) by (nonlinear_arith)
            requires
                wide <= 0xffff_ffff,
                deep <= 0xff,
        ;
        let row: u64 = (wide as u64) * (deep as u64);
        let expected: u64 = match row.checked_mul(high as u64) {
            Some(exact) => exact,
            None => u64::MAX,
        };
        stored_len(image) as u64 == expected
    }

    /// Whether the offsets of a luma-with-alpha image of this size fit in 32 bits.
    pub fn offsets_fit(width: u32, height: u32) -> (fit: bool)
        ensures
            fit == luma_alpha_offsets_fit(width, height),
    {
        if width > u32::MAX / 2 {
            return false;
        }
        if width == 0 || height == 0 {
            return true;
        }
        assert(2 * width * height <= 0xffff_ffff * 0xffff_ffff) by (nonlinear_arith)
            requires
                2 * width <= 0xffff_ffff,
                height <= 0xffff_ffff,
        ;
        let row: u64 = 2 * (width as u64);
        let all: u64 = row * (height as u64);
        assert(all == 2 * width * height) by (nonlinear_arith)
            requires
                row == 2 * width,
                all == row * height,
        ;
        all <= 0x1_0000_0001
    }

    /// Whether the BMP codec takes an image of this color type and size: a row
    /// and the whole file are no longer than 32 bits count.
    pub fn bmp_takes(kind: PixelKind, width: u32, height: u32) -> (taken: bool)
        ensures
            taken == bmp_takes_size(kind, width, height),
    {
        let pixel = kind.bmp_pixel();
        assert(width * pixel <= 0xffff_ffff * 4) by (nonlinear_arith)
            requires
                width <= 0xffff_ffff,
                0 <= pixel <= 4,
        ;
        let row: u64 = ((width as u64) * pixel + 3) / 4 * 4;
        if row > 0xffff_ffff {
            return false;
        }
        assert(row * height <= 0xffff_ffff * 0xffff_ffff) by (nonlinear_arith)
            requires
                0 <= row <= 0xffff_ffff,
                height <= 0xffff_ffff,
        ;
        let file: u64 = kind.bmp_lead_bytes() + row * (height as u64);
        file <= 0xffff_ffff
    }

    /// Whether the general format dispatch takes the image for the format.
    pub fn can_dispatch(image: &DynamicImage, format: DispatchFormat) -> (taken: bool)
        ensures
            taken == dispatch_takes(*image, format),
    {
        match color(image) {
            None => false,
            Some(kind) => {
                let fits = !kind.eight_bit() || Self::buffer_fits(image);
                let bmp = match format {
                    DispatchFormat::Bmp => true,
                    DispatchFormat::WebP => false,
                };
                let wide = width(image);
                let high = height(image);
                let counted = bmp && kind.luma_alpha() && Self::bmp_takes(kind, wide, high);
                let offsets = !counted || Self::offsets_fit(wide, high);
                fits && offsets
            },
        }
    }

    /// Whether [`FileEncoder::encode`] takes the image.
    pub fn can_encode(&self, image: &DynamicImage) -> (taken: bool)
        ensures
            taken == self.takes(*image),
    {
        match self {
            FileEncoder::Jpg { .. } => true,
            FileEncoder::Png { .. } => Self::buffer_fits(image),
            FileEncoder::Bmp => Self::can_dispatch(image, DispatchFormat::Bmp),
            FileEncoder::WebP => Self::can_dispatch(image, DispatchFormat::WebP),
        }
    }

    /// Encodes the image in memory, in the format and with the options of this
    /// variant:
    /// - `Jpg`: JPEG of the 8-bit RGB rendition, at the quality held to 1..=100;
    /// - `Png`: PNG of the image's own samples, at the compression level;
    /// - `Bmp`, `WebP`: by the general format dispatch.
    ///
    /// A file is owed for every image that [`FileEncoder::owes`] holds of, and an
    /// error for every one that [`FileEncoder::refuses`] holds of. The two leave
    /// nothing open but a PNG of 16-bit samples.
    pub fn encode(&self, image: &DynamicImage) -> (encoded: Result<Vec<u8>, EncodeError>)
        requires
            self.takes(*image),
        ensures
            outcome_bytes(encoded) == self.encoding_of(*image),
            self.owes(*image) ==> encoded is Ok,
            self.refuses(*image) ==> encoded is Err,
    {
        let outcome = match self {
            FileEncoder::Jpg { quality } => jpeg_encode(image, Self::codec_quality(*quality)),
            FileEncoder::Png { compressionlevel } => png_encode(image, *compressionlevel),
            FileEncoder::Bmp => dispatch_encode(image, DispatchFormat::Bmp),
            FileEncoder::WebP => dispatch_encode(image, DispatchFormat::WebP),
        };
        Self::encode_outcome(outcome)
    }

    /// States a codec's outcome as this library's: the bytes as they are, the
    /// codec's error as the cause of an [`EncodeError`].
    pub fn encode_outcome(outcome: Result<Vec<u8>, ImageError>) -> (encoded: Result<
        Vec<u8>,
        EncodeError,
    >)
        ensures
            match outcome {
                Ok(bytes) => encoded == Ok::<Vec<u8>, EncodeError>(bytes),
                Err(cause) => encoded == Err::<Vec<u8>, EncodeError>(EncodeError { cause }),
            },
    {
        match outcome {
            Ok(bytes) => Ok(bytes),
            Err(cause) => Err(EncodeError { cause }),
        }
    }

    /// Encodes the image where [`FileEncoder::encode`] takes it, and says `None`
    /// where it does not.
    pub fn checked_encode(&self, image: &DynamicImage) -> (encoded: Option<
        Result<Vec<u8>, EncodeError>,
    >)
        ensures
            encoded is Some <==> self.takes(*image),
            encoded matches Some(outcome) ==> outcome_bytes(outcome) == self.encoding_of(*image),
            encoded matches Some(outcome) ==> (self.owes(*image) ==> outcome is Ok),
            encoded matches Some(outcome) ==> (self.refuses(*image) ==> outcome is Err),
    {
        if self.can_encode(image) {
            Some(self.encode(image))
        } else {
            None
        }
    }
}

/// Of every image that an encoder takes it is known whether a file is made of it,
/// but of a PNG of 16-bit samples and sides from 1 on; and never both.
pub proof fn lemma_outcome_is_known(encoder: FileEncoder, image: DynamicImage)
    requires
        encoder.takes(image),
    ensures
        !(encoder.owes(image) && encoder.refuses(image)),
        encoder.owes(image) || encoder.refuses(image) || (encoder is Png && png_takes(
            image_color(image),
            image_width(image),
            image_height(image),
        ) && !png_owes(image_color(image), image_width(image), image_height(image))),
{
}

/// A JPEG is made of every image with sides from 1 to 65535, whatever its color
/// type, its alpha channel and the length of its buffer, and at every quality.
pub proof fn lemma_jpeg_takes_every_color(image: DynamicImage, quality: u32)
    requires
        jpeg_takes_size(image_width(image), image_height(image)),
    ensures
        (FileEncoder::Jpg { quality }).takes(image),
        (FileEncoder::Jpg { quality }).owes(image),
{
}

/// Every encoder takes, and makes a file of, every image of 8-bit samples with
/// sides from 1 to 16384 whose buffer has the length that its size and color
/// type ask for.
pub proof fn lemma_ordinary_images_encode(encoder: FileEncoder, image: DynamicImage)
    requires
        image_color(image) matches Some(kind) && kind.is_eight_bit(),
        1 <= image_width(image) <= 16384,
        1 <= image_height(image) <= 16384,
        buffer_fits(image),
    ensures
        encoder.takes(image),
        encoder.owes(image),
{
    let kind = image_color(image).unwrap();
    let width = image_width(image);
    let height = image_height(image);
    assert(2 * width * height <= 2 * 16384 * 16384) by (nonlinear_arith)
        requires
            0 <= width <= 16384,
            0 <= height <= 16384,
    ;
    assert(bmp_row_len(kind, width) <= 4 * 16384 + 3);
    assert(bmp_row_len(kind, width) * height <= (4 * 16384 + 3) * 16384) by (nonlinear_arith)
        requires
            0 <= bmp_row_len(kind, width) <= 4 * 16384 + 3,
            0 <= height <= 16384,
    ;
}

/// A quality out of the codec's range encodes as the nearest end of the range:
/// no quality makes the JPEG codec fail, and none is taken for another.
pub proof fn lemma_quality_is_held(image: DynamicImage, quality: u32)
    ensures
        1 <= codec_quality_of(quality) <= 100,
        1 <= quality <= 100 ==> codec_quality_of(quality) == quality,
        quality < 1 ==> (FileEncoder::Jpg { quality }).encoding_of(image) == (FileEncoder::Jpg {
            quality: 1,
        }).encoding_of(image),
        quality > 100 ==> (FileEncoder::Jpg { quality }).encoding_of(image) == (FileEncoder::Jpg {
            quality: 100,
        }).encoding_of(image),
{
}

} // verus!
