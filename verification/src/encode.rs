//! Serializes a pixel buffer into a container format.
//!
//! PNG is encoded losslessly with maximum compression effort and adaptive
//! filtering and keeps the alpha channel.  JPEG has no alpha channel, so
//! the buffer is reduced to RGB first — never handed to the encoder with
//! four channels.  GIF and WEBP go to their native encoders with default
//! quality, alpha retained.

use vstd::prelude::*;
use image::ImageEncoder;
use crate::format::OutputFormat;
use crate::pixels::{spec_drop_alpha, drop_alpha, ImageRgba};

verus! {

/// The encoder rejected the buffer or the format.
#[derive(Clone, Debug, PartialEq, Eq)]
pub struct EncodeError {
    /// The format that was being encoded.
    pub format: OutputFormat,
    /// What the encoder reported.
    pub message: String,
}

/// What the PNG encoder produces, at maximum compression effort with
/// adaptive filtering, from the given RGBA pixels.  A function of its
/// arguments alone.
pub uninterp spec fn png_bytes(width: int, height: int, pixels: Seq<u8>) -> Seq<u8>;

/// What the JPEG encoder produces, at default quality, from the given RGB
/// pixels.  A function of its arguments alone.
pub uninterp spec fn jpeg_bytes(width: int, height: int, pixels: Seq<u8>) -> Seq<u8>;

/// What the GIF encoder produces from the given RGBA pixels.  A function
/// of its arguments alone.
pub uninterp spec fn gif_bytes(width: int, height: int, pixels: Seq<u8>) -> Seq<u8>;

/// What the lossless WEBP encoder produces from the given RGBA pixels.  A
/// function of its arguments alone.
pub uninterp spec fn webp_bytes(width: int, height: int, pixels: Seq<u8>) -> Seq<u8>;

/// Relies on `image::codecs::png::PngEncoder`, with `CompressionType::Best`
/// and `FilterType::Adaptive`: encodes an RGBA buffer of the given
/// dimensions, deterministically in its arguments.  Writing to a vector
/// with positive dimensions and an exact buffer, the encoder always
/// succeeds; it rejects only a zero dimension, which the `requires`
/// excludes.
#[verifier::external_body]
fn encode_png_rgba(width: u32, height: u32, data: &Vec<u8>) -> (r: Result<Vec<u8>, String>)
    requires
        data@.len() == 4 * (width * height),
        width >= 1,
        height >= 1,
    ensures
        r.is_ok(),
        r matches Ok(v) ==> v@ == png_bytes(width as int, height as int, data@),
{
    let mut out: Vec<u8> = Vec::new();
    image::codecs::png::PngEncoder::new_with_quality(
        &mut out,
        image::codecs::png::CompressionType::Best,
        image::codecs::png::FilterType::Adaptive,
    ).write_image(data.as_slice(), width, height, image::ExtendedColorType::Rgba8).map_err(
        |e| format!("{e}"),
    )?;
    Ok(out)
}

/// Relies on `image::codecs::jpeg::JpegEncoder`: encodes an RGB buffer of
/// the given dimensions at the default quality, deterministically in its
/// arguments.  JPEG holds each axis in 16 bits: the encoder succeeds
/// exactly when both dimensions are at most 65535, and reports larger
/// ones as an error value, never a panic.
#[verifier::external_body]
fn encode_jpeg_rgb(width: u32, height: u32, data: &Vec<u8>) -> (r: Result<Vec<u8>, String>)
    requires
        data@.len() == 3 * (width * height),
        width >= 1,
        height >= 1,
    ensures
        r.is_ok() <==> (width <= 65535 && height <= 65535),
        r matches Ok(v) ==> v@ == jpeg_bytes(width as int, height as int, data@),
{
    let mut out: Vec<u8> = Vec::new();
    image::codecs::jpeg::JpegEncoder::new(&mut out).encode(
        data.as_slice(),
        width,
        height,
        image::ExtendedColorType::Rgb8,
    ).map_err(|e| format!("{e}"))?;
    Ok(out)
}

/// Relies on `image::codecs::gif::GifEncoder`: encodes an RGBA buffer of
/// the given dimensions, deterministically in its arguments (its palette
/// reduction uses ordered maps, no hashing).  GIF holds each axis in 16
/// bits: the encoder succeeds exactly when both dimensions are at most
/// 65535, and reports larger ones as an error value, never a panic.
#[verifier::external_body]
fn encode_gif_rgba(width: u32, height: u32, data: &Vec<u8>) -> (r: Result<Vec<u8>, String>)
    requires
        data@.len() == 4 * (width * height),
        width >= 1,
        height >= 1,
    ensures
        r.is_ok() <==> (width <= 65535 && height <= 65535),
        r matches Ok(v) ==> v@ == gif_bytes(width as int, height as int, data@),
{
    let mut out: Vec<u8> = Vec::new();
    image::codecs::gif::GifEncoder::new(&mut out).encode(
        data.as_slice(),
        width,
        height,
        image::ExtendedColorType::Rgba8,
    ).map_err(|e| format!("{e}"))?;
    Ok(out)
}

/// Relies on `image::codecs::webp::WebPEncoder::new_lossless`: encodes an
/// RGBA buffer of the given dimensions, deterministically in its
/// arguments.  Lossless WEBP holds each axis minus one in 14 bits: the
/// encoder succeeds exactly when both dimensions are at most 16384, and
/// reports larger ones as an error value, never a panic.
#[verifier::external_body]
fn encode_webp_rgba(width: u32, height: u32, data: &Vec<u8>) -> (r: Result<Vec<u8>, String>)
    requires
        data@.len() == 4 * (width * height),
        width >= 1,
        height >= 1,
    ensures
        r.is_ok() <==> (width <= 16384 && height <= 16384),
        r matches Ok(v) ==> v@ == webp_bytes(width as int, height as int, data@),
{
    let mut out: Vec<u8> = Vec::new();
    image::codecs::webp::WebPEncoder::new_lossless(&mut out).encode(
        data.as_slice(),
        width,
        height,
        image::ExtendedColorType::Rgba8,
    ).map_err(|e| format!("{e}"))?;
    Ok(out)
}

/// The bytes a successful encode of this buffer in this format holds: the
/// format's encoder applied to the buffer, with the alpha channel dropped
/// first for JPEG, which has none.
pub open spec fn spec_encoded(format: OutputFormat, width: int, height: int, pixels: Seq<u8>) -> Seq<
    u8,
> {
    match format {
        OutputFormat::Png => png_bytes(width, height, pixels),
        OutputFormat::Jpeg => jpeg_bytes(width, height, spec_drop_alpha(pixels)),
        OutputFormat::Gif => gif_bytes(width, height, pixels),
        OutputFormat::Webp => webp_bytes(width, height, pixels),
    }
}

/// Whether this format's encoder accepts these dimensions: PNG takes any
/// positive size, JPEG and GIF hold each axis in 16 bits, lossless WEBP
/// in 14.
pub open spec fn spec_encode_ok(format: OutputFormat, width: int, height: int) -> bool {
    match format {
        OutputFormat::Png => true,
        OutputFormat::Jpeg => width <= 65535 && height <= 65535,
        OutputFormat::Gif => width <= 65535 && height <= 65535,
        OutputFormat::Webp => width <= 16384 && height <= 16384,
    }
}

/// Encodes the buffer into the chosen format.
///
/// Succeeds exactly when the buffer's dimensions fit the format, and the
/// bytes are then exactly the format's encoding of the buffer; for JPEG
/// the alpha channel is dropped before the encoder ever sees the pixels.
/// Dimensions beyond the format surface as `EncodeError` naming the
/// format.
pub fn encode(buffer: &ImageRgba, format: OutputFormat) -> (r: Result<Vec<u8>, EncodeError>)
    requires
        buffer.wf(),
        buffer.width >= 1,
        buffer.height >= 1,
    ensures
        r.is_ok() <==> spec_encode_ok(format, buffer.width as int, buffer.height as int),
        r matches Ok(v) ==> v@ == spec_encoded(
            format,
            buffer.width as int,
            buffer.height as int,
            buffer.data@,
        ),
        r matches Err(e) ==> e.format == format,
{
    let outcome = match format {
        OutputFormat::Png => encode_png_rgba(buffer.width, buffer.height, &buffer.data),
        OutputFormat::Jpeg => {
            proof {
                lemma_rgba_len_multiple(buffer.width as int, buffer.height as int, buffer.data@.len() as int);
            }
            let rgb = drop_alpha(&buffer.data);
            proof {
                lemma_rgb_len(buffer.width as int, buffer.height as int, buffer.data@.len() as int);
            }
            encode_jpeg_rgb(buffer.width, buffer.height, &rgb)
        },
        OutputFormat::Gif => encode_gif_rgba(buffer.width, buffer.height, &buffer.data),
        OutputFormat::Webp => encode_webp_rgba(buffer.width, buffer.height, &buffer.data),
    };
    match outcome {
        Ok(v) => Ok(v),
        Err(message) => Err(EncodeError { format, message }),
    }
}

/// A buffer of whole four-byte pixels has a length divisible by four.
proof fn lemma_rgba_len_multiple(w: int, h: int, len: int)
    requires
        len == 4 * (w * h),
        w >= 0,
        h >= 0,
    ensures
        len % 4 == 0,
{
    assert(len % 4 == 0) by (nonlinear_arith)
        requires
            len == 4 * (w * h),
            w >= 0,
            h >= 0,
    ;
}

/// Dropping alpha from `4 * (w * h)` bytes leaves `3 * (w * h)` bytes.
proof fn lemma_rgb_len(w: int, h: int, len: int)
    requires
        len == 4 * (w * h),
        w >= 0,
        h >= 0,
    ensures
        (len / 4) * 3 == 3 * (w * h),
{
    assert((len / 4) * 3 == 3 * (w * h)) by (nonlinear_arith)
        requires
            len == 4 * (w * h),
            w >= 0,
            h >= 0,
    ;
}

} // verus!
