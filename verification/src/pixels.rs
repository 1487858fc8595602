//! Structured pixel buffers: conversion from the raw canvas, alpha
//! removal, and supersampling reduction.

use vstd::prelude::*;
use crate::raster::Canvas;

verus! {

/// The canvas byte length did not match its pixel dimensions.
#[derive(Clone, Copy, Debug, PartialEq, Eq, Structural)]
pub struct ConversionError {
    /// The byte length the dimensions demand.
    pub expected: u64,
    /// The byte length the canvas actually had.
    pub actual: u64,
}

/// An owned pixel buffer in canonical RGBA byte order:
/// `4 * width * height` bytes.
pub struct ImageRgba {
    /// Width in pixels.
    pub width: u32,
    /// Height in pixels.
    pub height: u32,
    /// The RGBA bytes, row by row.
    pub data: Vec<u8>,
}

impl ImageRgba {
    /// The byte length matches the pixel dimensions.
    pub open spec fn wf(self) -> bool {
        self.data@.len() == 4 * (self.width * self.height)
    }
}

/// Reinterprets the raw canvas as a canonical RGBA buffer.
///
/// The four interleaved channels are taken over pixel by pixel in their
/// stored order.  Fails exactly when the canvas byte length is not
/// `4 * width * height` — unreachable for a canvas the adapter accepted,
/// but checked, not assumed.
pub fn to_image_buffer(canvas: Canvas) -> (r: Result<ImageRgba, ConversionError>)
    ensures
        canvas.wf() <==> (r matches Ok(img) && img.width == canvas.width && img.height
            == canvas.height && img.data@ == canvas.data@ && img.wf()),
        !canvas.wf() ==> (r matches Err(e) && e.actual == canvas.data@.len() && (4 * (
        canvas.width * canvas.height) <= u64::MAX ==> e.expected == 4 * (canvas.width
            * canvas.height))),
{
    proof {
        crate::plan::lemma_u32_products_fit(canvas.width as int, canvas.height as int);
    }
    let n: usize = canvas.data.len();
    let pixels = (canvas.width as u64) * (canvas.height as u64);
    if pixels > u64::MAX / 4 {
        // The demanded length does not even fit in 64 bits; report it
        // saturated.
        return Err(ConversionError { expected: u64::MAX, actual: n as u64 });
    }
    let expected = 4 * pixels;
    if (n as u64) != expected {
        return Err(ConversionError { expected, actual: n as u64 });
    }
    let mut data: Vec<u8> = Vec::new();
    let mut i: usize = 0;
    while i < n
        invariant
            i <= n,
            n == canvas.data@.len(),
            n % 4 == 0,
            i % 4 == 0,
            data@ =~= canvas.data@.subrange(0, i as int),
        decreases n - i,
    {
        // One four-channel pixel group per step, in canonical order.
        data.push(canvas.data[i]);
        data.push(canvas.data[i + 1]);
        data.push(canvas.data[i + 2]);
        data.push(canvas.data[i + 3]);
        i = i + 4;
    }
    assert(data@ =~= canvas.data@);
    Ok(ImageRgba { width: canvas.width, height: canvas.height, data })
}

/// The RGB bytes left when every pixel's fourth channel is removed.
pub open spec fn spec_drop_alpha(s: Seq<u8>) -> Seq<u8> {
    Seq::new((s.len() / 4) * 3, |i: int| s[4 * (i / 3) + i % 3])
}

/// Drops the alpha channel: RGBA becomes RGB, the three color channels of
/// every pixel kept in order.
pub fn drop_alpha(data: &Vec<u8>) -> (r: Vec<u8>)
    requires
        data@.len() % 4 == 0,
    ensures
        r@ == spec_drop_alpha(data@),
{
    let n: usize = data.len();
    let mut out: Vec<u8> = Vec::new();
    let mut i: usize = 0;
    while i < n
        invariant
            i <= n,
            n == data@.len(),
            n % 4 == 0,
            i % 4 == 0,
            out@.len() == (i / 4) * 3,
            forall|j: int|
                0 <= j < out@.len() ==> out@[j] == data@[4 * (j / 3) + j % 3],
        decreases n - i,
    {
        out.push(data[i]);
        out.push(data[i + 1]);
        out.push(data[i + 2]);
        i = i + 4;
    }
    assert(out@ =~= spec_drop_alpha(data@));
    out
}

/// What the engine's resampling filter produces: the `new_width ×
/// new_height` RGBA pixels resampled from the given `width × height` RGBA
/// pixels with a three-lobe Lanczos window.  A function of its arguments
/// alone.
pub uninterp spec fn lanczos3_rgba(
    pixels: Seq<u8>,
    width: int,
    height: int,
    new_width: int,
    new_height: int,
) -> Seq<u8>;

/// Relies on `image::imageops::resize` with `FilterType::Lanczos3`: the
/// resampled buffer has exactly the requested dimensions, and depends on
/// the input pixels and dimensions alone.
#[verifier::external_body]
fn resize_lanczos3(width: u32, height: u32, data: &Vec<u8>, new_width: u32, new_height: u32) -> (r:
    Vec<u8>)
    requires
        data@.len() == 4 * (width * height),
        0 < new_width <= width,
        0 < new_height <= height,
    ensures
        r@.len() == 4 * (new_width * new_height),
        r@ == lanczos3_rgba(data@, width as int, height as int, new_width as int, new_height as int),
{
    let img: image::RgbaImage = image::RgbaImage::from_raw(width, height, data.clone()).unwrap();
    let out = image::imageops::resize(&img, new_width, new_height, image::imageops::FilterType::Lanczos3);
    out.into_raw()
}

/// Reduces a supersampled buffer back to the target dimensions.
///
/// With a supersampling factor of 1 the buffer already has the target
/// dimensions and is returned unchanged — an exact identity, no quality
/// loss.  Otherwise the buffer is resampled with the three-lobe Lanczos
/// filter.  Dimension mismatches are excluded by contract: the buffer must
/// be exactly `factor` times the target in each dimension.
pub fn downsample(buffer: ImageRgba, target_width: u32, target_height: u32, factor: u32) -> (r:
    ImageRgba)
    requires
        buffer.wf(),
        factor >= 1,
        target_width > 0,
        target_height > 0,
        buffer.width == target_width * factor,
        buffer.height == target_height * factor,
    ensures
        r.wf(),
        r.width == target_width,
        r.height == target_height,
        factor == 1 ==> r == buffer,
        factor > 1 ==> r.data@ == lanczos3_rgba(
            buffer.data@,
            buffer.width as int,
            buffer.height as int,
            target_width as int,
            target_height as int,
        ),
{
    if factor == 1 {
        return buffer;
    }
    proof {
        lemma_scaled_dim_at_least(target_width as int, factor as int);
        lemma_scaled_dim_at_least(target_height as int, factor as int);
    }
    let data = resize_lanczos3(
        buffer.width,
        buffer.height,
        &buffer.data,
        target_width,
        target_height,
    );
    ImageRgba { width: target_width, height: target_height, data }
}

/// A positive dimension scaled by a factor of at least one is at least the
/// dimension.
proof fn lemma_scaled_dim_at_least(d: int, f: int)
    requires
        d > 0,
        f >= 1,
    ensures
        d * f >= d,
{
    assert(d * f >= d) by (nonlinear_arith)
        requires
            d > 0,
            f >= 1,
    ;
}

} // verus!
