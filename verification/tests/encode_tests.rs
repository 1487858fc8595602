use svg2img::encode::encode;
use svg2img::format::OutputFormat;
use svg2img::pixels::ImageRgba;

fn sample_rgba() -> ImageRgba {
    // 2x2 pixels with distinct channel values and varying alpha.
    let data = vec![
        255u8, 0, 0, 255, // opaque red
        0, 255, 0, 128, // half-transparent green
        0, 0, 255, 0, // fully transparent blue
        17, 34, 51, 204, // arbitrary color
    ];
    ImageRgba { width: 2, height: 2, data }
}

#[test]
fn png_round_trip_reproduces_the_exact_buffer() {
    // PNG is lossless: encoding then decoding gives back the pixel
    // buffer byte for byte.
    let img = sample_rgba();
    let bytes = encode(&img, OutputFormat::Png).unwrap();
    let decoded = image::load_from_memory(&bytes).unwrap();
    assert_eq!(decoded.width(), 2);
    assert_eq!(decoded.height(), 2);
    assert_eq!(decoded.to_rgba8().into_raw(), img.data);
}

#[test]
fn jpeg_output_has_no_alpha_channel() {
    // Whatever the input transparency, the encoded JPEG carries three
    // channels only.
    let img = sample_rgba();
    let bytes = encode(&img, OutputFormat::Jpeg).unwrap();
    let decoded = image::load_from_memory(&bytes).unwrap();
    assert_eq!(decoded.color(), image::ColorType::Rgb8);
    assert!(!decoded.color().has_alpha());
    assert_eq!(decoded.width(), 2);
    assert_eq!(decoded.height(), 2);
}

#[test]
fn gif_encodes_and_decodes() {
    let img = sample_rgba();
    let bytes = encode(&img, OutputFormat::Gif).unwrap();
    let decoded = image::load_from_memory(&bytes).unwrap();
    assert_eq!(decoded.width(), 2);
    assert_eq!(decoded.height(), 2);
}

#[test]
fn gif_rejects_dimensions_beyond_its_format() {
    // GIF dimensions are 16-bit; the encoder's rejection surfaces as an
    // EncodeError naming the format.
    let img = ImageRgba { width: 65536, height: 1, data: vec![0u8; 4 * 65536] };
    let e = encode(&img, OutputFormat::Gif).unwrap_err();
    assert_eq!(e.format, OutputFormat::Gif);
}

#[test]
fn jpeg_rejects_dimensions_beyond_its_format() {
    // JPEG axes are 16-bit as well.
    let img = ImageRgba { width: 65536, height: 1, data: vec![0u8; 4 * 65536] };
    let e = encode(&img, OutputFormat::Jpeg).unwrap_err();
    assert_eq!(e.format, OutputFormat::Jpeg);
}

#[test]
fn webp_rejects_dimensions_beyond_its_format() {
    // Lossless WEBP holds each axis minus one in 14 bits: 16384 is the
    // largest accepted axis.
    let img = ImageRgba { width: 16385, height: 1, data: vec![0u8; 4 * 16385] };
    let e = encode(&img, OutputFormat::Webp).unwrap_err();
    assert_eq!(e.format, OutputFormat::Webp);
    let img = ImageRgba { width: 16384, height: 1, data: vec![0u8; 4 * 16384] };
    assert!(encode(&img, OutputFormat::Webp).is_ok());
}

#[test]
fn webp_is_lossless_and_keeps_alpha() {
    let img = sample_rgba();
    let bytes = encode(&img, OutputFormat::Webp).unwrap();
    let decoded = image::load_from_memory(&bytes).unwrap();
    assert_eq!(decoded.width(), 2);
    assert_eq!(decoded.height(), 2);
    assert_eq!(decoded.to_rgba8().into_raw(), img.data);
}
