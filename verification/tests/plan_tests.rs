use svg2img::format::{check_power_of_two, extension_of, parse_format, OutputFormat};
use svg2img::plan::{
    plan_from_negotiated, plan_render, IdentitySize, SizeError, SizeStrategy,
};

#[test]
fn power_of_two_accepts_powers() {
    assert!(check_power_of_two(1));
    assert!(check_power_of_two(2));
    assert!(check_power_of_two(4));
    assert!(check_power_of_two(1024));
    assert!(check_power_of_two(1 << 31));
}

#[test]
fn power_of_two_rejects_others() {
    assert!(!check_power_of_two(0));
    assert!(!check_power_of_two(3));
    assert!(!check_power_of_two(6));
    assert!(!check_power_of_two(12));
    assert!(!check_power_of_two(u32::MAX));
}

#[test]
fn format_strings_parse() {
    assert_eq!(parse_format("png"), Some(OutputFormat::Png));
    assert_eq!(parse_format("jpeg"), Some(OutputFormat::Jpeg));
    assert_eq!(parse_format("jpg"), Some(OutputFormat::Jpeg));
    assert_eq!(parse_format("gif"), Some(OutputFormat::Gif));
    assert_eq!(parse_format("webp"), Some(OutputFormat::Webp));
}

#[test]
fn unrecognized_format_is_rejected_not_defaulted() {
    assert_eq!(parse_format("bmp"), None);
    assert_eq!(parse_format("PNG"), None);
    assert_eq!(parse_format(""), None);
}

#[test]
fn extensions_match_formats() {
    assert_eq!(extension_of(OutputFormat::Png), "png");
    assert_eq!(extension_of(OutputFormat::Jpeg), "jpg");
    assert_eq!(extension_of(OutputFormat::Gif), "gif");
    assert_eq!(extension_of(OutputFormat::Webp), "webp");
}

#[test]
fn scenario_no_override_supersampling_two() {
    // Intrinsic 100x50, identity size, supersampling 2: the canvas is
    // 200x100, the ratios are equal, and the content fills it exactly.
    let plan = plan_render(100, 50, &IdentitySize, 2).unwrap();
    assert_eq!(plan.canvas_width, 200);
    assert_eq!(plan.canvas_height, 100);
    assert_eq!(plan.target_width, 100);
    assert_eq!(plan.target_height, 50);
    // Uniform scale of exactly 2.
    assert_eq!(plan.scale_num, 100);
    assert_eq!(plan.scale_den, 50);
    // Zero padding on both axes.
    assert_eq!(plan.tx_num, 0);
    assert_eq!(plan.ty_num, 0);
}

#[test]
fn scenario_square_content_tall_canvas() {
    // Intrinsic 100x100 into a requested 50x200: the content is
    // relatively wider, so the width is capped at 50, the scaled height
    // is 50, and the vertical padding is 75 pixels on each side.
    let plan = plan_from_negotiated(100, 100, 50, 200, 1).unwrap();
    assert_eq!(plan.canvas_width, 50);
    assert_eq!(plan.canvas_height, 200);
    // scale = 50 / 100 = 1/2: scaled width 50, scaled height 50.
    assert_eq!(plan.scale_num, 50);
    assert_eq!(plan.scale_den, 100);
    assert_eq!(
        plan.intrinsic_width as u64 * plan.scale_num as u64 / plan.scale_den as u64,
        50
    );
    // tx = 0, ty = 15000 / 200 = 75.
    assert_eq!(plan.tx_num, 0);
    assert_eq!(plan.ty_num / plan.ty_den, 75);
    assert_eq!(plan.ty_num % plan.ty_den, 0);
}

#[test]
fn canvas_is_exactly_supersampling_times_negotiated() {
    for factor in [1u32, 2, 4, 8] {
        let plan = plan_from_negotiated(33, 77, 123, 456, factor).unwrap();
        assert_eq!(plan.canvas_width, 123 * factor);
        assert_eq!(plan.canvas_height, 456 * factor);
    }
}

#[test]
fn centering_is_exactly_symmetric() {
    // translate + scaled/2 == canvas/2, with denominators cleared, on
    // both axes and for every aspect-ratio relation.
    for (iw, ih, rw, rh) in [(100, 50, 30, 200), (10, 400, 300, 20), (64, 64, 64, 64)] {
        let p = plan_from_negotiated(iw, ih, rw, rh, 2).unwrap();
        assert_eq!(
            p.tx_num + p.intrinsic_width as u64 * p.scale_num as u64,
            p.canvas_width as u64 * p.scale_den as u64
        );
        assert_eq!(
            p.ty_num + p.intrinsic_height as u64 * p.scale_num as u64,
            p.canvas_height as u64 * p.scale_den as u64
        );
    }
}

#[test]
fn zero_negotiated_dimension_is_a_size_error() {
    // A size negotiation that answers (0, 10) fails before any canvas
    // work is attempted.
    let r = plan_from_negotiated(100, 100, 0, 10, 1);
    assert_eq!(r, Err(SizeError::NonPositive { width: 0, height: 10 }));
    let r = plan_from_negotiated(100, 100, 10, 0, 2);
    assert_eq!(r, Err(SizeError::NonPositive { width: 10, height: 0 }));
}

struct ZeroWidth;

impl SizeStrategy for ZeroWidth {
    fn negotiate(&self, _width: u32, height: u32) -> Result<(u32, u32), String> {
        Ok((0, height))
    }
}

struct FailingStrategy;

impl SizeStrategy for FailingStrategy {
    fn negotiate(&self, _width: u32, _height: u32) -> Result<(u32, u32), String> {
        Err(String::from("host refused"))
    }
}

#[test]
fn bad_strategies_surface_as_size_errors() {
    let r = plan_render(100, 100, &ZeroWidth, 1);
    assert_eq!(r, Err(SizeError::NonPositive { width: 0, height: 100 }));
    let r = plan_render(100, 100, &FailingStrategy, 1);
    assert_eq!(
        r,
        Err(SizeError::Negotiation { message: String::from("host refused") })
    );
}

#[test]
fn supersampling_overflow_is_guarded() {
    let r = plan_from_negotiated(10, 10, u32::MAX / 2 + 1, 10, 2);
    assert_eq!(r, Err(SizeError::CanvasOverflow));
}
