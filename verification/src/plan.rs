//! Plans the centered scale-to-fit transform for one render.
//!
//! The plan works over exact integers and rationals: the scale factor and the
//! two translations are kept as fractions, so centering and fit are stated
//! and proved exactly instead of within a floating-point tolerance.  The
//! renderer divides the fractions out when it builds its transform.

use vstd::prelude::*;
use crate::format::is_power_of_two;

verus! {

/// Why planning a render failed.
#[derive(Clone, Debug, PartialEq, Eq)]
pub enum SizeError {
    /// The negotiated target size has a zero dimension.
    NonPositive { width: u32, height: u32 },
    /// The size negotiation itself failed.
    Negotiation { message: String },
    /// Supersampling would push a canvas dimension past `u32::MAX`.
    CanvasOverflow,
}

/// A strategy that turns the intrinsic dimensions of a scene into the
/// desired output dimensions.  Implemented by the host; the default is
/// [`IdentitySize`], which keeps the intrinsic size.
pub trait SizeStrategy {
    fn negotiate(&self, width: u32, height: u32) -> Result<(u32, u32), String>;
}

/// The default size strategy: the output keeps the intrinsic dimensions.
pub struct IdentitySize;

impl SizeStrategy for IdentitySize {
    fn negotiate(&self, width: u32, height: u32) -> (r: Result<(u32, u32), String>)
        ensures
            r == Result::<(u32, u32), String>::Ok((width, height)),
    {
        Ok((width, height))
    }
}

/// The canvas dimensions and the affine transform of one render.
///
/// `scale = scale_num / scale_den` is the uniform content scale;
/// `tx = tx_num / tx_den` and `ty = ty_num / ty_den` are the translations
/// that center the scaled content on the canvas.
#[derive(Clone, Copy, Debug, PartialEq, Eq, Structural)]
pub struct RenderPlan {
    /// Intrinsic width of the content, in pixels.
    pub intrinsic_width: u32,
    /// Intrinsic height of the content, in pixels.
    pub intrinsic_height: u32,
    /// Negotiated output width, before supersampling.
    pub target_width: u32,
    /// Negotiated output height, before supersampling.
    pub target_height: u32,
    /// The supersampling factor the canvas was scaled up by.
    pub super_sampling: u32,
    /// Canvas width: `target_width * super_sampling`.
    pub canvas_width: u32,
    /// Canvas height: `target_height * super_sampling`.
    pub canvas_height: u32,
    /// Numerator of the uniform scale factor.
    pub scale_num: u32,
    /// Denominator of the uniform scale factor.
    pub scale_den: u32,
    /// Numerator of the horizontal translation.
    pub tx_num: u64,
    /// Denominator of the horizontal translation.
    pub tx_den: u64,
    /// Numerator of the vertical translation.
    pub ty_num: u64,
    /// Denominator of the vertical translation.
    pub ty_den: u64,
}

impl RenderPlan {
    /// The content is relatively wider than the canvas, so the fit is
    /// decided by the width: `iw / ih > cw / ch`, cross-multiplied.
    pub open spec fn content_wider(self) -> bool {
        self.intrinsic_width * self.canvas_height > self.canvas_width * self.intrinsic_height
    }

    /// Well-formedness: positive dimensions, exact supersampling, the
    /// fit-inside scale rule, and exactly centering translations.
    pub open spec fn wf(self) -> bool {
        &&& self.intrinsic_width > 0
        &&& self.intrinsic_height > 0
        &&& self.target_width > 0
        &&& self.target_height > 0
        &&& is_power_of_two(self.super_sampling as nat)
        &&& self.canvas_width == self.target_width * self.super_sampling
        &&& self.canvas_height == self.target_height * self.super_sampling
        &&& if self.content_wider() {
            self.scale_num == self.canvas_width && self.scale_den == self.intrinsic_width
        } else {
            self.scale_num == self.canvas_height && self.scale_den == self.intrinsic_height
        }
        &&& self.tx_den == 2 * self.scale_den
        &&& self.ty_den == 2 * self.scale_den
        &&& self.tx_num == self.canvas_width * self.scale_den - self.intrinsic_width
            * self.scale_num
        &&& self.ty_num == self.canvas_height * self.scale_den - self.intrinsic_height
            * self.scale_num
    }
}

/// Builds the plan from already-negotiated output dimensions.
///
/// Fails exactly when a negotiated dimension is zero or supersampling would
/// overflow a canvas dimension; otherwise the returned plan is well-formed,
/// with the canvas exactly `super_sampling` times the negotiated size.
pub fn plan_from_negotiated(
    intrinsic_width: u32,
    intrinsic_height: u32,
    requested_width: u32,
    requested_height: u32,
    super_sampling: u32,
) -> (r: Result<RenderPlan, SizeError>)
    requires
        intrinsic_width > 0,
        intrinsic_height > 0,
        is_power_of_two(super_sampling as nat),
    ensures
        (requested_width == 0 || requested_height == 0) <==> (r == Result::<
            RenderPlan,
            SizeError,
        >::Err(
            SizeError::NonPositive { width: requested_width, height: requested_height },
        )),
        requested_width > 0 && requested_height > 0 && (requested_width * super_sampling
            > u32::MAX || requested_height * super_sampling > u32::MAX) <==> (r == Result::<
            RenderPlan,
            SizeError,
        >::Err(SizeError::CanvasOverflow)),
        r matches Ok(p) ==> {
            &&& p.wf()
            &&& p.intrinsic_width == intrinsic_width
            &&& p.intrinsic_height == intrinsic_height
            &&& p.target_width == requested_width
            &&& p.target_height == requested_height
            &&& p.super_sampling == super_sampling
        },
        requested_width > 0 && requested_height > 0 && requested_width * super_sampling
            <= u32::MAX && requested_height * super_sampling <= u32::MAX ==> r.is_ok(),
{
    if requested_width == 0 || requested_height == 0 {
        return Err(SizeError::NonPositive { width: requested_width, height: requested_height });
    }
    let canvas_width = match requested_width.checked_mul(super_sampling) {
        Some(w) => w,
        None => {
            return Err(SizeError::CanvasOverflow);
        },
    };
    let canvas_height = match requested_height.checked_mul(super_sampling) {
        Some(h) => h,
        None => {
            return Err(SizeError::CanvasOverflow);
        },
    };
    let iw: u64 = intrinsic_width as u64;
    let ih: u64 = intrinsic_height as u64;
    let cw: u64 = canvas_width as u64;
    let ch: u64 = canvas_height as u64;
    proof {
        lemma_u32_products_fit(iw as int, ch as int);
        lemma_u32_products_fit(cw as int, ih as int);
        lemma_u32_products_fit(iw as int, cw as int);
        lemma_u32_products_fit(ih as int, ch as int);
    }
    let content_wider = iw * ch > cw * ih;
    let plan = if content_wider {
        // Fit the width: the height gets symmetric padding.
        RenderPlan {
            intrinsic_width,
            intrinsic_height,
            target_width: requested_width,
            target_height: requested_height,
            super_sampling,
            canvas_width,
            canvas_height,
            scale_num: canvas_width,
            scale_den: intrinsic_width,
            tx_num: cw * iw - iw * cw,
            tx_den: 2 * iw,
            ty_num: ch * iw - ih * cw,
            ty_den: 2 * iw,
        }
    } else {
        // Fit the height: the width gets symmetric padding.
        RenderPlan {
            intrinsic_width,
            intrinsic_height,
            target_width: requested_width,
            target_height: requested_height,
            super_sampling,
            canvas_width,
            canvas_height,
            scale_num: canvas_height,
            scale_den: intrinsic_height,
            tx_num: cw * ih - iw * ch,
            tx_den: 2 * ih,
            ty_num: ch * ih - ih * ch,
            ty_den: 2 * ih,
        }
    };
    Ok(plan)
}

/// A product of two values below `2^32` fits in 64 bits.
pub proof fn lemma_u32_products_fit(a: int, b: int)
    requires
        0 <= a < 0x1_0000_0000,
        0 <= b < 0x1_0000_0000,
    ensures
        a * b < 0x1_0000_0000_0000_0000,
        a * b >= 0,
{
    assert(a * b < 0x1_0000_0000_0000_0000 && a * b >= 0) by (nonlinear_arith)
        requires
            0 <= a < 0x1_0000_0000,
            0 <= b < 0x1_0000_0000,
    ;
}

/// Law: the scaled content is centered on the canvas.  With the fractions
/// cleared (`tx = tx_num / (2 * scale_den)`, scaled width
/// `= intrinsic_width * scale_num / scale_den`), the equation
/// `tx + scaled_width / 2 == canvas_width / 2` becomes the exact integer
/// identity below, and analogously on the y-axis: the padding on the two
/// sides of each axis is exactly equal, for every aspect-ratio combination.
pub proof fn lemma_centering(p: RenderPlan)
    requires
        p.wf(),
    ensures
        p.tx_num + p.intrinsic_width * p.scale_num == p.canvas_width * p.scale_den,
        p.ty_num + p.intrinsic_height * p.scale_num == p.canvas_height * p.scale_den,
{
}

/// Law: the plan never crops.  The scaled content dimensions
/// (`intrinsic * scale_num / scale_den`) fit inside the canvas on both
/// axes, stated with the denominator cleared; on the fit axis the content
/// fills the canvas exactly.
pub proof fn lemma_fits_inside(p: RenderPlan)
    requires
        p.wf(),
    ensures
        p.intrinsic_width * p.scale_num <= p.canvas_width * p.scale_den,
        p.intrinsic_height * p.scale_num <= p.canvas_height * p.scale_den,
        p.content_wider() ==> p.intrinsic_width * p.scale_num == p.canvas_width * p.scale_den,
        !p.content_wider() ==> p.intrinsic_height * p.scale_num == p.canvas_height * p.scale_den,
{
    let iw = p.intrinsic_width as int;
    let ih = p.intrinsic_height as int;
    let cw = p.canvas_width as int;
    let ch = p.canvas_height as int;
    if p.content_wider() {
        assert(iw * cw == cw * iw) by (nonlinear_arith);
        assert(iw * ch > cw * ih ==> ih * cw <= ch * iw) by (nonlinear_arith);
    } else {
        assert(ih * ch == ch * ih) by (nonlinear_arith);
    }
}

/// Law: when the content and canvas aspect ratios agree exactly
/// (cross-multiplied), the content fills the canvas with zero padding on
/// both axes.
pub proof fn lemma_equal_ratios_fill_exactly(p: RenderPlan)
    requires
        p.wf(),
        p.intrinsic_width * p.canvas_height == p.canvas_width * p.intrinsic_height,
    ensures
        p.tx_num == 0,
        p.ty_num == 0,
{
    let iw = p.intrinsic_width as int;
    let ih = p.intrinsic_height as int;
    let cw = p.canvas_width as int;
    let ch = p.canvas_height as int;
    assert(ch * ih == ih * ch) by (nonlinear_arith);
    assert(cw * ih == ih * cw) by (nonlinear_arith);
    assert(iw * ch == ch * iw) by (nonlinear_arith);
}

/// Plans a render: negotiates the output size through the strategy, then
/// builds the plan.  A strategy failure becomes `SizeError::Negotiation`;
/// whatever size the strategy returned is handed to
/// [`plan_from_negotiated`], whose contract pins the rest down.
pub fn plan_render<S: SizeStrategy>(
    intrinsic_width: u32,
    intrinsic_height: u32,
    strategy: &S,
    super_sampling: u32,
) -> (r: Result<RenderPlan, SizeError>)
    requires
        intrinsic_width > 0,
        intrinsic_height > 0,
        is_power_of_two(super_sampling as nat),
    ensures
        r matches Ok(p) ==> {
            &&& p.wf()
            &&& p.intrinsic_width == intrinsic_width
            &&& p.intrinsic_height == intrinsic_height
            &&& p.super_sampling == super_sampling
        },
{
    let (requested_width, requested_height) = match strategy.negotiate(
        intrinsic_width,
        intrinsic_height,
    ) {
        Ok(size) => size,
        Err(message) => {
            return Err(SizeError::Negotiation { message });
        },
    };
    plan_from_negotiated(
        intrinsic_width,
        intrinsic_height,
        requested_width,
        requested_height,
        super_sampling,
    )
}

} // verus!
