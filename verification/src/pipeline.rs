//! The rendering pipeline: parse, plan, accept the painted canvas,
//! convert, downsample, encode.
//!
//! The engine's paint itself happens outside the library, behind an
//! isolation boundary; everything before it and after it is decided here.
//! Data flows strictly forward: bytes → scene → plan → canvas → RGBA
//! buffer → downsampled buffer → encoded bytes.

use vstd::prelude::*;
use crate::encode::{encode, spec_encode_ok, spec_encoded, EncodeError};
use crate::format::{is_power_of_two, OutputFormat};
use crate::pixels::{downsample, lanczos3_rgba, to_image_buffer, ConversionError};
use crate::plan::{plan_render, RenderPlan, SizeError, SizeStrategy};
use crate::raster::{accept_render, RenderError, RenderOutcome};
use crate::scene::{parse_scene, svg_height_px, svg_parse_ok, svg_width_px, ParseError, VectorScene};

verus! {

/// Everything that can go wrong in the pipeline, tagged by stage.
#[derive(Clone, Debug, PartialEq, Eq)]
pub enum PipelineError {
    /// The vector markup was rejected.
    Parse(ParseError),
    /// Size negotiation failed or produced an invalid size.
    Size(SizeError),
    /// The canvas could not be made or the engine aborted.
    Render(RenderError),
    /// The canvas bytes did not match its dimensions.
    Conversion(ConversionError),
    /// The encoder rejected the buffer.
    Encode(EncodeError),
}

/// The caller-supplied configuration of one invocation.
pub struct Options<S: SizeStrategy> {
    /// The container format to encode into.
    pub format: OutputFormat,
    /// The supersampling factor; must be a power of two.
    pub super_sampling: u32,
    /// How the output size is negotiated from the intrinsic size.
    pub size: S,
}

impl<S: SizeStrategy> Options<S> {
    /// The supersampling factor is validated before the core runs.
    pub open spec fn wf(self) -> bool {
        is_power_of_two(self.super_sampling as nat)
    }
}

/// A parsed scene together with the plan for rendering it.
pub struct Prepared {
    /// The parsed scene, for the rendering engine.
    pub scene: VectorScene,
    /// The canvas dimensions and transform of the render.
    pub plan: RenderPlan,
}

impl Prepared {
    /// The scene is validated and the plan is well-formed and planned for
    /// exactly this scene.
    pub open spec fn wf(self) -> bool {
        &&& self.scene.wf()
        &&& self.plan.wf()
        &&& self.plan.intrinsic_width == self.scene.spec_width()
        &&& self.plan.intrinsic_height == self.scene.spec_height()
    }
}

/// The first half of the pipeline: parses the markup and plans the render.
///
/// Markup that fails to parse, or whose intrinsic size truncates to zero,
/// surfaces as `Parse` — exactly then, and before the size strategy or any
/// canvas is touched.  A failed or invalid size negotiation surfaces as
/// `Size`.  On success the plan is well-formed, built for exactly the
/// parsed intrinsic size, and carries the requested supersampling.
pub fn prepare_render<S: SizeStrategy>(data: &[u8], options: &Options<S>) -> (r: Result<
    Prepared,
    PipelineError,
>)
    requires
        options.wf(),
    ensures
        r matches Err(e) && e matches PipelineError::Parse(_) <==> !(svg_parse_ok(data@)
            && svg_width_px(data@) > 0 && svg_height_px(data@) > 0),
        r matches Ok(p) ==> {
            &&& p.wf()
            &&& p.plan.super_sampling == options.super_sampling
            &&& p.plan.intrinsic_width == svg_width_px(data@)
            &&& p.plan.intrinsic_height == svg_height_px(data@)
        },
        r matches Err(e) ==> (e matches PipelineError::Parse(_) || e
            matches PipelineError::Size(_)),
{
    let scene = match parse_scene(data) {
        Ok(scene) => scene,
        Err(e) => {
            return Err(PipelineError::Parse(e));
        },
    };
    let plan = match plan_render(
        scene.intrinsic_width(),
        scene.intrinsic_height(),
        &options.size,
        options.super_sampling,
    ) {
        Ok(plan) => plan,
        Err(e) => {
            return Err(PipelineError::Size(e));
        },
    };
    Ok(Prepared { scene, plan })
}

/// The pixels that downsampling the accepted canvas leaves: the canvas
/// itself under a supersampling factor of one, its Lanczos reduction to
/// the target size otherwise.
pub open spec fn spec_final_pixels(plan: RenderPlan, canvas: Seq<u8>) -> Seq<u8> {
    if plan.super_sampling == 1 {
        canvas
    } else {
        lanczos3_rgba(
            canvas,
            plan.canvas_width as int,
            plan.canvas_height as int,
            plan.target_width as int,
            plan.target_height as int,
        )
    }
}

/// The second half of the pipeline: accepts the engine's outcome, converts
/// the canvas, downsamples it to the target size, and encodes it.
///
/// An abnormal engine termination surfaces as
/// `Render(RenderError::EngineAborted)` carrying the caught message — never
/// as a crash; a refused allocation as `Render(AllocationFailed)`.  Given a
/// completed canvas of the planned size, the pipeline succeeds exactly
/// when the target dimensions fit the chosen format, failing otherwise
/// with `Encode`; on success the bytes are exactly that format's encoding,
/// at the negotiated target size, of the downsampled canvas.
pub fn finish_render(plan: &RenderPlan, outcome: RenderOutcome, format: OutputFormat) -> (r: Result<
    Vec<u8>,
    PipelineError,
>)
    requires
        plan.wf(),
    ensures
        outcome matches RenderOutcome::Aborted { message } ==> r == Result::<
            Vec<u8>,
            PipelineError,
        >::Err(PipelineError::Render(RenderError::EngineAborted { message })),
        outcome matches RenderOutcome::AllocationRefused ==> r == Result::<
            Vec<u8>,
            PipelineError,
        >::Err(PipelineError::Render(RenderError::AllocationFailed)),
        r matches Ok(v) ==> (outcome matches RenderOutcome::Completed { width, height, data } && v@
            == spec_encoded(
            format,
            plan.target_width as int,
            plan.target_height as int,
            spec_final_pixels(*plan, data@),
        )),
        outcome matches RenderOutcome::Completed { width, height, data } && width
            == plan.canvas_width && height == plan.canvas_height && data@.len() == 4 * (
        width * height) ==> {
            &&& r.is_ok() <==> spec_encode_ok(
                format,
                plan.target_width as int,
                plan.target_height as int,
            )
            &&& !r.is_ok() ==> (r matches Err(PipelineError::Encode(e)) && e.format == format)
        },
{
    let canvas = match accept_render(plan, outcome) {
        Ok(canvas) => canvas,
        Err(e) => {
            return Err(PipelineError::Render(e));
        },
    };
    let buffer = match to_image_buffer(canvas) {
        Ok(buffer) => buffer,
        Err(e) => {
            return Err(PipelineError::Conversion(e));
        },
    };
    let buffer = downsample(buffer, plan.target_width, plan.target_height, plan.super_sampling);
    let encoded = match encode(&buffer, format) {
        Ok(encoded) => encoded,
        Err(e) => {
            return Err(PipelineError::Encode(e));
        },
    };
    Ok(encoded)
}

} // verus!
