//! Accepts the outcome of the untrusted rendering engine.
//!
//! The engine paints outside the library, behind an isolation boundary that
//! turns an abnormal termination into a reported abort instead of a crash.
//! This module makes the adapter's decisions: it checks the canvas the
//! engine was given, and converts every abnormal outcome into a typed
//! error, so no caller ever sees a half-painted canvas.

use vstd::prelude::*;
use crate::plan::RenderPlan;

verus! {

/// Why rasterization failed.
#[derive(Clone, Debug, PartialEq, Eq)]
pub enum RenderError {
    /// The canvas had a zero dimension or its allocation was refused.
    AllocationFailed,
    /// The rendering engine terminated abnormally; the isolation boundary
    /// caught it and reports its message here.
    EngineAborted { message: String },
}

/// The raw pixel memory the rendering engine painted: `width × height`
/// pixels of four interleaved channels in the engine's native order.
#[derive(Clone, Debug, PartialEq, Eq)]
pub struct Canvas {
    /// Canvas width in pixels.
    pub width: u32,
    /// Canvas height in pixels.
    pub height: u32,
    /// The interleaved channel bytes, `4 * width * height` of them.
    pub data: Vec<u8>,
}

impl Canvas {
    /// The byte length matches the pixel dimensions.
    pub open spec fn wf(self) -> bool {
        self.data@.len() == 4 * (self.width * self.height)
    }
}

/// What came back across the rendering engine's isolation boundary.
pub enum RenderOutcome {
    /// The engine painted the whole canvas and returned normally.
    Completed { width: u32, height: u32, data: Vec<u8> },
    /// The canvas could not be allocated.
    AllocationRefused,
    /// The engine terminated abnormally; the boundary caught this message.
    Aborted { message: String },
}

/// Converts the engine's outcome into the adapter's result.
///
/// An abnormal termination becomes `RenderError::EngineAborted` with the
/// caught message; a refused or zero-sized allocation becomes
/// `RenderError::AllocationFailed`; a completed paint is accepted exactly
/// when its canvas has the planned dimensions and a matching byte length,
/// and is otherwise treated as a refused allocation.
pub fn accept_render(plan: &RenderPlan, outcome: RenderOutcome) -> (r: Result<
    Canvas,
    RenderError,
>)
    requires
        plan.wf(),
    ensures
        match outcome {
            RenderOutcome::Aborted { message } => r == Result::<Canvas, RenderError>::Err(
                RenderError::EngineAborted { message },
            ),
            RenderOutcome::AllocationRefused => r == Result::<Canvas, RenderError>::Err(
                RenderError::AllocationFailed,
            ),
            RenderOutcome::Completed { width, height, data } => {
                if width == plan.canvas_width && height == plan.canvas_height && data@.len() == 4 * (
                    width * height) {
                    r matches Ok(c) && c.width == width && c.height == height && c.data@ == data@
                        && c.wf()
                } else {
                    r == Result::<Canvas, RenderError>::Err(RenderError::AllocationFailed)
                }
            },
        },
{
    match outcome {
        RenderOutcome::Aborted { message } => Err(RenderError::EngineAborted { message }),
        RenderOutcome::AllocationRefused => Err(RenderError::AllocationFailed),
        RenderOutcome::Completed { width, height, data } => {
            if width != plan.canvas_width || height != plan.canvas_height {
                return Err(RenderError::AllocationFailed);
            }
            proof {
                crate::plan::lemma_u32_products_fit(width as int, height as int);
            }
            let n: usize = data.len();
            let pixels = (width as u64) * (height as u64);
            if pixels > u64::MAX / 4 {
                // More pixel bytes than any buffer can hold: the length
                // cannot match.
                return Err(RenderError::AllocationFailed);
            }
            if (n as u64) != 4 * pixels {
                return Err(RenderError::AllocationFailed);
            }
            Ok(Canvas { width, height, data })
        },
    }
}

} // verus!
