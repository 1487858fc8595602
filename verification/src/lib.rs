//! Rasterizes scalable vector images to fixed-size raster images.
//!
//! The pipeline parses vector markup into a scene with an intrinsic size,
//! plans a centered scale-to-fit transform for a negotiated target size under
//! supersampling, accepts the raster canvas painted by the rendering engine,
//! converts it to a canonical RGBA buffer, downsamples it back to the target
//! size, and encodes it into the chosen container format.

pub mod encode;
pub mod format;
pub mod pipeline;
pub mod pixels;
pub mod plan;
pub mod raster;
pub mod scene;
