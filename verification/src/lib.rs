//! Verified core of a stylized solar-system shading stage.
//!
//! The floating-point arithmetic of the renderer (matrix transforms, the
//! sine-based noise hash, color mixing, lighting) lives outside this crate;
//! what is verified here is the discrete logic that drives it: the closed
//! planet-type and render-type dispatch with its fallback, the per-draw
//! selector values and their ring/moon overrides, the wrapping integer
//! lattice combine at the heart of the noise generator, and the grouping of
//! vertex streams into complete triangles.

pub mod dispatch;
pub mod noise;
pub mod raster;
