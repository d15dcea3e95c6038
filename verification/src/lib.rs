//! A software 3D rasterizer core: model-matrix construction and
//! composition, an affine vertex shader, a barycentric (edge-function)
//! triangle rasterizer, and the framebuffer the fragments land in.
//! All coordinates and matrix entries are fixed-point `i64` values
//! scaled by `fixed::FX_ONE`; window handling, input and presentation
//! are left to the surrounding driver.
pub mod fixed;
pub mod matrix;
pub mod vertex;
pub mod fragment;
pub mod shaders;
pub mod triangle;
pub mod framebuffer;
pub mod render;

use vstd::prelude::*;
use crate::matrix::Matrix4;
use crate::matrix::M_LIMIT;
use crate::matrix::mat_bounded;

verus! {

/// The per-frame read-only inputs of the vertex shader: the composed
/// model matrix, built once per frame by the driver.
pub struct Uniforms {
    pub model_matrix: Matrix4,
}

/// The model matrix stays within the bound that `create_model_matrix`
/// guarantees, so the shader's arithmetic cannot overflow.
pub open spec fn uniforms_wf(u: Uniforms) -> bool {
    mat_bounded(u.model_matrix@, M_LIMIT as int)
}

} // verus!
