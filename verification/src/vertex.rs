//! Vertices: plain data carriers for the pipeline stages. The same
//! record serves object space (mesh data, before the vertex shader) and
//! screen space (after it); coordinates are fixed-point `i64` values.
use vstd::prelude::*;

verus! {

/// Bound on object-space coordinates handed to the vertex shader (2^17,
/// that is two units either side of the origin).
pub const V_LIMIT: i64 = 131072;

/// Bound on screen-space coordinates accepted by the rasterizer (2^46);
/// every vertex the shader produces stays within it.
pub const RASTER_LIMIT: i64 = 70368744177664;

/// A 3D position, fixed point. Immutable mesh data before the shader,
/// screen-space (pixel-coordinate) position after it; `z` is carried
/// along but unused, as there is no depth test.
#[derive(Clone, Copy, PartialEq, Eq, Structural, Debug)]
pub struct Vertex {
    pub x: i64,
    pub y: i64,
    pub z: i64,
}

/// Object-space coordinates small enough for the vertex shader.
pub open spec fn vertex_in_range(v: Vertex) -> bool {
    &&& -V_LIMIT <= v.x <= V_LIMIT
    &&& -V_LIMIT <= v.y <= V_LIMIT
    &&& -V_LIMIT <= v.z <= V_LIMIT
}

/// Screen-space coordinates small enough for the rasterizer.
pub open spec fn raster_in_range(v: Vertex) -> bool {
    &&& -RASTER_LIMIT <= v.x <= RASTER_LIMIT
    &&& -RASTER_LIMIT <= v.y <= RASTER_LIMIT
    &&& -RASTER_LIMIT <= v.z <= RASTER_LIMIT
}

} // verus!
