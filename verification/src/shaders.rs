//! The vertex shader: multiplies the homogeneous position (x, y, z, 1)
//! by the model matrix and keeps the three affine components. There is
//! no perspective divide; the pipeline is affine only, so the w row is
//! never consulted.
use vstd::prelude::*;
use crate::Uniforms;
use crate::uniforms_wf;
use crate::fixed::FX_ONE;
use crate::fixed::fx_down_spec;
use crate::fixed::fx_down;
use crate::fixed::lemma_abs_mul_le;
use crate::fixed::lemma_fx_down_bound;
use crate::matrix::M_LIMIT;
use crate::vertex::Vertex;
use crate::vertex::V_LIMIT;
use crate::vertex::RASTER_LIMIT;
use crate::vertex::vertex_in_range;
use crate::vertex::raster_in_range;

verus! {

/// One output coordinate of the vertex shader: row `r` of the matrix
/// applied to the homogeneous position, rescaled to fixed point.
pub open spec fn row_apply_spec(m: Seq<int>, r: int, v: Vertex) -> int {
    fx_down_spec(
        m[4 * r] * v.x + m[4 * r + 1] * v.y + m[4 * r + 2] * v.z + m[4 * r + 3] * (FX_ONE as int),
    )
}

/// Applies one matrix row to the homogeneous position.
fn row_apply(a0: i64, a1: i64, a2: i64, a3: i64, v: &Vertex) -> (r: i64)
    requires
        -M_LIMIT <= a0 <= M_LIMIT,
        -M_LIMIT <= a1 <= M_LIMIT,
        -M_LIMIT <= a2 <= M_LIMIT,
        -M_LIMIT <= a3 <= M_LIMIT,
        vertex_in_range(*v),
    ensures
        r == fx_down_spec(a0 * v.x + a1 * v.y + a2 * v.z + a3 * (FX_ONE as int)),
        -RASTER_LIMIT <= r <= RASTER_LIMIT,
{
    proof {
        lemma_abs_mul_le(a0 as int, v.x as int, M_LIMIT as int, V_LIMIT as int);
        lemma_abs_mul_le(a1 as int, v.y as int, M_LIMIT as int, V_LIMIT as int);
        lemma_abs_mul_le(a2 as int, v.z as int, M_LIMIT as int, V_LIMIT as int);
        lemma_abs_mul_le(a3 as int, FX_ONE as int, M_LIMIT as int, FX_ONE as int);
        lemma_fx_down_bound(
            a0 * v.x + a1 * v.y + a2 * v.z + a3 * (FX_ONE as int),
            4035225266123964416,
        );
    }
    let p0: i64 = a0 * v.x;
    let p1: i64 = a1 * v.y;
    let p2: i64 = a2 * v.z;
    let p3: i64 = a3 * FX_ONE;
    fx_down(p0 + p1 + p2 + p3)
}

/// Transforms one vertex by the model matrix held in the uniforms: the
/// screen-space position is each matrix row applied to (x, y, z, 1).
pub fn vertex_shader(v: &Vertex, uniforms: &Uniforms) -> (t: Vertex)
    requires
        vertex_in_range(*v),
        uniforms_wf(*uniforms),
    ensures
        t.x == row_apply_spec(uniforms.model_matrix@, 0, *v),
        t.y == row_apply_spec(uniforms.model_matrix@, 1, *v),
        t.z == row_apply_spec(uniforms.model_matrix@, 2, *v),
        raster_in_range(t),
{
    let m = &uniforms.model_matrix;
    proof {
        assert(m@[0] == m.m00 as int && m@[1] == m.m01 as int && m@[2] == m.m02 as int
            && m@[3] == m.m03 as int);
        assert(m@[4] == m.m10 as int && m@[5] == m.m11 as int && m@[6] == m.m12 as int
            && m@[7] == m.m13 as int);
        assert(m@[8] == m.m20 as int && m@[9] == m.m21 as int && m@[10] == m.m22 as int
            && m@[11] == m.m23 as int);
    }
    let x = row_apply(m.m00, m.m01, m.m02, m.m03, v);
    let y = row_apply(m.m10, m.m11, m.m12, m.m13, v);
    let z = row_apply(m.m20, m.m21, m.m22, m.m23, v);
    Vertex { x, y, z }
}

} // verus!
