//! The triangle rasterizer: turns three screen-space vertices into the
//! fragments covering the triangle. Every integer pixel position in the
//! triangle's bounding box is tested with the three edge functions; a
//! pixel is inside when the three signs agree, zero counting as inside
//! on either side, so pixels exactly on an edge are kept (overwriting a
//! neighbour's shared edge is harmless without blending). A degenerate
//! triangle (collinear vertices, zero doubled area) yields no fragments.
use vstd::prelude::*;
use crate::fixed::FX_ONE;
use crate::fixed::fx_down;
use crate::fixed::lemma_fx_down_bound;
use crate::fragment::Color;
use crate::fragment::Fragment;
use crate::vertex::Vertex;
use crate::vertex::RASTER_LIMIT;
use crate::vertex::raster_in_range;

verus! {

/// Bound on the arguments of the exec edge function (2^47): wide enough
/// for every rasterizable coordinate and every sample point.
pub const EDGE_ARG_LIMIT: i64 = 140737488355328;

/// Bound on pixel indices produced from rasterizable coordinates (2^31).
pub const PIX_LIMIT: i64 = 2147483648;

/// The edge function: twice the signed area of the triangle (a, b, p).
/// Positive when p lies to one side of the directed edge a -> b,
/// negative on the other, zero on the line through it.
pub open spec fn edge_fn(ax: int, ay: int, bx: int, by: int, px: int, py: int) -> int {
    (bx - ax) * (py - ay) - (by - ay) * (px - ax)
}

/// Twice the signed area of the triangle; zero exactly when the three
/// vertices are collinear.
pub open spec fn tri_area2(x0: int, y0: int, x1: int, y1: int, x2: int, y2: int) -> int {
    edge_fn(x0, y0, x1, y1, x2, y2)
}

/// Three points on one parametric line are degenerate: their doubled
/// area vanishes, so the rasterizer's `triangle` emits no fragments
/// for them.
pub proof fn lemma_collinear_area2_zero(
    ax: int, ay: int, dx: int, dy: int, t0: int, t1: int, t2: int,
)
    ensures
        tri_area2(
            ax + t0 * dx, ay + t0 * dy,
            ax + t1 * dx, ay + t1 * dy,
            ax + t2 * dx, ay + t2 * dy,
        ) == 0,
{
    assert(((ax + t1 * dx) - (ax + t0 * dx)) * ((ay + t2 * dy) - (ay + t0 * dy))
        - ((ay + t1 * dy) - (ay + t0 * dy)) * ((ax + t2 * dx) - (ax + t0 * dx)) == 0)
        by (nonlinear_arith);
}

/// The three edge values of any sample point sum to the doubled area:
/// they are the unnormalized barycentric weights of the point, so
/// requiring the three signs to agree is the barycentric inside test
/// (all weights in [0, 1] after dividing by the area), with the zero
/// boundary counted as inside.
#[verifier::rlimit(100)]
pub proof fn lemma_edges_sum_to_area2(
    x0: int, y0: int, x1: int, y1: int, x2: int, y2: int, sx: int, sy: int,
)
    ensures
        edge_fn(x0, y0, x1, y1, sx, sy) + edge_fn(x1, y1, x2, y2, sx, sy)
            + edge_fn(x2, y2, x0, y0, sx, sy) == tri_area2(x0, y0, x1, y1, x2, y2),
{
    assert((x1 - x0) * (sy - y0) - (y1 - y0) * (sx - x0)
        + ((x2 - x1) * (sy - y1) - (y2 - y1) * (sx - x1))
        + ((x0 - x2) * (sy - y2) - (y0 - y2) * (sx - x2))
        == (x1 - x0) * (y2 - y0) - (y1 - y0) * (x2 - x0)) by (nonlinear_arith);
}

/// The three edge values agree in sign, zero counting with either side.
pub open spec fn same_side(e0: int, e1: int, e2: int) -> bool {
    (e0 >= 0 && e1 >= 0 && e2 >= 0) || (e0 <= 0 && e1 <= 0 && e2 <= 0)
}

/// The fixed-point sample coordinate of an integer pixel position.
pub open spec fn sample_coord(p: int) -> int {
    p * (FX_ONE as int)
}

/// The barycentric inside test at integer pixel (px, py): the three
/// edge functions of the sample point agree in sign.
pub open spec fn inside_tri(
    x0: int, y0: int, x1: int, y1: int, x2: int, y2: int, px: int, py: int,
) -> bool {
    same_side(
        edge_fn(x0, y0, x1, y1, sample_coord(px), sample_coord(py)),
        edge_fn(x1, y1, x2, y2, sample_coord(px), sample_coord(py)),
        edge_fn(x2, y2, x0, y0, sample_coord(px), sample_coord(py)),
    )
}

/// The least of three values.
pub open spec fn min3(a: int, b: int, c: int) -> int {
    if a <= b && a <= c { a } else if b <= c { b } else { c }
}

/// The greatest of three values.
pub open spec fn max3(a: int, b: int, c: int) -> int {
    if a >= b && a >= c { a } else if b >= c { b } else { c }
}

/// First integer pixel at or after the least of three fixed-point
/// coordinates: the ceiling of min / FX_ONE.
pub open spec fn pix_lo(a: int, b: int, c: int) -> int {
    (min3(a, b, c) + (FX_ONE as int) - 1) / (FX_ONE as int)
}

/// Last integer pixel at or before the greatest of three fixed-point
/// coordinates: the floor of max / FX_ONE.
pub open spec fn pix_hi(a: int, b: int, c: int) -> int {
    max3(a, b, c) / (FX_ONE as int)
}

/// The rasterizer's coverage predicate: the triangle is not degenerate,
/// the pixel lies in the bounding box of the three vertices, and the
/// inside test holds at its sample point.
pub open spec fn covered(
    x0: int, y0: int, x1: int, y1: int, x2: int, y2: int, px: int, py: int,
) -> bool {
    &&& tri_area2(x0, y0, x1, y1, x2, y2) != 0
    &&& pix_lo(x0, x1, x2) <= px <= pix_hi(x0, x1, x2)
    &&& pix_lo(y0, y1, y2) <= py <= pix_hi(y0, y1, y2)
    &&& inside_tri(x0, y0, x1, y1, x2, y2, px, py)
}

/// A fragment the rasterizer may emit for this triangle: a covered
/// pixel, carrying the default color.
pub open spec fn frag_ok(v0: Vertex, v1: Vertex, v2: Vertex, f: Fragment) -> bool {
    covered(v0.x as int, v0.y as int, v1.x as int, v1.y as int, v2.x as int, v2.y as int,
        f.x as int, f.y as int) && f.color == (Color { r: 0, g: 0, b: 0 })
}

/// Some fragment in the sequence sits at pixel (px, py).
pub open spec fn frag_at(fs: Seq<Fragment>, px: int, py: int) -> bool {
    exists|k: int| 0 <= k < fs.len() && #[trigger] fs[k].x == px && fs[k].y == py
}

/// Computes the edge function exactly, in 128-bit arithmetic.
fn edge_i128(ax: i64, ay: i64, bx: i64, by: i64, px: i64, py: i64) -> (e: i128)
    requires
        -EDGE_ARG_LIMIT <= ax <= EDGE_ARG_LIMIT,
        -EDGE_ARG_LIMIT <= ay <= EDGE_ARG_LIMIT,
        -EDGE_ARG_LIMIT <= bx <= EDGE_ARG_LIMIT,
        -EDGE_ARG_LIMIT <= by <= EDGE_ARG_LIMIT,
        -EDGE_ARG_LIMIT <= px <= EDGE_ARG_LIMIT,
        -EDGE_ARG_LIMIT <= py <= EDGE_ARG_LIMIT,
    ensures
        e == edge_fn(ax as int, ay as int, bx as int, by as int, px as int, py as int),
{
    let dx: i128 = (bx as i128) - (ax as i128);
    let dy: i128 = (py as i128) - (ay as i128);
    let ex: i128 = (px as i128) - (ax as i128);
    let ey: i128 = (by as i128) - (ay as i128);
    proof {
        crate::fixed::lemma_abs_mul_le(
            dx as int, dy as int, 281474976710656, 281474976710656);
        crate::fixed::lemma_abs_mul_le(
            ey as int, ex as int, 281474976710656, 281474976710656);
    }
    dx * dy - ey * ex
}

/// The least of three fixed-point values.
fn min3_i64(a: i64, b: i64, c: i64) -> (r: i64)
    ensures
        r == min3(a as int, b as int, c as int),
{
    if a <= b && a <= c { a } else if b <= c { b } else { c }
}

/// The greatest of three fixed-point values.
fn max3_i64(a: i64, b: i64, c: i64) -> (r: i64)
    ensures
        r == max3(a as int, b as int, c as int),
{
    if a >= b && a >= c { a } else if b >= c { b } else { c }
}

/// First pixel of the bounding range of three coordinates.
fn pix_lo_i64(a: i64, b: i64, c: i64) -> (r: i64)
    requires
        -RASTER_LIMIT <= a <= RASTER_LIMIT,
        -RASTER_LIMIT <= b <= RASTER_LIMIT,
        -RASTER_LIMIT <= c <= RASTER_LIMIT,
    ensures
        r == pix_lo(a as int, b as int, c as int),
        -PIX_LIMIT <= r <= PIX_LIMIT,
{
    let m = min3_i64(a, b, c);
    proof {
        lemma_fx_down_bound(m + 65535, RASTER_LIMIT as int + 65535);
    }
    fx_down(m + 65535)
}

/// Last pixel of the bounding range of three coordinates.
fn pix_hi_i64(a: i64, b: i64, c: i64) -> (r: i64)
    requires
        -RASTER_LIMIT <= a <= RASTER_LIMIT,
        -RASTER_LIMIT <= b <= RASTER_LIMIT,
        -RASTER_LIMIT <= c <= RASTER_LIMIT,
    ensures
        r == pix_hi(a as int, b as int, c as int),
        -PIX_LIMIT <= r <= PIX_LIMIT,
{
    let m = max3_i64(a, b, c);
    proof {
        lemma_fx_down_bound(m as int, RASTER_LIMIT as int);
    }
    fx_down(m)
}

/// The inside test at integer pixel (px, py).
fn inside_test(v0: &Vertex, v1: &Vertex, v2: &Vertex, px: i64, py: i64) -> (r: bool)
    requires
        raster_in_range(*v0),
        raster_in_range(*v1),
        raster_in_range(*v2),
        -PIX_LIMIT <= px <= PIX_LIMIT,
        -PIX_LIMIT <= py <= PIX_LIMIT,
    ensures
        r == inside_tri(v0.x as int, v0.y as int, v1.x as int, v1.y as int,
            v2.x as int, v2.y as int, px as int, py as int),
{
    let sx: i64 = px * FX_ONE;
    let sy: i64 = py * FX_ONE;
    let e0 = edge_i128(v0.x, v0.y, v1.x, v1.y, sx, sy);
    let e1 = edge_i128(v1.x, v1.y, v2.x, v2.y, sx, sy);
    let e2 = edge_i128(v2.x, v2.y, v0.x, v0.y, sx, sy);
    (e0 >= 0 && e1 >= 0 && e2 >= 0) || (e0 <= 0 && e1 <= 0 && e2 <= 0)
}

/// Rasterizes one triangle: the returned fragments sit exactly at the
/// covered pixels, each pixel at most once, and a degenerate triangle
/// yields none.
pub fn triangle(v0: &Vertex, v1: &Vertex, v2: &Vertex) -> (frags: Vec<Fragment>)
    requires
        raster_in_range(*v0),
        raster_in_range(*v1),
        raster_in_range(*v2),
    ensures
        forall|k: int| 0 <= k < frags@.len() ==> frag_ok(*v0, *v1, *v2, #[trigger] frags@[k]),
        forall|px: int, py: int|
            #[trigger] covered(v0.x as int, v0.y as int, v1.x as int, v1.y as int,
                v2.x as int, v2.y as int, px, py) ==> frag_at(frags@, px, py),
        forall|k1: int, k2: int| 0 <= k1 < k2 < frags@.len()
            ==> !(#[trigger] frags@[k1].x == #[trigger] frags@[k2].x
                && frags@[k1].y == frags@[k2].y),
        tri_area2(v0.x as int, v0.y as int, v1.x as int, v1.y as int, v2.x as int, v2.y as int)
            == 0 ==> frags@.len() == 0,
{
    let ghost gx0: int = v0.x as int;
    let ghost gy0: int = v0.y as int;
    let ghost gx1: int = v1.x as int;
    let ghost gy1: int = v1.y as int;
    let ghost gx2: int = v2.x as int;
    let ghost gy2: int = v2.y as int;
    let mut frags: Vec<Fragment> = Vec::new();
    let a2 = edge_i128(v0.x, v0.y, v1.x, v1.y, v2.x, v2.y);
    if a2 == 0 {
        return frags;
    }
    let x_lo = pix_lo_i64(v0.x, v1.x, v2.x);
    let x_hi = pix_hi_i64(v0.x, v1.x, v2.x);
    let y_lo = pix_lo_i64(v0.y, v1.y, v2.y);
    let y_hi = pix_hi_i64(v0.y, v1.y, v2.y);
    if x_lo > x_hi || y_lo > y_hi {
        return frags;
    }
    let mut py: i64 = y_lo;
    while py <= y_hi
        invariant
            raster_in_range(*v0) && raster_in_range(*v1) && raster_in_range(*v2),
            gx0 == v0.x && gy0 == v0.y && gx1 == v1.x && gy1 == v1.y && gx2 == v2.x
                && gy2 == v2.y,
            tri_area2(gx0, gy0, gx1, gy1, gx2, gy2) != 0,
            x_lo == pix_lo(gx0, gx1, gx2) && x_hi == pix_hi(gx0, gx1, gx2),
            y_lo == pix_lo(gy0, gy1, gy2) && y_hi == pix_hi(gy0, gy1, gy2),
            -PIX_LIMIT <= x_lo && x_hi <= PIX_LIMIT && x_lo <= x_hi,
            y_lo <= py <= y_hi + 1 && -PIX_LIMIT <= y_lo && y_hi <= PIX_LIMIT,
            forall|k: int| 0 <= k < frags@.len() ==> frag_ok(*v0, *v1, *v2, #[trigger] frags@[k]),
            forall|k: int| 0 <= k < frags@.len() ==> #[trigger] frags@[k].y < py,
            forall|k1: int, k2: int| 0 <= k1 < k2 < frags@.len()
                ==> !(#[trigger] frags@[k1].x == #[trigger] frags@[k2].x
                    && frags@[k1].y == frags@[k2].y),
            forall|qx: int, qy: int|
                #[trigger] covered(gx0, gy0, gx1, gy1, gx2, gy2, qx, qy) && qy < py
                    ==> frag_at(frags@, qx, qy),
        decreases y_hi + 1 - py,
    {
        let mut px: i64 = x_lo;
        while px <= x_hi
            invariant
                raster_in_range(*v0) && raster_in_range(*v1) && raster_in_range(*v2),
                gx0 == v0.x && gy0 == v0.y && gx1 == v1.x && gy1 == v1.y && gx2 == v2.x
                    && gy2 == v2.y,
                tri_area2(gx0, gy0, gx1, gy1, gx2, gy2) != 0,
                x_lo == pix_lo(gx0, gx1, gx2) && x_hi == pix_hi(gx0, gx1, gx2),
                y_lo == pix_lo(gy0, gy1, gy2) && y_hi == pix_hi(gy0, gy1, gy2),
                x_lo <= px <= x_hi + 1 && -PIX_LIMIT <= x_lo && x_hi <= PIX_LIMIT,
                y_lo <= py <= y_hi && -PIX_LIMIT <= y_lo && y_hi <= PIX_LIMIT,
                forall|k: int| 0 <= k < frags@.len()
                    ==> frag_ok(*v0, *v1, *v2, #[trigger] frags@[k]),
                forall|k: int| 0 <= k < frags@.len()
                    ==> #[trigger] frags@[k].y < py || (frags@[k].y == py && frags@[k].x < px),
                forall|k1: int, k2: int| 0 <= k1 < k2 < frags@.len()
                    ==> !(#[trigger] frags@[k1].x == #[trigger] frags@[k2].x
                        && frags@[k1].y == frags@[k2].y),
                forall|qx: int, qy: int|
                    #[trigger] covered(gx0, gy0, gx1, gy1, gx2, gy2, qx, qy)
                        && (qy < py || (qy == py && qx < px))
                        ==> frag_at(frags@, qx, qy),
            decreases x_hi + 1 - px,
        {
            let ghost old_frags = frags@;
            if inside_test(v0, v1, v2, px, py) {
                let f = Fragment { x: px, y: py, color: Color { r: 0, g: 0, b: 0 } };
                proof {
                    assert(covered(gx0, gy0, gx1, gy1, gx2, gy2, px as int, py as int));
                }
                frags.push(f);
                proof {
                    assert(frags@ == old_frags.push(f));
                    let k = old_frags.len() as int;
                    assert(0 <= k < frags@.len());
                    assert(frags@[k] == f);
                    assert(frags@[k].x == px as int && frags@[k].y == py as int);
                    assert(frag_at(frags@, px as int, py as int));
                }
            } else {
                proof {
                    assert(!inside_tri(gx0, gy0, gx1, gy1, gx2, gy2, px as int, py as int));
                    assert(!covered(gx0, gy0, gx1, gy1, gx2, gy2, px as int, py as int));
                }
            }
            proof {
                assert forall|qx: int, qy: int|
                    frag_at(old_frags, qx, qy) implies frag_at(frags@, qx, qy) by {
                    let k = choose|k: int|
                        0 <= k < old_frags.len() && #[trigger] old_frags[k].x == qx
                            && old_frags[k].y == qy;
                    assert(frags@[k] == old_frags[k]);
                    assert(frags@[k].x == qx && frags@[k].y == qy);
                }
                assert forall|qx: int, qy: int|
                    #[trigger] covered(gx0, gy0, gx1, gy1, gx2, gy2, qx, qy)
                        && (qy < py || (qy == py && qx < px + 1))
                        implies frag_at(frags@, qx, qy) by {
                    if qy < py || (qy == py && qx < px) {
                        assert(frag_at(old_frags, qx, qy));
                    } else {
                        assert(qy == py && qx == px);
                    }
                }
            }
            px = px + 1;
        }
        py = py + 1;
    }
    frags
}

} // verus!
