//! The render pass: groups the vertex array into triples, transforms
//! each vertex with the model matrix, rasterizes every triangle and
//! writes its fragments, in array order, into the framebuffer with a
//! flat color. With no depth test the draw order decides overlaps:
//! the last triangle drawn owns a shared pixel.
use vstd::prelude::*;
use vstd::arithmetic::div_mod::lemma_fundamental_div_mod;
use vstd::arithmetic::div_mod::lemma_fundamental_div_mod_converse_div;
use vstd::arithmetic::div_mod::lemma_fundamental_div_mod_converse_mod;
use vstd::arithmetic::div_mod::lemma_div_is_ordered;
use vstd::arithmetic::div_mod::lemma_div_pos_is_pos;
use vstd::arithmetic::mul::lemma_mul_inequality;
use vstd::arithmetic::mul::lemma_mul_is_distributive_sub;
use crate::Uniforms;
use crate::uniforms_wf;
use crate::fragment::Color;
use crate::fragment::Fragment;
use crate::framebuffer::Framebuffer;
use crate::shaders::row_apply_spec;
use crate::shaders::vertex_shader;
use crate::triangle::covered;
use crate::triangle::frag_ok;
use crate::triangle::frag_at;
use crate::triangle::triangle;
use crate::vertex::Vertex;
use crate::vertex::raster_in_range;
use crate::vertex::vertex_in_range;

verus! {

/// The flat color every triangle is filled with.
pub open spec fn flat_color() -> Color {
    Color { r: 245, g: 204, b: 69 }
}

/// The flat fill color as a runtime value.
pub fn flat_color_value() -> (c: Color)
    ensures
        c == flat_color(),
{
    Color { r: 245, g: 204, b: 69 }
}

/// Fragment `j` lands on buffer index `i` of a `w` x `h` grid: its
/// pixel is in bounds and `i` is its row-major index.
pub open spec fn frag_hits(fs: Seq<Fragment>, j: int, w: int, h: int, i: int) -> bool {
    0 <= fs[j].x < w && 0 <= fs[j].y < h && i == fs[j].y * w + fs[j].x
}

/// One triangle painted over a buffer: every covered in-bounds pixel
/// takes the color, every other pixel keeps its value.
pub open spec fn paint_spec(
    buf: Seq<Color>, w: int,
    x0: int, y0: int, x1: int, y1: int, x2: int, y2: int, c: Color,
) -> Seq<Color> {
    Seq::new(
        buf.len(),
        |i: int| if covered(x0, y0, x1, y1, x2, y2, i % w, i / w) { c } else { buf[i] },
    )
}

/// The whole pass over a buffer: each successive vertex triple is
/// transformed by the matrix rows and painted in order; a trailing
/// partial triple is ignored.
pub open spec fn render_spec(
    buf: Seq<Color>, w: int, m: Seq<int>, verts: Seq<Vertex>, c: Color,
) -> Seq<Color>
    decreases verts.len(),
{
    if verts.len() < 3 {
        buf
    } else {
        let painted = paint_spec(
            buf, w,
            row_apply_spec(m, 0, verts[0]), row_apply_spec(m, 1, verts[0]),
            row_apply_spec(m, 0, verts[1]), row_apply_spec(m, 1, verts[1]),
            row_apply_spec(m, 0, verts[2]), row_apply_spec(m, 1, verts[2]),
            c,
        );
        render_spec(painted, w, m, verts.skip(3), c)
    }
}

/// On a positive grid, a buffer index decomposes into its column
/// (`i % w`) and row (`i / w`).
pub proof fn lemma_grid_coords(i: int, w: int, h: int)
    requires
        0 < w,
        0 < h,
        0 <= i < w * h,
    ensures
        0 <= i % w < w,
        0 <= i / w < h,
        i == (i / w) * w + (i % w),
{
    lemma_fundamental_div_mod(i, w);
    lemma_mul_is_distributive_sub(w, h, 1);
    lemma_div_is_ordered(i, w * h - 1, w);
    lemma_fundamental_div_mod_converse_div(w * h - 1, w, h - 1, w - 1);
    lemma_div_pos_is_pos(i, w);
}

/// The row-major index of an in-bounds pixel decomposes back into that
/// pixel.
pub proof fn lemma_grid_index(x: int, y: int, w: int)
    requires
        0 < w,
        0 <= x < w,
        0 <= y,
    ensures
        (y * w + x) / w == y,
        (y * w + x) % w == x,
{
    lemma_fundamental_div_mod_converse_div(y * w + x, w, y, x);
    lemma_fundamental_div_mod_converse_mod(y * w + x, w, y, x);
}

/// Rasterizes one screen-space triangle into the framebuffer: every
/// covered in-bounds pixel takes `color`, every other pixel is kept.
#[verifier::loop_isolation(false)]
pub fn draw_triangle(fb: &mut Framebuffer, v0: &Vertex, v1: &Vertex, v2: &Vertex, color: Color)
    requires
        old(fb).wf(),
        raster_in_range(*v0),
        raster_in_range(*v1),
        raster_in_range(*v2),
    ensures
        final(fb).wf(),
        final(fb).same_shape(old(fb)),
        final(fb).pixels() == paint_spec(
            old(fb).pixels(), old(fb).width as int,
            v0.x as int, v0.y as int, v1.x as int, v1.y as int, v2.x as int, v2.y as int,
            color,
        ),
{
    let ghost gx0: int = v0.x as int;
    let ghost gy0: int = v0.y as int;
    let ghost gx1: int = v1.x as int;
    let ghost gy1: int = v1.y as int;
    let ghost gx2: int = v2.x as int;
    let ghost gy2: int = v2.y as int;
    let ghost base = fb.pixels();
    let ghost w: int = fb.width as int;
    let ghost h: int = fb.height as int;
    let frags = triangle(v0, v1, v2);
    let mut k: usize = 0;
    while k < frags.len()
        invariant
            k <= frags@.len(),
            fb.wf(),
            fb.same_shape(old(fb)),
            fb.pixels().len() == base.len(),
            forall|i: int| 0 <= i < base.len() ==> #[trigger] fb.pixels()[i] == (
                if exists|j: int| 0 <= j < k && frag_hits(frags@, j, w, h, i) {
                    color
                } else {
                    base[i]
                }
            ),
        decreases frags@.len() - k,
    {
        let f = frags[k];
        let ghost prev = fb.pixels();
        fb.point(f.x, f.y, color);
        proof {
            if 0 <= f.x < w && 0 <= f.y < h {
                lemma_mul_inequality(f.y as int, h - 1, w);
                lemma_mul_is_distributive_sub(w, h, 1);
            }
            assert forall|i: int| 0 <= i < base.len() implies #[trigger] fb.pixels()[i] == (
                if exists|j: int| 0 <= j < k + 1 && frag_hits(frags@, j, w, h, i) {
                    color
                } else {
                    base[i]
                }
            ) by {
                if exists|j: int| 0 <= j < k + 1 && frag_hits(frags@, j, w, h, i) {
                    let j = choose|j: int| 0 <= j < k + 1 && frag_hits(frags@, j, w, h, i);
                    if j < k {
                        assert(exists|j2: int| 0 <= j2 < k && frag_hits(frags@, j2, w, h, i));
                        assert(prev[i] == color);
                    } else {
                        assert(frag_hits(frags@, k as int, w, h, i));
                    }
                } else {
                    assert(!(exists|j: int| 0 <= j < k && frag_hits(frags@, j, w, h, i)));
                    assert(!frag_hits(frags@, k as int, w, h, i));
                    assert(prev[i] == base[i]);
                }
            }
        }
        k = k + 1;
    }
    proof {
        let result = paint_spec(base, w, gx0, gy0, gx1, gy1, gx2, gy2, color);
        assert forall|i: int| 0 <= i < base.len() implies fb.pixels()[i] == result[i] by {
            assert(0 < base.len());
            assert(w * h == base.len());
            assert(0 < w && 0 < h) by {
                assert(w >= 0 && h >= 0);
                if w == 0 || h == 0 {
                    assert(w * h == 0) by (nonlinear_arith)
                        requires
                            w == 0 || h == 0,
                    ;
                }
            }
            lemma_grid_coords(i, w, h);
            let x = i % w;
            let y = i / w;
            if covered(gx0, gy0, gx1, gy1, gx2, gy2, x, y) {
                assert(frag_at(frags@, x, y));
                let j = choose|j: int|
                    0 <= j < frags@.len() && #[trigger] frags@[j].x == x && frags@[j].y == y;
                assert(frag_hits(frags@, j, w, h, i));
                assert(exists|j2: int|
                    0 <= j2 < frags@.len() && frag_hits(frags@, j2, w, h, i));
                assert(fb.pixels()[i] == color);
            } else {
                assert forall|j: int| 0 <= j < frags@.len()
                    implies !frag_hits(frags@, j, w, h, i) by {
                    if frag_hits(frags@, j, w, h, i) {
                        lemma_grid_index(frags@[j].x as int, frags@[j].y as int, w);
                        assert(frags@[j].x == x && frags@[j].y == y);
                        assert(frag_ok(*v0, *v1, *v2, frags@[j]));
                        assert(covered(gx0, gy0, gx1, gy1, gx2, gy2, x, y));
                    }
                }
                assert(fb.pixels()[i] == base[i]);
            }
        }
        assert(fb.pixels() =~= result);
    }
}

/// Renders the whole vertex array: each consecutive triple, in array
/// order, is transformed by the uniforms' model matrix, rasterized and
/// filled with the flat color; one or two leftover vertices are
/// silently ignored.
#[verifier::loop_isolation(false)]
pub fn render(fb: &mut Framebuffer, uniforms: &Uniforms, vertex_array: &Vec<Vertex>)
    requires
        old(fb).wf(),
        uniforms_wf(*uniforms),
        forall|i: int| 0 <= i < vertex_array@.len()
            ==> vertex_in_range(#[trigger] vertex_array@[i]),
    ensures
        final(fb).wf(),
        final(fb).same_shape(old(fb)),
        final(fb).pixels() == render_spec(
            old(fb).pixels(), old(fb).width as int, uniforms.model_matrix@, vertex_array@,
            flat_color(),
        ),
{
    let ghost verts = vertex_array@;
    let ghost m = uniforms.model_matrix@;
    let ghost base = fb.pixels();
    let ghost w: int = fb.width as int;
    proof {
        assert(verts.skip(0) =~= verts);
    }
    let mut i: usize = 0;
    while vertex_array.len() - i > 2
        invariant
            i <= verts.len(),
            fb.wf(),
            fb.same_shape(old(fb)),
            render_spec(fb.pixels(), w, m, verts.skip(i as int), flat_color())
                == render_spec(base, w, m, verts, flat_color()),
        decreases verts.len() - i,
    {
        let t0 = vertex_shader(&vertex_array[i], uniforms);
        let t1 = vertex_shader(&vertex_array[i + 1], uniforms);
        let t2 = vertex_shader(&vertex_array[i + 2], uniforms);
        let color = flat_color_value();
        let ghost before = fb.pixels();
        draw_triangle(fb, &t0, &t1, &t2, color);
        proof {
            let rest = verts.skip(i as int);
            assert(rest.len() >= 3);
            assert(rest[0] == verts[i as int]);
            assert(rest[1] == verts[i as int + 1]);
            assert(rest[2] == verts[i as int + 2]);
            assert(rest.skip(3) =~= verts.skip(i as int + 3));
            assert(fb.pixels() == paint_spec(
                before, w,
                row_apply_spec(m, 0, rest[0]), row_apply_spec(m, 1, rest[0]),
                row_apply_spec(m, 0, rest[1]), row_apply_spec(m, 1, rest[1]),
                row_apply_spec(m, 0, rest[2]), row_apply_spec(m, 1, rest[2]),
                flat_color(),
            ));
            assert(render_spec(before, w, m, rest, flat_color())
                == render_spec(fb.pixels(), w, m, verts.skip(i as int + 3), flat_color()));
        }
        i = i + 3;
    }
    proof {
        assert(verts.skip(i as int).len() < 3);
        assert(render_spec(fb.pixels(), w, m, verts.skip(i as int), flat_color())
            == fb.pixels());
    }
}

/// Determinism of the pass: rendering over any two cleared buffers of
/// the same size and background gives the same image, so re-running
/// `render` after a `clear` reproduces the frame exactly.
pub proof fn lemma_render_deterministic(
    b1: Seq<Color>, b2: Seq<Color>, w: int, m: Seq<int>, verts: Seq<Vertex>, c: Color, bg: Color,
)
    requires
        b1.len() == b2.len(),
        forall|i: int| 0 <= i < b1.len() ==> #[trigger] b1[i] == bg,
        forall|i: int| 0 <= i < b2.len() ==> #[trigger] b2[i] == bg,
    ensures
        render_spec(b1, w, m, verts, c) == render_spec(b2, w, m, verts, c),
{
    assert(b1 =~= b2);
}

/// Last write wins: when two triangles are painted in order, an
/// in-bounds pixel covered by the second shows the second's color, and
/// one covered only by the first keeps the first's color. There is no
/// blending and no depth test; draw order alone decides overlaps.
pub proof fn lemma_last_write_wins(
    buf: Seq<Color>, w: int, h: int,
    ax0: int, ay0: int, ax1: int, ay1: int, ax2: int, ay2: int, c1: Color,
    bx0: int, by0: int, bx1: int, by1: int, bx2: int, by2: int, c2: Color,
    px: int, py: int,
)
    requires
        0 < w,
        0 < h,
        buf.len() == w * h,
        0 <= px < w,
        0 <= py < h,
    ensures
        covered(bx0, by0, bx1, by1, bx2, by2, px, py) ==> paint_spec(
            paint_spec(buf, w, ax0, ay0, ax1, ay1, ax2, ay2, c1),
            w, bx0, by0, bx1, by1, bx2, by2, c2,
        )[py * w + px] == c2,
        !covered(bx0, by0, bx1, by1, bx2, by2, px, py)
            && covered(ax0, ay0, ax1, ay1, ax2, ay2, px, py) ==> paint_spec(
            paint_spec(buf, w, ax0, ay0, ax1, ay1, ax2, ay2, c1),
            w, bx0, by0, bx1, by1, bx2, by2, c2,
        )[py * w + px] == c1,
{
    let i = py * w + px;
    lemma_grid_index(px, py, w);
    lemma_mul_inequality(py, h - 1, w);
    lemma_mul_is_distributive_sub(w, h, 1);
    assert(0 <= i < buf.len());
}

} // verus!
