use rasterizer::fixed::FX_ONE;
use rasterizer::fragment::Fragment;
use rasterizer::matrix::create_model_matrix;
use rasterizer::matrix::new_matrix4;
use rasterizer::matrix::Matrix4;
use rasterizer::shaders::vertex_shader;
use rasterizer::triangle::triangle;
use rasterizer::vertex::Vertex;
use rasterizer::Uniforms;

fn has_fragment_at(frags: &[Fragment], x: i64, y: i64) -> bool {
    frags.iter().any(|f| f.x == x && f.y == y)
}

#[test]
fn matrix_multiply_exact_values() {
    // Scale by 2 times translation by (3, 4, 5): the product keeps the
    // scale on the diagonal and doubles the translation column.
    let a = new_matrix4(
        2 * FX_ONE, 0, 0, 0,
        0, 2 * FX_ONE, 0, 0,
        0, 0, 2 * FX_ONE, 0,
        0, 0, 0, FX_ONE,
    );
    let b = new_matrix4(
        FX_ONE, 0, 0, 3 * FX_ONE,
        0, FX_ONE, 0, 4 * FX_ONE,
        0, 0, FX_ONE, 5 * FX_ONE,
        0, 0, 0, FX_ONE,
    );
    let p = a.multiply(&b);
    assert_eq!(p.m00, 2 * FX_ONE);
    assert_eq!(p.m11, 2 * FX_ONE);
    assert_eq!(p.m22, 2 * FX_ONE);
    assert_eq!(p.m33, FX_ONE);
    assert_eq!(p.m03, 6 * FX_ONE);
    assert_eq!(p.m13, 8 * FX_ONE);
    assert_eq!(p.m23, 10 * FX_ONE);
    assert_eq!(p.m01, 0);
    assert_eq!(p.m30, 0);
}

#[test]
fn matrix_multiply_associative_on_sample() {
    // With entries that are whole multiples of the fixed-point unit the
    // rescaling is exact, so the two groupings agree bit for bit.
    let a = new_matrix4(
        FX_ONE, 2 * FX_ONE, 0, 0,
        0, FX_ONE, 0, 0,
        0, 0, FX_ONE, 0,
        0, 0, 0, FX_ONE,
    );
    let b = new_matrix4(
        3 * FX_ONE, 0, 0, FX_ONE,
        0, FX_ONE, 0, 0,
        0, 0, FX_ONE, 0,
        0, 0, 0, FX_ONE,
    );
    let c = new_matrix4(
        FX_ONE, 0, 0, 0,
        4 * FX_ONE, FX_ONE, 0, 0,
        0, 0, FX_ONE, 0,
        0, 0, 0, 2 * FX_ONE,
    );
    let left = a.multiply(&b).multiply(&c);
    let right = a.multiply(&b.multiply(&c));
    assert_eq!(left, right);
}

#[test]
fn matrix_multiply_not_commutative() {
    // Translation times scale differs from scale times translation: the
    // scale doubles the translation column in one order only.
    let t = new_matrix4(
        FX_ONE, 0, 0, FX_ONE,
        0, FX_ONE, 0, 0,
        0, 0, FX_ONE, 0,
        0, 0, 0, FX_ONE,
    );
    let s = new_matrix4(
        2 * FX_ONE, 0, 0, 0,
        0, 2 * FX_ONE, 0, 0,
        0, 0, 2 * FX_ONE, 0,
        0, 0, 0, FX_ONE,
    );
    let ts = t.multiply(&s);
    let st = s.multiply(&t);
    assert_eq!(ts.m03, FX_ONE);
    assert_eq!(st.m03, 2 * FX_ONE);
    assert_ne!(ts, st);
}

#[test]
fn model_matrix_pure_translation_moves_origin() {
    // translation (400, 300, 0), scale 120, no rotation: the origin
    // lands exactly at (400, 300, 0) in screen space.
    let m = create_model_matrix(
        400 * FX_ONE, 300 * FX_ONE, 0,
        120 * FX_ONE,
        0, FX_ONE, 0, FX_ONE, 0, FX_ONE,
    );
    let uniforms = Uniforms { model_matrix: m };
    let v = Vertex { x: 0, y: 0, z: 0 };
    let t = vertex_shader(&v, &uniforms);
    assert_eq!(t.x, 400 * FX_ONE);
    assert_eq!(t.y, 300 * FX_ONE);
    assert_eq!(t.z, 0);
}

#[test]
fn model_matrix_quarter_turn_about_z() {
    // sin 1, cos 0 about z, unit scale, no translation: the x axis goes
    // to the y axis.
    let m = create_model_matrix(
        0, 0, 0,
        FX_ONE,
        0, FX_ONE, 0, FX_ONE, FX_ONE, 0,
    );
    let uniforms = Uniforms { model_matrix: m };
    let v = Vertex { x: FX_ONE, y: 0, z: 0 };
    let t = vertex_shader(&v, &uniforms);
    assert_eq!(t.x, 0);
    assert_eq!(t.y, FX_ONE);
    assert_eq!(t.z, 0);
}

#[test]
fn model_matrix_scale_applies_before_translation() {
    // scale 2 and translation 10: a vertex at x = 1 lands at 2 + 10,
    // not at (1 + 10) * 2.
    let m = create_model_matrix(
        10 * FX_ONE, 0, 0,
        2 * FX_ONE,
        0, FX_ONE, 0, FX_ONE, 0, FX_ONE,
    );
    let uniforms = Uniforms { model_matrix: m };
    let v = Vertex { x: FX_ONE, y: 0, z: 0 };
    let t = vertex_shader(&v, &uniforms);
    assert_eq!(t.x, 12 * FX_ONE);
    assert_eq!(t.y, 0);
}

#[test]
fn triangle_marks_inside_and_outside_pixels() {
    // Screen triangle (0,0), (10,0), (0,10): pixel (1,1) is inside,
    // pixel (9,9) is outside.
    let v0 = Vertex { x: 0, y: 0, z: 0 };
    let v1 = Vertex { x: 10 * FX_ONE, y: 0, z: 0 };
    let v2 = Vertex { x: 0, y: 10 * FX_ONE, z: 0 };
    let frags = triangle(&v0, &v1, &v2);
    assert!(has_fragment_at(&frags, 1, 1));
    assert!(!has_fragment_at(&frags, 9, 9));
}

#[test]
fn triangle_collinear_yields_no_fragments() {
    // (0,0), (5,5), (10,10) are collinear: zero area, zero fragments.
    let v0 = Vertex { x: 0, y: 0, z: 0 };
    let v1 = Vertex { x: 5 * FX_ONE, y: 5 * FX_ONE, z: 0 };
    let v2 = Vertex { x: 10 * FX_ONE, y: 10 * FX_ONE, z: 0 };
    let frags = triangle(&v0, &v1, &v2);
    assert_eq!(frags.len(), 0);
}

#[test]
fn triangle_duplicate_vertex_yields_no_fragments() {
    let v0 = Vertex { x: 3 * FX_ONE, y: 4 * FX_ONE, z: 0 };
    let v1 = Vertex { x: 3 * FX_ONE, y: 4 * FX_ONE, z: 0 };
    let v2 = Vertex { x: 9 * FX_ONE, y: 2 * FX_ONE, z: 0 };
    let frags = triangle(&v0, &v1, &v2);
    assert_eq!(frags.len(), 0);
}

#[test]
fn triangle_small_right_triangle_exact_cover() {
    // (0,0), (2,0), (0,2): exactly the six integer pixels with
    // x >= 0, y >= 0, x + y <= 2, edges included.
    let v0 = Vertex { x: 0, y: 0, z: 0 };
    let v1 = Vertex { x: 2 * FX_ONE, y: 0, z: 0 };
    let v2 = Vertex { x: 0, y: 2 * FX_ONE, z: 0 };
    let frags = triangle(&v0, &v1, &v2);
    assert_eq!(frags.len(), 6);
    for (x, y) in [(0, 0), (1, 0), (2, 0), (0, 1), (1, 1), (0, 2)] {
        assert!(has_fragment_at(&frags, x, y));
    }
}

#[test]
fn triangle_emits_each_pixel_once() {
    let v0 = Vertex { x: 0, y: 0, z: 0 };
    let v1 = Vertex { x: 6 * FX_ONE, y: FX_ONE, z: 0 };
    let v2 = Vertex { x: 2 * FX_ONE, y: 5 * FX_ONE, z: 0 };
    let frags = triangle(&v0, &v1, &v2);
    for i in 0..frags.len() {
        for j in (i + 1)..frags.len() {
            assert!(!(frags[i].x == frags[j].x && frags[i].y == frags[j].y));
        }
    }
    assert!(!frags.is_empty());
}

#[test]
fn triangle_winding_does_not_change_cover() {
    // The sign test accepts both orientations: reversing the winding
    // covers the same pixels.
    let v0 = Vertex { x: 0, y: 0, z: 0 };
    let v1 = Vertex { x: 4 * FX_ONE, y: 0, z: 0 };
    let v2 = Vertex { x: 0, y: 4 * FX_ONE, z: 0 };
    let a = triangle(&v0, &v1, &v2);
    let b = triangle(&v0, &v2, &v1);
    assert_eq!(a.len(), b.len());
    for f in a.iter() {
        assert!(has_fragment_at(&b, f.x, f.y));
    }
}

#[test]
fn vertex_shader_negative_coordinates_round_down() {
    // A vertex at -0.5 under unit scale stays at -0.5: the shader's
    // rescaling is exact on halves, and floor rounding shows up only
    // below the fixed-point resolution.
    let m: Matrix4 = create_model_matrix(
        0, 0, 0,
        FX_ONE,
        0, FX_ONE, 0, FX_ONE, 0, FX_ONE,
    );
    let uniforms = Uniforms { model_matrix: m };
    let v = Vertex { x: -FX_ONE / 2, y: -FX_ONE, z: 0 };
    let t = vertex_shader(&v, &uniforms);
    assert_eq!(t.x, -FX_ONE / 2);
    assert_eq!(t.y, -FX_ONE);
}
