use rasterizer::fixed::FX_ONE;
use rasterizer::fragment::Color;
use rasterizer::framebuffer::Framebuffer;
use rasterizer::matrix::create_model_matrix;
use rasterizer::render::draw_triangle;
use rasterizer::render::render;
use rasterizer::vertex::Vertex;
use rasterizer::Uniforms;

fn identity_uniforms_with(tx: i64, ty: i64, scale_units: i64) -> Uniforms {
    let m = create_model_matrix(
        tx * FX_ONE, ty * FX_ONE, 0,
        scale_units * FX_ONE,
        0, FX_ONE, 0, FX_ONE, 0, FX_ONE,
    );
    Uniforms { model_matrix: m }
}

#[test]
fn framebuffer_new_then_clear_is_background() {
    let mut fb = Framebuffer::new(4, 3);
    let red = Color { r: 200, g: 10, b: 10 };
    fb.set_background_color(red);
    fb.clear();
    for y in 0..3 {
        for x in 0..4 {
            assert_eq!(fb.get_pixel(x, y), red);
        }
    }
}

#[test]
fn framebuffer_new_starts_black() {
    let fb = Framebuffer::new(2, 2);
    let black = Color { r: 0, g: 0, b: 0 };
    for y in 0..2 {
        for x in 0..2 {
            assert_eq!(fb.get_pixel(x, y), black);
        }
    }
}

#[test]
fn point_outside_bounds_leaves_buffer_unchanged() {
    let mut fb = Framebuffer::new(4, 3);
    fb.set_background_color(Color { r: 7, g: 8, b: 9 });
    fb.clear();
    let before = fb.pixel_bytes();
    let c = Color { r: 255, g: 255, b: 255 };
    fb.point(-1, 0, c);
    fb.point(0, -1, c);
    fb.point(4, 0, c);
    fb.point(0, 3, c);
    fb.point(1000000000000, 2, c);
    fb.point(2, -1000000000000, c);
    let after = fb.pixel_bytes();
    assert_eq!(before, after);
}

#[test]
fn point_in_bounds_writes_one_pixel() {
    let mut fb = Framebuffer::new(4, 3);
    let c = Color { r: 1, g: 2, b: 3 };
    fb.point(2, 1, c);
    for y in 0..3 {
        for x in 0..4 {
            if x == 2 && y == 1 {
                assert_eq!(fb.get_pixel(x, y), c);
            } else {
                assert_eq!(fb.get_pixel(x, y), Color { r: 0, g: 0, b: 0 });
            }
        }
    }
}

#[test]
fn pixel_bytes_are_row_major_rgb() {
    let mut fb = Framebuffer::new(2, 2);
    fb.point(0, 0, Color { r: 1, g: 2, b: 3 });
    fb.point(1, 0, Color { r: 4, g: 5, b: 6 });
    fb.point(0, 1, Color { r: 7, g: 8, b: 9 });
    fb.point(1, 1, Color { r: 10, g: 11, b: 12 });
    let bytes = fb.pixel_bytes();
    assert_eq!(bytes, vec![1, 2, 3, 4, 5, 6, 7, 8, 9, 10, 11, 12]);
}

#[test]
fn render_fills_triangle_with_flat_color() {
    let mut fb = Framebuffer::new(32, 32);
    fb.clear();
    let uniforms = identity_uniforms_with(10, 10, 5);
    // Object triangle (0,0), (1,0), (0,1) lands at (10,10), (15,10), (10,15).
    let verts = vec![
        Vertex { x: 0, y: 0, z: 0 },
        Vertex { x: FX_ONE, y: 0, z: 0 },
        Vertex { x: 0, y: FX_ONE, z: 0 },
    ];
    render(&mut fb, &uniforms, &verts);
    let flat = Color { r: 245, g: 204, b: 69 };
    assert_eq!(fb.get_pixel(10, 10), flat);
    assert_eq!(fb.get_pixel(11, 11), flat);
    assert_eq!(fb.get_pixel(15, 10), flat);
    assert_eq!(fb.get_pixel(2, 2), Color { r: 0, g: 0, b: 0 });
    assert_eq!(fb.get_pixel(15, 15), Color { r: 0, g: 0, b: 0 });
}

#[test]
fn render_twice_after_clear_is_identical() {
    let mut fb = Framebuffer::new(48, 48);
    fb.set_background_color(Color { r: 25, g: 25, b: 38 });
    let uniforms = identity_uniforms_with(20, 20, 9);
    let verts = vec![
        Vertex { x: -FX_ONE, y: -FX_ONE, z: 0 },
        Vertex { x: FX_ONE, y: -FX_ONE / 2, z: 0 },
        Vertex { x: 0, y: FX_ONE, z: 0 },
        Vertex { x: 0, y: 0, z: 0 },
        Vertex { x: 2 * FX_ONE, y: 0, z: 0 },
        Vertex { x: 0, y: 2 * FX_ONE, z: 0 },
    ];
    fb.clear();
    render(&mut fb, &uniforms, &verts);
    let first = fb.pixel_bytes();
    fb.clear();
    render(&mut fb, &uniforms, &verts);
    let second = fb.pixel_bytes();
    assert_eq!(first, second);
}

#[test]
fn render_ignores_trailing_partial_triple() {
    let uniforms = identity_uniforms_with(8, 8, 4);
    let tri = vec![
        Vertex { x: 0, y: 0, z: 0 },
        Vertex { x: FX_ONE, y: 0, z: 0 },
        Vertex { x: 0, y: FX_ONE, z: 0 },
    ];
    let mut with_leftover = tri.clone();
    with_leftover.push(Vertex { x: 2 * FX_ONE, y: 2 * FX_ONE, z: 0 });
    let mut fb1 = Framebuffer::new(24, 24);
    fb1.clear();
    render(&mut fb1, &uniforms, &tri);
    let mut fb2 = Framebuffer::new(24, 24);
    fb2.clear();
    render(&mut fb2, &uniforms, &with_leftover);
    assert_eq!(fb1.pixel_bytes(), fb2.pixel_bytes());
}

#[test]
fn overlapping_triangles_last_drawn_wins() {
    let mut fb = Framebuffer::new(16, 16);
    fb.clear();
    let c1 = Color { r: 200, g: 0, b: 0 };
    let c2 = Color { r: 0, g: 0, b: 200 };
    // Both triangles cover (2, 2); only the first covers (6, 1).
    let a0 = Vertex { x: 0, y: 0, z: 0 };
    let a1 = Vertex { x: 8 * FX_ONE, y: 0, z: 0 };
    let a2 = Vertex { x: 0, y: 8 * FX_ONE, z: 0 };
    let b0 = Vertex { x: 0, y: 0, z: 0 };
    let b1 = Vertex { x: 4 * FX_ONE, y: 0, z: 0 };
    let b2 = Vertex { x: 0, y: 4 * FX_ONE, z: 0 };
    draw_triangle(&mut fb, &a0, &a1, &a2, c1);
    draw_triangle(&mut fb, &b0, &b1, &b2, c2);
    assert_eq!(fb.get_pixel(2, 2), c2);
    assert_eq!(fb.get_pixel(6, 1), c1);
    assert_eq!(fb.get_pixel(12, 12), Color { r: 0, g: 0, b: 0 });
}

#[test]
fn draw_triangle_spilling_over_every_border_is_safe() {
    // A triangle reaching far past every border: the out-of-bounds
    // writes are dropped and the whole visible area is painted.
    let mut fb = Framebuffer::new(8, 8);
    fb.clear();
    let c = Color { r: 50, g: 60, b: 70 };
    let v0 = Vertex { x: -20 * FX_ONE, y: -20 * FX_ONE, z: 0 };
    let v1 = Vertex { x: 40 * FX_ONE, y: 0, z: 0 };
    let v2 = Vertex { x: 0, y: 40 * FX_ONE, z: 0 };
    draw_triangle(&mut fb, &v0, &v1, &v2, c);
    assert_eq!(fb.get_pixel(0, 0), c);
    assert_eq!(fb.get_pixel(7, 0), c);
    assert_eq!(fb.get_pixel(0, 7), c);
    assert_eq!(fb.get_pixel(7, 7), c);
}
