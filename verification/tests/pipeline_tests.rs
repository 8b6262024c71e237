use softpipe::circle::Circle;
use softpipe::color::Color;
use softpipe::fixed::{FX_ONE, FX_PI};
use softpipe::framebuffer::{Framebuffer, DEPTH_FAR};
use softpipe::fragment::Fragment;
use softpipe::pipeline::{
    create_model_matrix, create_perspective_matrix, create_view_matrix, create_viewport_matrix,
    render, write_fragments, SceneObject, Uniforms,
};
use softpipe::shaders::sun_shader;
use softpipe::shaders::vertex_shader;
use softpipe::vecmat::{Mat4Fx, Vec2Fx, Vec3Fx};
use softpipe::vertex::Vertex;

fn model_vertex(x: i64, y: i64, z: i64) -> Vertex {
    Vertex::new(
        Vec3Fx { x, y, z },
        Vec3Fx { x: 0, y: 0, z: FX_ONE },
        Vec2Fx { x: 0, y: 0 },
        Color::new(255, 255, 255),
    )
}

fn identity_uniforms(viewport: Mat4Fx) -> Uniforms {
    Uniforms {
        model_matrix: Mat4Fx::identity(),
        view_matrix: Mat4Fx::identity(),
        projection_matrix: Mat4Fx::identity(),
        viewport_matrix: viewport,
        time: 0,
    }
}

#[test]
fn origin_maps_to_viewport_center() {
    // 800 x 600 pixels in fixed point
    let viewport = create_viewport_matrix(800 * FX_ONE, 600 * FX_ONE);
    let uniforms = identity_uniforms(viewport);
    let out = vertex_shader(&model_vertex(0, 0, 0), &uniforms);
    assert_eq!(out.transformed_position, Vec3Fx { x: 400 * FX_ONE, y: 300 * FX_ONE, z: 0 });
}

#[test]
fn vertex_shader_passes_attributes_through() {
    let viewport = create_viewport_matrix(8 * FX_ONE, 8 * FX_ONE);
    let uniforms = identity_uniforms(viewport);
    let v = model_vertex(FX_ONE, -FX_ONE, 32768);
    let out = vertex_shader(&v, &uniforms);
    assert_eq!(out.position, v.position);
    assert_eq!(out.normal, v.normal);
    assert_eq!(out.tex_coords, v.tex_coords);
    assert_eq!(out.color, v.color);
    // identity model matrix turns the normal by the identity
    assert_eq!(out.transformed_normal, v.normal);
}

#[test]
fn viewport_matrix_entries() {
    let m = create_viewport_matrix(800 * FX_ONE, 600 * FX_ONE);
    assert_eq!(m.m00, 400 * FX_ONE);
    assert_eq!(m.m03, 400 * FX_ONE);
    assert_eq!(m.m11, -300 * FX_ONE);
    assert_eq!(m.m13, 300 * FX_ONE);
    assert_eq!(m.m22, FX_ONE);
    assert_eq!(m.m33, FX_ONE);
}

#[test]
fn model_matrix_without_rotation_is_scale_and_translation() {
    let t = Vec3Fx { x: 5 * FX_ONE, y: -2 * FX_ONE, z: FX_ONE };
    let m = create_model_matrix(t, 2 * FX_ONE, Vec3Fx { x: 0, y: 0, z: 0 });
    // sin(0) == 0 and cos(0) == FX_ONE exactly, so the rotation block is
    // the identity and only scale and translation remain
    assert_eq!(m.m03, t.x);
    assert_eq!(m.m13, t.y);
    assert_eq!(m.m23, t.z);
    assert_eq!(m.m00, 2 * FX_ONE);
    assert_eq!(m.m11, 2 * FX_ONE);
    assert_eq!(m.m22, 2 * FX_ONE);
    assert_eq!(m.m01, 0);
    assert_eq!(m.m10, 0);
    assert_eq!(m.m33, FX_ONE);
}

#[test]
fn model_matrix_identity_case() {
    let zero = Vec3Fx { x: 0, y: 0, z: 0 };
    let m = create_model_matrix(zero, FX_ONE, zero);
    assert_eq!(m, Mat4Fx::identity());
}

#[test]
fn model_matrix_quarter_turn_about_z() {
    let m = create_model_matrix(
        Vec3Fx { x: 0, y: 0, z: 0 },
        FX_ONE,
        Vec3Fx { x: 0, y: 0, z: FX_PI / 2 },
    );
    // a quarter turn about z sends x to y exactly: the fixed sine is
    // exact at the quarter-period points
    assert_eq!(m.m00, 0);
    assert_eq!(m.m10, FX_ONE);
    assert_eq!(m.m01, -FX_ONE);
}

#[test]
fn view_matrix_from_origin_looking_down_z() {
    let eye = Vec3Fx { x: 0, y: 0, z: 5 * FX_ONE };
    let center = Vec3Fx { x: 0, y: 0, z: 0 };
    let up = Vec3Fx { x: 0, y: FX_ONE, z: 0 };
    let m = create_view_matrix(eye, center, up);
    // forward is -z, so the third row is +z and the eye distance appears
    assert_eq!(m.m00, FX_ONE);
    assert_eq!(m.m11, FX_ONE);
    assert_eq!(m.m22, FX_ONE);
    assert_eq!(m.m23, -5 * FX_ONE);
    assert_eq!(m.m33, FX_ONE);
}

#[test]
fn perspective_matrix_shape() {
    let m = create_perspective_matrix(800 * FX_ONE, 600 * FX_ONE);
    // 1 / tan(22.5 deg) ~ 2.41421; with aspect 4/3 the x scale is 3/4 of it
    assert_eq!(m.m11, 158217);
    assert_eq!(m.m00, 118665);
    assert_eq!(m.m32, -FX_ONE);
    assert_eq!(m.m33, 0);
    // -(far + near) / (far - near) ~ -1.0002
    assert!(m.m22 < -FX_ONE && m.m22 > -FX_ONE - 100);
    assert!(m.m23 < 0);
}

#[test]
fn render_writes_shaded_triangle() {
    let mut fb = Framebuffer::new(8, 8);
    fb.set_background_color(0x101010);
    fb.clear();
    let viewport = create_viewport_matrix(8 * FX_ONE, 8 * FX_ONE);
    let uniforms = identity_uniforms(viewport);
    // a triangle reaching pixels (0,0), (6,0), (0,6); id 3 is the sun
    // shader, which paints the blended normal (0, 0, 1) pure white
    let verts = vec![
        model_vertex(-FX_ONE, FX_ONE, 0),
        model_vertex(32768, FX_ONE, 0),
        model_vertex(-FX_ONE, -32768, 0),
    ];
    render(&mut fb, &uniforms, &verts, 3);
    assert_eq!(fb.pixel(0, 0), 0xFFFFFF);
    assert_eq!(fb.depth_at(0, 0), 0);
    // a pixel outside the triangle keeps the background
    assert_eq!(fb.pixel(7, 7), 0x101010);
    assert_eq!(fb.depth_at(7, 7), DEPTH_FAR);
}

#[test]
fn render_ignores_trailing_partial_triangle() {
    let mut fb = Framebuffer::new(8, 8);
    fb.clear();
    let viewport = create_viewport_matrix(8 * FX_ONE, 8 * FX_ONE);
    let uniforms = identity_uniforms(viewport);
    // two vertices are not a triangle: nothing is written
    let verts = vec![model_vertex(-FX_ONE, FX_ONE, 0), model_vertex(FX_ONE, FX_ONE, 0)];
    render(&mut fb, &uniforms, &verts, 3);
    for x in 0..8 {
        for y in 0..8 {
            assert_eq!(fb.pixel(x, y), 0);
        }
    }
}

#[test]
fn scene_object_holds_vertices() {
    let obj = SceneObject {
        translation: Vec3Fx { x: 0, y: 0, z: 0 },
        rotation: Vec3Fx { x: 0, y: 0, z: 0 },
        scale: FX_ONE,
        vertex_array: vec![model_vertex(0, 0, 0)],
        id: 1,
    };
    assert_eq!(obj.vertex_array.len(), 1);
    assert_eq!(obj.id, 1);
}

#[test]
fn write_fragments_shades_depth_tests_and_drops() {
    let mut fb = Framebuffer::new(4, 4);
    fb.clear();
    let uniforms = identity_uniforms(Mat4Fx::identity());
    let shading = Vec3Fx { x: 0, y: 0, z: FX_ONE };
    let make = |x: i64, y: i64, depth: i64| Fragment {
        x,
        y,
        depth,
        vertex_position: shading,
        intensity: FX_ONE,
    };
    let frags = vec![
        make(1, 2, 1000),
        // nearer write at the same pixel wins
        make(1, 2, 500),
        // farther write at the same pixel loses
        make(1, 2, 900),
        // out-of-bounds fragments are dropped, not written
        make(-1, 0, 0),
        make(0, 4, 0),
    ];
    write_fragments(&mut fb, &frags, &uniforms, 3);
    // id 3 shades through the sun shader
    let expected = sun_shader(&make(1, 2, 500), &uniforms).to_hex();
    assert_eq!(fb.pixel(1, 2), expected);
    assert_eq!(fb.depth_at(1, 2), 500);
    assert_eq!(fb.pixel(0, 0), 0);
    assert_eq!(fb.pixel(3, 0), 0);
}

#[test]
fn render_twice_is_idempotent() {
    let viewport = create_viewport_matrix(8 * FX_ONE, 8 * FX_ONE);
    let uniforms = identity_uniforms(viewport);
    let verts = vec![
        model_vertex(-FX_ONE, FX_ONE, 0),
        model_vertex(32768, FX_ONE, 0),
        model_vertex(-FX_ONE, -32768, 0),
    ];
    let mut fb = Framebuffer::new(8, 8);
    fb.clear();
    render(&mut fb, &uniforms, &verts, 3);
    let buffer_once: Vec<u32> = fb.buffer.clone();
    let depths_once: Vec<i64> = fb.depth_buffer.clone();
    render(&mut fb, &uniforms, &verts, 3);
    assert_eq!(fb.buffer, buffer_once);
    assert_eq!(fb.depth_buffer, depths_once);
}

#[test]
fn fill_triangle_writes_current_color() {
    let mut fb = Framebuffer::new(8, 8);
    fb.set_current_color(0x123456);
    fb.fill_triangle_2d(
        Vec3Fx { x: 0, y: 0, z: 32768 },
        Vec3Fx { x: 4 * FX_ONE, y: 0, z: 32768 },
        Vec3Fx { x: 0, y: 4 * FX_ONE, z: 32768 },
    );
    for x in 0..8usize {
        for y in 0..8usize {
            if x + y <= 4 {
                assert_eq!(fb.pixel(x, y), 0x123456);
                assert_eq!(fb.depth_at(x, y), 32768);
            } else {
                assert_eq!(fb.pixel(x, y), 0);
            }
        }
    }
}

#[test]
fn circle_paints_its_center() {
    let mut fb = Framebuffer::new(200, 200);
    fb.set_current_color(0xABCDEF);
    let center = Vec3Fx { x: 100 * FX_ONE, y: 100 * FX_ONE, z: 0 };
    fb.circle(center, 50 * FX_ONE);
    assert_eq!(fb.pixel(100, 100), 0xABCDEF);
    assert_eq!(fb.depth_at(100, 100), 0);
    // a pixel well outside the circle is untouched
    assert_eq!(fb.pixel(1, 1), 0);
    assert_eq!(fb.depth_at(1, 1), DEPTH_FAR);
}
