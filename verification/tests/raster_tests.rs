use softpipe::color::Color;
use softpipe::fixed::FX_ONE;
use softpipe::framebuffer::Framebuffer;
use softpipe::triangle::triangle;
use softpipe::vecmat::{Vec2Fx, Vec3Fx};
use softpipe::vertex::Vertex;

fn screen_vertex(px: i64, py: i64, depth: i64, normal: Vec3Fx) -> Vertex {
    let pos = Vec3Fx { x: px * FX_ONE, y: py * FX_ONE, z: depth };
    Vertex {
        position: pos,
        normal,
        tex_coords: Vec2Fx { x: 0, y: 0 },
        color: Color::new(0, 0, 0),
        transformed_position: pos,
        transformed_normal: normal,
    }
}

fn up_normal() -> Vec3Fx {
    Vec3Fx { x: 0, y: 0, z: FX_ONE }
}

#[test]
fn coincident_points_yield_no_fragments() {
    let v = screen_vertex(3, 4, 0, up_normal());
    let frags = triangle(&v, &v, &v);
    assert_eq!(frags.len(), 0);
}

#[test]
fn collinear_points_yield_no_fragments() {
    let v0 = screen_vertex(0, 0, 0, up_normal());
    let v1 = screen_vertex(2, 2, 0, up_normal());
    let v2 = screen_vertex(5, 5, 0, up_normal());
    let frags = triangle(&v0, &v1, &v2);
    assert_eq!(frags.len(), 0);
}

#[test]
fn negative_area_winding_yields_no_fragments() {
    // the same triangle wound the other way has negative signed area
    let v0 = screen_vertex(0, 0, 0, up_normal());
    let v1 = screen_vertex(0, 4, 0, up_normal());
    let v2 = screen_vertex(4, 0, 0, up_normal());
    let frags = triangle(&v0, &v1, &v2);
    assert_eq!(frags.len(), 0);
}

#[test]
fn right_triangle_covers_interior_and_boundary() {
    // vertices at pixels (0,0), (4,0), (0,4): under the all-weights
    // nonnegative rule exactly the pixels with x + y <= 4 are covered
    let v0 = screen_vertex(0, 0, 32768, up_normal());
    let v1 = screen_vertex(4, 0, 32768, up_normal());
    let v2 = screen_vertex(0, 4, 32768, up_normal());
    let frags = triangle(&v0, &v1, &v2);
    assert_eq!(frags.len(), 15);
    for x in 0..5i64 {
        for y in 0..5i64 {
            let covered = frags.iter().any(|f| f.x == x && f.y == y);
            assert_eq!(covered, x + y <= 4, "pixel ({}, {})", x, y);
        }
    }
    for f in frags.iter() {
        // equal vertex depths interpolate exactly
        assert_eq!(f.depth, 32768);
        // the shading coordinate is the blend of the three equal normals
        assert_eq!(f.vertex_position, up_normal());
        // normals face the light axis, so the flat intensity is full
        assert_eq!(f.intensity, FX_ONE);
    }
}

#[test]
fn flat_shaded_triangle_writes_uniform_color() {
    // each fragment of the (0,0) (4,0) (0,4) triangle written through the
    // depth test as a constant color lands exactly once
    let v0 = screen_vertex(0, 0, 32768, up_normal());
    let v1 = screen_vertex(4, 0, 32768, up_normal());
    let v2 = screen_vertex(0, 4, 32768, up_normal());
    let frags = triangle(&v0, &v1, &v2);
    let mut fb = Framebuffer::new(8, 8);
    fb.set_current_color(Color::new(10, 20, 30).to_hex());
    for f in frags.iter() {
        assert!(f.x >= 0 && f.y >= 0 && f.x < 8 && f.y < 8);
        fb.point(f.x as usize, f.y as usize, f.depth);
    }
    for x in 0..8usize {
        for y in 0..8usize {
            if x + y <= 4 {
                assert_eq!(fb.pixel(x, y), Color::new(10, 20, 30).to_hex());
            } else {
                assert_eq!(fb.pixel(x, y), 0);
            }
        }
    }
}

#[test]
fn fragment_count_bounded_by_bounding_box() {
    let v0 = screen_vertex(-3, 1, 0, up_normal());
    let v1 = screen_vertex(9, 2, 0, up_normal());
    let v2 = screen_vertex(2, 11, 0, up_normal());
    let frags = triangle(&v0, &v1, &v2);
    assert!(frags.len() > 0);
    // bounding box is x in [-3, 9], y in [1, 11]: 13 * 11 pixels
    assert!(frags.len() <= 13 * 11);
}

#[test]
fn depth_interpolates_between_vertices() {
    // a long thin triangle: depth at a pixel near a vertex is near that
    // vertex's depth
    let near = 0i64;
    let far = 10 * FX_ONE;
    let v0 = screen_vertex(0, 0, near, up_normal());
    let v1 = screen_vertex(10, 0, far, up_normal());
    let v2 = screen_vertex(0, 1, near, up_normal());
    let frags = triangle(&v0, &v1, &v2);
    let at_origin = frags.iter().find(|f| f.x == 0 && f.y == 0).unwrap();
    assert_eq!(at_origin.depth, 0);
    let at_far = frags.iter().find(|f| f.x == 10 && f.y == 0).unwrap();
    assert_eq!(at_far.depth, far);
    for f in frags.iter() {
        assert!(near <= f.depth && f.depth <= far);
    }
}

#[test]
fn backfacing_normals_get_zero_intensity() {
    let down = Vec3Fx { x: 0, y: 0, z: -FX_ONE };
    let v0 = screen_vertex(0, 0, 0, down);
    let v1 = screen_vertex(4, 0, 0, down);
    let v2 = screen_vertex(0, 4, 0, down);
    let frags = triangle(&v0, &v1, &v2);
    assert!(frags.len() > 0);
    for f in frags.iter() {
        assert_eq!(f.intensity, 0);
    }
}
