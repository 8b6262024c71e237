//! The per-frame pipeline: uniform bundles, the matrix builders, and the
//! render pass that shades vertices, rasterizes triangles, and writes
//! depth-tested fragments into the framebuffer.

use vstd::prelude::*;
use crate::fixed::{
    fx_div, fx_mul, fx_sin, fx_cos, fx_tdiv_small, s_cos, s_fx_div, s_fx_mul, s_sin, s_tdiv,
    FX_ONE,
};
use crate::fragment::Fragment;
use crate::framebuffer::Framebuffer;
use crate::shaders::{fragment_shader, vertex_shader, s_vertex_shader};
use crate::triangle::{triangle, s_raster_frags, s_raster_input_ok};
use crate::vecmat::{
    dot3, mat4_mul, vec3_cross, vec3_normalize, vec3_sub, s_dot3, s_mat4_identity, s_mat4_mul,
    s_vec3_cross,
    s_vec3_normalize, s_vec3_sub, Mat4Fx, Vec3Fx,
};
use crate::vertex::Vertex;

verus! {

/// The immutable per-frame uniform bundle: the four stage matrices and a
/// monotonically increasing frame counter.
#[derive(Clone, Copy, Debug, PartialEq, Eq, Structural)]
pub struct Uniforms {
    pub model_matrix: Mat4Fx,
    pub view_matrix: Mat4Fx,
    pub projection_matrix: Mat4Fx,
    pub viewport_matrix: Mat4Fx,
    pub time: u32,
}

/// A renderable object: placement, its vertex set, and the tag that picks
/// its fragment shader.
#[derive(Clone, Debug)]
pub struct SceneObject {
    pub translation: Vec3Fx,
    pub rotation: Vec3Fx,
    pub scale: i64,
    pub vertex_array: Vec<Vertex>,
    pub id: u32,
}

/// The model matrix: rotations about x, y and z combined as `Rz Ry Rx`,
/// then uniform scale and translation applied on the left.
pub open spec fn s_model_matrix(translation: Vec3Fx, scale: i64, rotation: Vec3Fx) -> Mat4Fx {
    let sx = s_sin(rotation.x as int);
    let cx = s_cos(rotation.x as int);
    let sy = s_sin(rotation.y as int);
    let cy = s_cos(rotation.y as int);
    let sz = s_sin(rotation.z as int);
    let cz = s_cos(rotation.z as int);
    let rot_x = Mat4Fx {
        m00: FX_ONE, m01: 0i64, m02: 0i64, m03: 0i64,
        m10: 0i64, m11: cx as i64, m12: (-sx) as i64, m13: 0i64,
        m20: 0i64, m21: sx as i64, m22: cx as i64, m23: 0i64,
        m30: 0i64, m31: 0i64, m32: 0i64, m33: FX_ONE,
    };
    let rot_y = Mat4Fx {
        m00: cy as i64, m01: 0i64, m02: sy as i64, m03: 0i64,
        m10: 0i64, m11: FX_ONE, m12: 0i64, m13: 0i64,
        m20: (-sy) as i64, m21: 0i64, m22: cy as i64, m23: 0i64,
        m30: 0i64, m31: 0i64, m32: 0i64, m33: FX_ONE,
    };
    let rot_z = Mat4Fx {
        m00: cz as i64, m01: (-sz) as i64, m02: 0i64, m03: 0i64,
        m10: sz as i64, m11: cz as i64, m12: 0i64, m13: 0i64,
        m20: 0i64, m21: 0i64, m22: FX_ONE, m23: 0i64,
        m30: 0i64, m31: 0i64, m32: 0i64, m33: FX_ONE,
    };
    let rot = s_mat4_mul(s_mat4_mul(rot_z, rot_y), rot_x);
    let transform = Mat4Fx {
        m00: scale, m01: 0i64, m02: 0i64, m03: translation.x,
        m10: 0i64, m11: scale, m12: 0i64, m13: translation.y,
        m20: 0i64, m21: 0i64, m22: scale, m23: translation.z,
        m30: 0i64, m31: 0i64, m32: 0i64, m33: FX_ONE,
    };
    s_mat4_mul(transform, rot)
}

/// Build the model matrix from placement parameters.
pub fn create_model_matrix(translation: Vec3Fx, scale: i64, rotation: Vec3Fx) -> (m: Mat4Fx)
    ensures
        m == s_model_matrix(translation, scale, rotation),
{
    let sx = fx_sin(rotation.x);
    let cx = fx_cos(rotation.x);
    let sy = fx_sin(rotation.y);
    let cy = fx_cos(rotation.y);
    let sz = fx_sin(rotation.z);
    let cz = fx_cos(rotation.z);
    let rot_x = Mat4Fx {
        m00: FX_ONE, m01: 0, m02: 0, m03: 0,
        m10: 0, m11: cx, m12: -sx, m13: 0,
        m20: 0, m21: sx, m22: cx, m23: 0,
        m30: 0, m31: 0, m32: 0, m33: FX_ONE,
    };
    let rot_y = Mat4Fx {
        m00: cy, m01: 0, m02: sy, m03: 0,
        m10: 0, m11: FX_ONE, m12: 0, m13: 0,
        m20: -sy, m21: 0, m22: cy, m23: 0,
        m30: 0, m31: 0, m32: 0, m33: FX_ONE,
    };
    let rot_z = Mat4Fx {
        m00: cz, m01: -sz, m02: 0, m03: 0,
        m10: sz, m11: cz, m12: 0, m13: 0,
        m20: 0, m21: 0, m22: FX_ONE, m23: 0,
        m30: 0, m31: 0, m32: 0, m33: FX_ONE,
    };
    let rot = mat4_mul(&mat4_mul(&rot_z, &rot_y), &rot_x);
    let transform = Mat4Fx {
        m00: scale, m01: 0, m02: 0, m03: translation.x,
        m10: 0, m11: scale, m12: 0, m13: translation.y,
        m20: 0, m21: 0, m22: scale, m23: translation.z,
        m30: 0, m31: 0, m32: 0, m33: FX_ONE,
    };
    mat4_mul(&transform, &rot)
}

/// The right-handed look-at view matrix: forward toward `center`, a side
/// axis from forward and `up`, and the eye projected onto each axis.
pub open spec fn s_view_matrix(eye: Vec3Fx, center: Vec3Fx, up: Vec3Fx) -> Mat4Fx {
    let f = s_vec3_normalize(s_vec3_sub(center, eye));
    let s = s_vec3_normalize(s_vec3_cross(f, up));
    let u = s_vec3_cross(s, f);
    Mat4Fx {
        m00: s.x, m01: s.y, m02: s.z,
        m03: (-s_dot3(s.x as int, eye.x as int, s.y as int, eye.y as int, s.z as int,
            eye.z as int)) as i64,
        m10: u.x, m11: u.y, m12: u.z,
        m13: (-s_dot3(u.x as int, eye.x as int, u.y as int, eye.y as int, u.z as int,
            eye.z as int)) as i64,
        m20: (-f.x) as i64, m21: (-f.y) as i64, m22: (-f.z) as i64,
        m23: s_dot3(f.x as int, eye.x as int, f.y as int, eye.y as int, f.z as int,
            eye.z as int) as i64,
        m30: 0i64, m31: 0i64, m32: 0i64, m33: FX_ONE,
    }
}

/// Build the view matrix from eye, center and up.
pub fn create_view_matrix(eye: Vec3Fx, center: Vec3Fx, up: Vec3Fx) -> (m: Mat4Fx)
    ensures
        m == s_view_matrix(eye, center, up),
{
    let f = vec3_normalize(&vec3_sub(&center, &eye));
    let s = vec3_normalize(&vec3_cross(&f, &up));
    let u = vec3_cross(&s, &f);
    let ds = dot3(s.x, eye.x, s.y, eye.y, s.z, eye.z);
    let du = dot3(u.x, eye.x, u.y, eye.y, u.z, eye.z);
    let df = dot3(f.x, eye.x, f.y, eye.y, f.z, eye.z);
    Mat4Fx {
        m00: s.x, m01: s.y, m02: s.z, m03: -ds,
        m10: u.x, m11: u.y, m12: u.z, m13: -du,
        m20: -f.x, m21: -f.y, m22: -f.z, m23: df,
        m30: 0, m31: 0, m32: 0, m33: FX_ONE,
    }
}

/// tan(22.5 degrees) in fixed point: half the fixed 45 degree field of view.
pub const FX_TAN_HALF_FOV: i64 = 27146;

/// The near plane (0.1) in fixed point.
pub const FX_NEAR: i64 = 6554;

/// The far plane (1000) in fixed point.
pub const FX_FAR: i64 = 65536000;

/// The perspective projection for a 45 degree vertical field of view with
/// near plane 0.1 and far plane 1000, at the given aspect ratio.
pub open spec fn s_perspective_matrix(width: i64, height: i64) -> Mat4Fx {
    let aspect = s_fx_div(width as int, height as int);
    Mat4Fx {
        m00: s_fx_div(FX_ONE as int, s_fx_mul(aspect, FX_TAN_HALF_FOV as int)) as i64,
        m01: 0i64, m02: 0i64, m03: 0i64,
        m10: 0i64, m11: s_fx_div(FX_ONE as int, FX_TAN_HALF_FOV as int) as i64,
        m12: 0i64, m13: 0i64,
        m20: 0i64, m21: 0i64,
        m22: (-s_fx_div(FX_FAR + FX_NEAR, FX_FAR - FX_NEAR)) as i64,
        m23: (-s_fx_div(2 * s_fx_mul(FX_FAR as int, FX_NEAR as int), FX_FAR - FX_NEAR)) as i64,
        m30: 0i64, m31: 0i64, m32: (-FX_ONE) as i64, m33: 0i64,
    }
}

/// Build the perspective matrix from the window size in fixed point.
pub fn create_perspective_matrix(width: i64, height: i64) -> (m: Mat4Fx)
    ensures
        m == s_perspective_matrix(width, height),
{
    let aspect = fx_div(width, height);
    let m00 = fx_div(FX_ONE, fx_mul(aspect, FX_TAN_HALF_FOV));
    let m11 = fx_div(FX_ONE, FX_TAN_HALF_FOV);
    let m22 = -fx_div(FX_FAR + FX_NEAR, FX_FAR - FX_NEAR);
    let fn2 = fx_mul(FX_FAR, FX_NEAR);
    let m23 = -fx_div(2 * fn2, FX_FAR - FX_NEAR);
    Mat4Fx {
        m00, m01: 0, m02: 0, m03: 0,
        m10: 0, m11, m12: 0, m13: 0,
        m20: 0, m21: 0, m22, m23,
        m30: 0, m31: 0, m32: -FX_ONE, m33: 0,
    }
}

/// The viewport transform from normalized device coordinates to pixels:
/// scale by half the size, flip y (pixel row zero is the top), and shift
/// the origin to the screen center; depth passes through.
pub open spec fn s_viewport_matrix(width: i64, height: i64) -> Mat4Fx {
    let hw = s_tdiv(width as int, 2);
    let hh = s_tdiv(height as int, 2);
    Mat4Fx {
        m00: hw as i64, m01: 0i64, m02: 0i64, m03: hw as i64,
        m10: 0i64, m11: (-hh) as i64, m12: 0i64, m13: hh as i64,
        m20: 0i64, m21: 0i64, m22: FX_ONE, m23: 0i64,
        m30: 0i64, m31: 0i64, m32: 0i64, m33: FX_ONE,
    }
}

/// Build the viewport matrix from the framebuffer size in fixed point.
pub fn create_viewport_matrix(width: i64, height: i64) -> (m: Mat4Fx)
    ensures
        m == s_viewport_matrix(width, height),
{
    let hw = fx_tdiv_small(width, 2);
    let hh = fx_tdiv_small(height, 2);
    Mat4Fx {
        m00: hw, m01: 0, m02: 0, m03: hw,
        m10: 0, m11: -hh, m12: 0, m13: hh,
        m20: 0, m21: 0, m22: FX_ONE, m23: 0,
        m30: 0, m31: 0, m32: 0, m33: FX_ONE,
    }
}

/// Round trip through an identity transform chain: a vertex at the
/// origin, pushed through identity model, view and projection matrices
/// and the viewport map, lands exactly on the viewport's center pixel
/// `(width / 2, height / 2)` at depth zero.
pub proof fn lemma_identity_chain_centers_origin(width: i64, height: i64)
    requires
        0 <= width <= crate::fixed::FX_LIMIT,
        0 <= height <= crate::fixed::FX_LIMIT,
    ensures
        ({
            let u = Uniforms {
                model_matrix: s_mat4_identity(),
                view_matrix: s_mat4_identity(),
                projection_matrix: s_mat4_identity(),
                viewport_matrix: s_viewport_matrix(width, height),
                time: 0u32,
            };
            let zero = Vec3Fx { x: 0i64, y: 0i64, z: 0i64 };
            let v = Vertex {
                position: zero,
                normal: zero,
                tex_coords: crate::vecmat::Vec2Fx { x: 0i64, y: 0i64 },
                color: crate::color::Color { r: 0u8, g: 0u8, b: 0u8 },
                transformed_position: zero,
                transformed_normal: zero,
            };
            s_vertex_shader(v, u).transformed_position == Vec3Fx {
                x: s_tdiv(width as int, 2) as i64,
                y: s_tdiv(height as int, 2) as i64,
                z: 0i64,
            }
        }),
{
    let ident = s_mat4_identity();
    crate::fixed::lemma_tdiv_scale_cancel(FX_ONE as int);
    assert(s_fx_mul(FX_ONE as int, FX_ONE as int) == FX_ONE);
    assert(s_mat4_mul(ident, ident) == ident);
    let hw = s_tdiv(width as int, 2);
    let hh = s_tdiv(height as int, 2);
    vstd::arithmetic::div_mod::lemma_div_nonincreasing(width as int, 2);
    vstd::arithmetic::div_mod::lemma_div_pos_is_pos(width as int, 2);
    vstd::arithmetic::div_mod::lemma_div_nonincreasing(height as int, 2);
    vstd::arithmetic::div_mod::lemma_div_pos_is_pos(height as int, 2);
    crate::fixed::lemma_tdiv_scale_cancel(hw);
    crate::fixed::lemma_tdiv_scale_cancel(hh);
    assert(s_fx_mul(hw, FX_ONE as int) == hw);
    assert(s_fx_mul((-hh) as i64 as int, 0) == 0);
    assert(s_fx_mul(hh, FX_ONE as int) == hh);
}

/// One fragment composited onto the buffers: shaded by the id-keyed
/// shader, dropped when it lies outside the `w` by `h` pixel grid, and
/// otherwise written through the depth test.
pub open spec fn s_write_fragment(
    buf: Seq<u32>,
    depths: Seq<i64>,
    w: int,
    h: int,
    f: Fragment,
    time: u32,
    id: u32,
) -> (Seq<u32>, Seq<i64>) {
    if 0 <= f.x < w && 0 <= f.y < h {
        crate::framebuffer::s_point_update(
            buf,
            depths,
            f.y * w + f.x,
            f.depth,
            crate::color::s_color_hex(crate::shaders::s_fragment_shader(f, time, id)) as u32,
        )
    } else {
        (buf, depths)
    }
}

/// A whole fragment list composited in order, first fragment first.
pub open spec fn s_write_fragment_seq(
    buf: Seq<u32>,
    depths: Seq<i64>,
    w: int,
    h: int,
    frags: Seq<Fragment>,
    time: u32,
    id: u32,
) -> (Seq<u32>, Seq<i64>)
    decreases frags.len(),
{
    if frags.len() == 0 {
        (buf, depths)
    } else {
        let first = s_write_fragment(buf, depths, w, h, frags[0], time, id);
        s_write_fragment_seq(first.0, first.1, w, h, frags.drop_first(), time, id)
    }
}

/// Compositing a list and then one more fragment is compositing the
/// extended list.
proof fn lemma_write_fragment_seq_snoc(
    buf: Seq<u32>,
    depths: Seq<i64>,
    w: int,
    h: int,
    frags: Seq<Fragment>,
    f: Fragment,
    time: u32,
    id: u32,
)
    ensures
        ({
            let done = s_write_fragment_seq(buf, depths, w, h, frags, time, id);
            s_write_fragment_seq(buf, depths, w, h, frags.push(f), time, id)
                == s_write_fragment(done.0, done.1, w, h, f, time, id)
        }),
    decreases frags.len(),
{
    let p = frags.push(f);
    if frags.len() == 0 {
        assert(p[0] == f);
        assert(p.drop_first() =~= frags);
        let w1 = s_write_fragment(buf, depths, w, h, f, time, id);
        assert(s_write_fragment_seq(buf, depths, w, h, p, time, id) == s_write_fragment_seq(
            w1.0, w1.1, w, h, p.drop_first(), time, id));
        assert(s_write_fragment_seq(w1.0, w1.1, w, h, frags, time, id) == (w1.0, w1.1));
        assert(s_write_fragment_seq(buf, depths, w, h, frags, time, id) == (buf, depths));
        assert(s_write_fragment(buf, depths, w, h, f, time, id) == (w1.0, w1.1));
    } else {
        assert(p[0] == frags[0]);
        let first = s_write_fragment(buf, depths, w, h, frags[0], time, id);
        assert(p.drop_first() =~= frags.drop_first().push(f));
        assert(s_write_fragment_seq(buf, depths, w, h, p, time, id) == s_write_fragment_seq(
            first.0, first.1, w, h, frags.drop_first().push(f), time, id));
        lemma_write_fragment_seq_snoc(first.0, first.1, w, h, frags.drop_first(), f, time, id);
        assert(s_write_fragment_seq(buf, depths, w, h, frags, time, id) == s_write_fragment_seq(
            first.0, first.1, w, h, frags.drop_first(), time, id));
    }
}

/// Write one rasterized fragment list into the framebuffer: each
/// fragment inside the buffer is shaded by the id-keyed shader and stored
/// through the depth test, in list order; out-of-bounds fragments are
/// dropped. Depths never move farther, and a pixel whose depth did not
/// change keeps its color.
#[verifier::loop_isolation(false)]
pub fn write_fragments(framebuffer: &mut Framebuffer, frags: &Vec<Fragment>, uniforms: &Uniforms,
    id: u32)
    requires
        old(framebuffer).well_formed(),
    ensures
        (final(framebuffer).buffer@, final(framebuffer).depth_buffer@) == s_write_fragment_seq(
            old(framebuffer).buffer@,
            old(framebuffer).depth_buffer@,
            old(framebuffer).width as int,
            old(framebuffer).height as int,
            frags@,
            uniforms.time,
            id,
        ),
        final(framebuffer).well_formed(),
        final(framebuffer).width == old(framebuffer).width,
        final(framebuffer).height == old(framebuffer).height,
        final(framebuffer).background_color == old(framebuffer).background_color,
        final(framebuffer).depth_buffer.len() == old(framebuffer).depth_buffer.len(),
        forall|i: int|
            0 <= i < final(framebuffer).depth_buffer.len()
                ==> final(framebuffer).depth_buffer[i] <= old(framebuffer).depth_buffer[i],
        forall|i: int|
            0 <= i < final(framebuffer).depth_buffer.len() && final(framebuffer).depth_buffer[i]
                == old(framebuffer).depth_buffer[i]
                ==> final(framebuffer).buffer[i] == old(framebuffer).buffer[i],
{
    let mut k: usize = 0;
    while k < frags.len()
        invariant
            k <= frags.len(),
            framebuffer.well_formed(),
            framebuffer.width == old(framebuffer).width,
            framebuffer.height == old(framebuffer).height,
            framebuffer.background_color == old(framebuffer).background_color,
            framebuffer.depth_buffer.len() == old(framebuffer).depth_buffer.len(),
            (framebuffer.buffer@, framebuffer.depth_buffer@) == s_write_fragment_seq(
                old(framebuffer).buffer@,
                old(framebuffer).depth_buffer@,
                old(framebuffer).width as int,
                old(framebuffer).height as int,
                frags@.take(k as int),
                uniforms.time,
                id,
            ),
            forall|i: int|
                0 <= i < framebuffer.depth_buffer.len()
                    ==> framebuffer.depth_buffer[i] <= old(framebuffer).depth_buffer[i],
            forall|i: int|
                0 <= i < framebuffer.depth_buffer.len() && framebuffer.depth_buffer[i]
                    == old(framebuffer).depth_buffer[i]
                    ==> framebuffer.buffer[i] == old(framebuffer).buffer[i],
        decreases frags.len() - k,
    {
        let ghost fb_entry = *framebuffer;
        let f = frags[k];
        proof {
            lemma_write_fragment_seq_snoc(
                old(framebuffer).buffer@,
                old(framebuffer).depth_buffer@,
                old(framebuffer).width as int,
                old(framebuffer).height as int,
                frags@.take(k as int),
                frags@[k as int],
                uniforms.time,
                id,
            );
            assert(frags@.take(k as int).push(frags@[k as int]) =~= frags@.take(k as int + 1));
        }
        if f.x >= 0 && f.y >= 0 && (f.x as u64) < (framebuffer.width as u64) && (f.y as u64) < (
        framebuffer.height as u64) {
            let ux = f.x as usize;
            let uy = f.y as usize;
            let ghost fb0 = *framebuffer;
            let color = fragment_shader(&f, uniforms, id);
            let hex = color.to_hex();
            framebuffer.set_current_color(hex);
            let ghost fb1 = *framebuffer;
            framebuffer.point(ux, uy, f.depth);
            proof {
                let idx = (uy as int) * (fb1.width as int) + (ux as int);
                assert((uy as int) * (fb1.width as int) + (ux as int) < (fb1.height as int) * (
                fb1.width as int)) by (nonlinear_arith)
                    requires
                        (uy as int) < (fb1.height as int),
                        (ux as int) < (fb1.width as int),
                ;
                assert((fb1.height as int) * (fb1.width as int) == (fb1.width as int) * (
                fb1.height as int)) by (nonlinear_arith);
                assert(0 <= idx < fb1.depth_buffer.len());
                assert forall|i: int| 0 <= i < framebuffer.depth_buffer.len() implies
                    framebuffer.depth_buffer[i] <= fb0.depth_buffer[i] by {
                    if f.depth < fb1.depth_buffer[idx] && i != idx {
                        assert(framebuffer.depth_buffer[i] == fb1.depth_buffer[i]);
                    }
                }
                assert forall|i: int|
                    0 <= i < framebuffer.depth_buffer.len() && framebuffer.depth_buffer[i]
                        == old(framebuffer).depth_buffer[i] implies framebuffer.buffer[i] == old(
                    framebuffer).buffer[i] by {
                    if f.depth < fb1.depth_buffer[idx] {
                        assert(framebuffer.depth_buffer[idx] == f.depth);
                        assert(i != idx);
                        assert(framebuffer.buffer[i] == fb1.buffer[i]);
                        assert(framebuffer.depth_buffer[i] == fb1.depth_buffer[i]);
                    }
                }
            }
        }
        k += 1;
    }
    proof {
        assert(frags@.take(frags@.len() as int) =~= frags@);
    }
}

/// Every vertex pushed through the vertex stage.
pub open spec fn s_shaded_vertices(verts: Seq<Vertex>, u: Uniforms) -> Seq<Vertex> {
    verts.map_values(|v: Vertex| s_vertex_shader(v, u))
}

/// The render pass from triple position `t` on: each consecutive disjoint
/// triple of the shaded vertices is rasterized and its fragment list is
/// composited in order; a trailing one or two vertices are ignored.
pub open spec fn s_render_from(
    buf: Seq<u32>,
    depths: Seq<i64>,
    w: int,
    h: int,
    shaded: Seq<Vertex>,
    time: u32,
    id: u32,
    t: int,
) -> (Seq<u32>, Seq<i64>)
    decreases shaded.len() - t,
{
    if 0 <= t && t + 2 < shaded.len() {
        let frags = s_raster_frags(shaded[t], shaded[t + 1], shaded[t + 2]);
        let next = s_write_fragment_seq(buf, depths, w, h, frags, time, id);
        s_render_from(next.0, next.1, w, h, shaded, time, id, t + 3)
    } else {
        (buf, depths)
    }
}

/// Render one object: shade every vertex, assemble consecutive disjoint
/// triples into triangles, rasterize them, shade each fragment with the
/// id-keyed shader and write it with the depth test. The final buffers
/// are exactly the fold of those depth-tested writes over the triples in
/// order; in particular depths never move farther, and a pixel whose
/// depth did not change keeps its color.
#[verifier::loop_isolation(false)]
#[verifier::rlimit(100)]
pub fn render(framebuffer: &mut Framebuffer, uniforms: &Uniforms, vertex_array: &Vec<Vertex>, id:
    u32)
    requires
        old(framebuffer).well_formed(),
    ensures
        (final(framebuffer).buffer@, final(framebuffer).depth_buffer@) == s_render_from(
            old(framebuffer).buffer@,
            old(framebuffer).depth_buffer@,
            old(framebuffer).width as int,
            old(framebuffer).height as int,
            s_shaded_vertices(vertex_array@, *uniforms),
            uniforms.time,
            id,
            0,
        ),
        final(framebuffer).well_formed(),
        final(framebuffer).width == old(framebuffer).width,
        final(framebuffer).height == old(framebuffer).height,
        final(framebuffer).background_color == old(framebuffer).background_color,
        final(framebuffer).depth_buffer.len() == old(framebuffer).depth_buffer.len(),
        forall|i: int|
            0 <= i < final(framebuffer).depth_buffer.len()
                ==> final(framebuffer).depth_buffer[i] <= old(framebuffer).depth_buffer[i],
        forall|i: int|
            0 <= i < final(framebuffer).depth_buffer.len() && final(framebuffer).depth_buffer[i]
                == old(framebuffer).depth_buffer[i]
                ==> final(framebuffer).buffer[i] == old(framebuffer).buffer[i],
{
    let mut transformed: Vec<Vertex> = Vec::new();
    let mut i: usize = 0;
    while i < vertex_array.len()
        invariant
            i <= vertex_array.len(),
            transformed.len() == i,
            forall|j: int| 0 <= j < i ==> s_raster_input_ok(#[trigger] transformed[j]),
            forall|j: int|
                0 <= j < i ==> #[trigger] transformed[j] == s_vertex_shader(vertex_array[j],
                    *uniforms),
        decreases vertex_array.len() - i,
    {
        let shaded = vertex_shader(&vertex_array[i], uniforms);
        transformed.push(shaded);
        i += 1;
    }
    proof {
        assert(transformed@ =~= s_shaded_vertices(vertex_array@, *uniforms));
    }
    let n = transformed.len();
    let limit: usize = if n >= 2 {
        n - 2
    } else {
        0
    };
    let mut t: usize = 0;
    while t < limit
        invariant
            t <= n,
            framebuffer.well_formed(),
            framebuffer.width == old(framebuffer).width,
            framebuffer.height == old(framebuffer).height,
            framebuffer.background_color == old(framebuffer).background_color,
            framebuffer.depth_buffer.len() == old(framebuffer).depth_buffer.len(),
            s_render_from(
                framebuffer.buffer@,
                framebuffer.depth_buffer@,
                old(framebuffer).width as int,
                old(framebuffer).height as int,
                transformed@,
                uniforms.time,
                id,
                t as int,
            ) == s_render_from(
                old(framebuffer).buffer@,
                old(framebuffer).depth_buffer@,
                old(framebuffer).width as int,
                old(framebuffer).height as int,
                transformed@,
                uniforms.time,
                id,
                0,
            ),
            forall|i: int|
                0 <= i < framebuffer.depth_buffer.len()
                    ==> framebuffer.depth_buffer[i] <= old(framebuffer).depth_buffer[i],
            forall|i: int|
                0 <= i < framebuffer.depth_buffer.len() && framebuffer.depth_buffer[i]
                    == old(framebuffer).depth_buffer[i]
                    ==> framebuffer.buffer[i] == old(framebuffer).buffer[i],
        decreases n - t,
    {
        let ghost fb_before = *framebuffer;
        let frags = triangle(&transformed[t], &transformed[t + 1], &transformed[t + 2]);
        write_fragments(framebuffer, &frags, uniforms, id);
        proof {
            assert(s_render_from(
                fb_before.buffer@,
                fb_before.depth_buffer@,
                old(framebuffer).width as int,
                old(framebuffer).height as int,
                transformed@,
                uniforms.time,
                id,
                t as int,
            ) == s_render_from(
                framebuffer.buffer@,
                framebuffer.depth_buffer@,
                old(framebuffer).width as int,
                old(framebuffer).height as int,
                transformed@,
                uniforms.time,
                id,
                t as int + 3,
            ));
        }
        t += 3;
    }
    proof {
        assert(s_render_from(
            framebuffer.buffer@,
            framebuffer.depth_buffer@,
            old(framebuffer).width as int,
            old(framebuffer).height as int,
            transformed@,
            uniforms.time,
            id,
            t as int,
        ) == (framebuffer.buffer@, framebuffer.depth_buffer@));
    }
}

} // verus!
