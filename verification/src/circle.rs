//! Filled circles drawn as a fan of rasterized triangles.

use vstd::prelude::*;
use crate::color::Color;
use crate::fixed::{
    fx_add, fx_clamp64, fx_cos, fx_mul, fx_sin, s_cos, s_fx_add, s_fx_clamp, s_fx_mul, s_sin,
};
use crate::fragment::Fragment;
use crate::framebuffer::{s_point_update, Framebuffer};
use crate::triangle::{triangle, s_raster_frags};
use crate::vecmat::{Vec2Fx, Vec3Fx};
use crate::vertex::Vertex;

verus! {

/// The angle step of one fan segment: two pi over one hundred segments,
/// in fixed point.
pub const FX_SEGMENT_STEP: i64 = 4118;

/// One fragment written with a fixed color: dropped when it lies outside
/// the `w` by `h` pixel grid, otherwise stored through the depth test.
pub open spec fn s_write_color(
    buf: Seq<u32>,
    depths: Seq<i64>,
    w: int,
    h: int,
    f: Fragment,
    color: u32,
) -> (Seq<u32>, Seq<i64>) {
    if 0 <= f.x < w && 0 <= f.y < h {
        s_point_update(buf, depths, f.y * w + f.x, f.depth, color)
    } else {
        (buf, depths)
    }
}

/// A whole fragment list written with a fixed color, in order.
pub open spec fn s_write_color_seq(
    buf: Seq<u32>,
    depths: Seq<i64>,
    w: int,
    h: int,
    frags: Seq<Fragment>,
    color: u32,
) -> (Seq<u32>, Seq<i64>)
    decreases frags.len(),
{
    if frags.len() == 0 {
        (buf, depths)
    } else {
        let first = s_write_color(buf, depths, w, h, frags[0], color);
        s_write_color_seq(first.0, first.1, w, h, frags.drop_first(), color)
    }
}

/// Writing a list and then one more fragment is writing the extended list.
proof fn lemma_write_color_seq_snoc(
    buf: Seq<u32>,
    depths: Seq<i64>,
    w: int,
    h: int,
    frags: Seq<Fragment>,
    f: Fragment,
    color: u32,
)
    ensures
        ({
            let done = s_write_color_seq(buf, depths, w, h, frags, color);
            s_write_color_seq(buf, depths, w, h, frags.push(f), color) == s_write_color(
                done.0, done.1, w, h, f, color,
            )
        }),
    decreases frags.len(),
{
    let p = frags.push(f);
    if frags.len() == 0 {
        assert(p[0] == f);
        assert(p.drop_first() =~= frags);
        let w1 = s_write_color(buf, depths, w, h, f, color);
        assert(s_write_color_seq(buf, depths, w, h, p, color) == s_write_color_seq(w1.0, w1.1,
            w, h, p.drop_first(), color));
        assert(s_write_color_seq(w1.0, w1.1, w, h, frags, color) == (w1.0, w1.1));
        assert(s_write_color_seq(buf, depths, w, h, frags, color) == (buf, depths));
        assert(s_write_color(buf, depths, w, h, f, color) == (w1.0, w1.1));
    } else {
        assert(p[0] == frags[0]);
        let first = s_write_color(buf, depths, w, h, frags[0], color);
        assert(p.drop_first() =~= frags.drop_first().push(f));
        assert(s_write_color_seq(buf, depths, w, h, p, color) == s_write_color_seq(first.0,
            first.1, w, h, frags.drop_first().push(f), color));
        lemma_write_color_seq_snoc(first.0, first.1, w, h, frags.drop_first(), f, color);
        assert(s_write_color_seq(buf, depths, w, h, frags, color) == s_write_color_seq(first.0,
            first.1, w, h, frags.drop_first(), color));
    }
}

/// The screen-space vertex a fill point becomes: the point saturated into
/// the fixed-point window, with a zero normal and black base color.
pub open spec fn s_fill_vertex(p: Vec3Fx) -> Vertex {
    let q = Vec3Fx {
        x: s_fx_clamp(p.x as int) as i64,
        y: s_fx_clamp(p.y as int) as i64,
        z: s_fx_clamp(p.z as int) as i64,
    };
    let zero = Vec3Fx { x: 0i64, y: 0i64, z: 0i64 };
    Vertex {
        position: q,
        normal: zero,
        tex_coords: Vec2Fx { x: 0i64, y: 0i64 },
        color: Color { r: 0u8, g: 0u8, b: 0u8 },
        transformed_position: q,
        transformed_normal: zero,
    }
}

/// The 2D fill of one triangle: on shaped buffers, the three saturated
/// points are rasterized and every emitted fragment is written with
/// `color` through the depth test; misshapen buffers are left alone.
pub open spec fn s_fill_triangle(
    buf: Seq<u32>,
    depths: Seq<i64>,
    w: int,
    h: int,
    color: u32,
    p0: Vec3Fx,
    p1: Vec3Fx,
    p2: Vec3Fx,
) -> (Seq<u32>, Seq<i64>) {
    if buf.len() == w * h && depths.len() == w * h {
        s_write_color_seq(
            buf,
            depths,
            w,
            h,
            s_raster_frags(s_fill_vertex(p0), s_fill_vertex(p1), s_fill_vertex(p2)),
            color,
        )
    } else {
        (buf, depths)
    }
}

/// The point of the fan's `i`-th spoke: the center displaced by the
/// radius along the approximated cosine and sine of `i` angle steps.
pub open spec fn s_fan_point(center: Vec3Fx, radius: i64, i: int) -> Vec3Fx {
    Vec3Fx {
        x: s_fx_add(center.x as int, s_fx_mul(radius as int, s_cos(i * FX_SEGMENT_STEP))) as i64,
        y: s_fx_add(center.y as int, s_fx_mul(radius as int, s_sin(i * FX_SEGMENT_STEP))) as i64,
        z: center.z,
    }
}

/// The first `n` fan segments filled in order: segment `i` is the
/// triangle of the center and spokes `i` and `i + 1`.
pub open spec fn s_circle_fan(
    buf: Seq<u32>,
    depths: Seq<i64>,
    w: int,
    h: int,
    color: u32,
    center: Vec3Fx,
    radius: i64,
    n: nat,
) -> (Seq<u32>, Seq<i64>)
    decreases n,
{
    if n == 0 {
        (buf, depths)
    } else {
        let prev = s_circle_fan(buf, depths, w, h, color, center, radius, (n - 1) as nat);
        s_fill_triangle(
            prev.0,
            prev.1,
            w,
            h,
            color,
            center,
            s_fan_point(center, radius, n - 1),
            s_fan_point(center, radius, n as int),
        )
    }
}

/// Render targets that can draw a filled circle.
pub trait Circle: Sized {
    /// What drawing the fan promises of the target: how the state after
    /// the call relates to the state before it.
    spec fn circle_post(pre: Self, post: Self, center: Vec3Fx, radius: i64) -> bool;

    /// Approximate a filled circle at `center` (screen space, fixed
    /// point) with the given radius, writing the current color at the
    /// center's depth.
    fn circle(&mut self, center: Vec3Fx, radius: i64)
        ensures
            Self::circle_post(*old(self), *final(self), center, radius),
    ;
}

impl Framebuffer {
    /// Fill the 2D triangle of three screen-space points with the current
    /// color: the points are rasterized as a flat triangle and every
    /// covered in-bounds pixel is depth-tested at the interpolated depth.
    /// The buffers become exactly `s_fill_triangle` of the old state;
    /// sizes and colors are kept, and on a well-formed buffer depths
    /// never move farther while a pixel whose depth did not change keeps
    /// its color.
    pub fn fill_triangle_2d(&mut self, p0: Vec3Fx, p1: Vec3Fx, p2: Vec3Fx)
        ensures
            (final(self).buffer@, final(self).depth_buffer@) == s_fill_triangle(
                old(self).buffer@,
                old(self).depth_buffer@,
                old(self).width as int,
                old(self).height as int,
                old(self).current_color,
                p0,
                p1,
                p2,
            ),
            final(self).width == old(self).width,
            final(self).height == old(self).height,
            final(self).current_color == old(self).current_color,
            final(self).background_color == old(self).background_color,
            old(self).well_formed() ==> {
                &&& final(self).well_formed()
                &&& final(self).depth_buffer.len() == old(self).depth_buffer.len()
                &&& forall|i: int|
                    0 <= i < final(self).depth_buffer.len() ==> final(self).depth_buffer[i]
                        <= old(self).depth_buffer[i]
                &&& forall|i: int|
                    0 <= i < final(self).depth_buffer.len() && final(self).depth_buffer[i] == old(
                        self,
                    ).depth_buffer[i] ==> final(self).buffer[i] == old(self).buffer[i]
            },
    {
        let blen = self.buffer.len();
        let dlen = self.depth_buffer.len();
        let shaped = match self.width.checked_mul(self.height) {
            Option::Some(n) => blen == n && dlen == n,
            Option::None => false,
        };
        if !shaped {
            return;
        }
        let q0 = Vec3Fx { x: fx_clamp64(p0.x), y: fx_clamp64(p0.y), z: fx_clamp64(p0.z) };
        let q1 = Vec3Fx { x: fx_clamp64(p1.x), y: fx_clamp64(p1.y), z: fx_clamp64(p1.z) };
        let q2 = Vec3Fx { x: fx_clamp64(p2.x), y: fx_clamp64(p2.y), z: fx_clamp64(p2.z) };
        let zero = Vec3Fx { x: 0, y: 0, z: 0 };
        let v0 = Vertex {
            position: q0,
            normal: zero,
            tex_coords: Vec2Fx { x: 0, y: 0 },
            color: Color::new(0, 0, 0),
            transformed_position: q0,
            transformed_normal: zero,
        };
        let v1 = Vertex { position: q1, transformed_position: q1, ..v0 };
        let v2 = Vertex { position: q2, transformed_position: q2, ..v0 };
        proof {
            assert(v0 == s_fill_vertex(p0));
            assert(v1 == s_fill_vertex(p1));
            assert(v2 == s_fill_vertex(p2));
        }
        let frags = triangle(&v0, &v1, &v2);
        let mut k: usize = 0;
        while k < frags.len()
            invariant
                k <= frags.len(),
                self.well_formed(),
                self.width == old(self).width,
                self.height == old(self).height,
                self.current_color == old(self).current_color,
                self.background_color == old(self).background_color,
                self.depth_buffer.len() == old(self).depth_buffer.len(),
                (self.buffer@, self.depth_buffer@) == s_write_color_seq(
                    old(self).buffer@,
                    old(self).depth_buffer@,
                    old(self).width as int,
                    old(self).height as int,
                    frags@.take(k as int),
                    old(self).current_color,
                ),
                forall|i: int|
                    0 <= i < self.depth_buffer.len() ==> self.depth_buffer[i] <= old(
                        self,
                    ).depth_buffer[i],
                forall|i: int|
                    0 <= i < self.depth_buffer.len() && self.depth_buffer[i] == old(
                        self,
                    ).depth_buffer[i] ==> self.buffer[i] == old(self).buffer[i],
            decreases frags.len() - k,
        {
            let ghost fb0 = *self;
            let f = frags[k];
            proof {
                lemma_write_color_seq_snoc(
                    old(self).buffer@,
                    old(self).depth_buffer@,
                    old(self).width as int,
                    old(self).height as int,
                    frags@.take(k as int),
                    frags@[k as int],
                    old(self).current_color,
                );
                assert(frags@.take(k as int).push(frags@[k as int]) =~= frags@.take(k as int + 1));
            }
            if f.x >= 0 && f.y >= 0 && (f.x as u64) < (self.width as u64) && (f.y as u64) < (
            self.height as u64) {
                let ux = f.x as usize;
                let uy = f.y as usize;
                self.point(ux, uy, f.depth);
                proof {
                    let idx = (uy as int) * (fb0.width as int) + (ux as int);
                    assert((uy as int) * (fb0.width as int) + (ux as int) < (fb0.height as int)
                        * (fb0.width as int)) by (nonlinear_arith)
                        requires
                            (uy as int) < (fb0.height as int),
                            (ux as int) < (fb0.width as int),
                    ;
                    assert((fb0.height as int) * (fb0.width as int) == (fb0.width as int) * (
                    fb0.height as int)) by (nonlinear_arith);
                    assert(0 <= idx < fb0.depth_buffer.len());
                    assert forall|i: int| 0 <= i < self.depth_buffer.len() implies
                        self.depth_buffer[i] <= fb0.depth_buffer[i] by {
                        if f.depth < fb0.depth_buffer[idx] && i != idx {
                            assert(self.depth_buffer[i] == fb0.depth_buffer[i]);
                        }
                    }
                    assert forall|i: int|
                        0 <= i < self.depth_buffer.len() && self.depth_buffer[i] == old(
                            self,
                        ).depth_buffer[i] implies self.buffer[i] == old(self).buffer[i] by {
                        if f.depth < fb0.depth_buffer[idx] {
                            assert(self.depth_buffer[idx] == f.depth);
                            assert(i != idx);
                            assert(self.buffer[i] == fb0.buffer[i]);
                            assert(self.depth_buffer[i] == fb0.depth_buffer[i]);
                        }
                    }
                }
            }
            k += 1;
        }
        proof {
            assert(frags@.take(frags@.len() as int) =~= frags@);
        }
    }
}

impl Circle for Framebuffer {
    /// The buffers become exactly the hundred-segment fan of 2D triangle
    /// fills in the current color; sizes and colors are kept.
    open spec fn circle_post(pre: Framebuffer, post: Framebuffer, center: Vec3Fx, radius:
        i64) -> bool {
        &&& post.width == pre.width
        &&& post.height == pre.height
        &&& post.current_color == pre.current_color
        &&& post.background_color == pre.background_color
        &&& (post.buffer@, post.depth_buffer@) == s_circle_fan(
            pre.buffer@,
            pre.depth_buffer@,
            pre.width as int,
            pre.height as int,
            pre.current_color,
            center,
            radius,
            100nat,
        )
    }

    /// One hundred fan segments around the center, each filled at the
    /// center's depth with the current color.
    fn circle(&mut self, center: Vec3Fx, radius: i64) {
        let mut i: u32 = 0;
        while i < 100
            invariant
                i <= 100,
                self.width == old(self).width,
                self.height == old(self).height,
                self.current_color == old(self).current_color,
                self.background_color == old(self).background_color,
                (self.buffer@, self.depth_buffer@) == s_circle_fan(
                    old(self).buffer@,
                    old(self).depth_buffer@,
                    old(self).width as int,
                    old(self).height as int,
                    old(self).current_color,
                    center,
                    radius,
                    i as nat,
                ),
            decreases 100 - i,
        {
            let theta1 = (i as i64) * FX_SEGMENT_STEP;
            let theta2 = (i as i64 + 1) * FX_SEGMENT_STEP;
            let p1 = Vec3Fx {
                x: fx_add(center.x, fx_mul(radius, fx_cos(theta1))),
                y: fx_add(center.y, fx_mul(radius, fx_sin(theta1))),
                z: center.z,
            };
            let p2 = Vec3Fx {
                x: fx_add(center.x, fx_mul(radius, fx_cos(theta2))),
                y: fx_add(center.y, fx_mul(radius, fx_sin(theta2))),
                z: center.z,
            };
            proof {
                assert(p1 == s_fan_point(center, radius, i as int));
                assert(p2 == s_fan_point(center, radius, i as int + 1));
            }
            self.fill_triangle_2d(center, p1, p2);
            i += 1;
        }
    }
}

} // verus!
