//! The triangle rasterizer: three screen-space vertices become the set of
//! fragments whose integer pixel positions the triangle covers.
//!
//! Coverage uses the classic edge-function test: a pixel is inside exactly
//! when all three barycentric weights (signed sub-areas) are nonnegative.
//! Depth and the shading coordinate are barycentric blends; the diffuse
//! intensity is computed once per triangle (flat shading) from the summed
//! vertex normals against the fixed light direction `(0, 0, 1)`.

use vstd::prelude::*;
use crate::fixed::{
    fx_clamp_wide, fx_clamp_to, fx_div, fx_to_px, tdiv_wide, fx_ok, s_abs, s_clamp, s_fx_clamp,
    s_fx_div, s_tdiv, FX_LIMIT, FX_ONE,
};
use crate::fragment::Fragment;
use crate::vecmat::{vec3_add, vec3_norm, s_vec3_add, s_vec3_norm, Vec3Fx};
use crate::vertex::Vertex;

verus! {

/// The signed edge function: twice the signed area of the triangle
/// `(a, b, p)`; positive when `p` lies to the left of the edge `a -> b`.
pub open spec fn s_edge(ax: int, ay: int, bx: int, by: int, px: int, py: int) -> int {
    (bx - ax) * (py - ay) - (by - ay) * (px - ax)
}

/// The pixel column of a vertex's screen-space position.
pub open spec fn s_px_x(v: Vertex) -> int {
    s_tdiv(v.transformed_position.x as int, FX_ONE as int)
}

/// The pixel row of a vertex's screen-space position.
pub open spec fn s_px_y(v: Vertex) -> int {
    s_tdiv(v.transformed_position.y as int, FX_ONE as int)
}

/// Twice the signed area of the triangle in integer pixel coordinates.
pub open spec fn s_tri_area(v0: Vertex, v1: Vertex, v2: Vertex) -> int {
    s_edge(s_px_x(v0), s_px_y(v0), s_px_x(v1), s_px_y(v1), s_px_x(v2), s_px_y(v2))
}

/// The barycentric weight of vertex 0 at pixel `(px, py)`.
pub open spec fn s_w0(v0: Vertex, v1: Vertex, v2: Vertex, px: int, py: int) -> int {
    s_edge(s_px_x(v1), s_px_y(v1), s_px_x(v2), s_px_y(v2), px, py)
}

/// The barycentric weight of vertex 1 at pixel `(px, py)`.
pub open spec fn s_w1(v0: Vertex, v1: Vertex, v2: Vertex, px: int, py: int) -> int {
    s_edge(s_px_x(v2), s_px_y(v2), s_px_x(v0), s_px_y(v0), px, py)
}

/// The barycentric weight of vertex 2 at pixel `(px, py)`.
pub open spec fn s_w2(v0: Vertex, v1: Vertex, v2: Vertex, px: int, py: int) -> int {
    s_edge(s_px_x(v0), s_px_y(v0), s_px_x(v1), s_px_y(v1), px, py)
}

/// A pixel is covered exactly when no barycentric weight is negative,
/// so pixels on a shared edge belong to both triangles.
pub open spec fn s_tri_covered(v0: Vertex, v1: Vertex, v2: Vertex, px: int, py: int) -> bool {
    &&& s_w0(v0, v1, v2, px, py) >= 0
    &&& s_w1(v0, v1, v2, px, py) >= 0
    &&& s_w2(v0, v1, v2, px, py) >= 0
}

/// The smaller of three integers.
pub open spec fn s_min3(a: int, b: int, c: int) -> int {
    if a <= b && a <= c {
        a
    } else if b <= c {
        b
    } else {
        c
    }
}

/// The larger of three integers.
pub open spec fn s_max3(a: int, b: int, c: int) -> int {
    if a >= b && a >= c {
        a
    } else if b >= c {
        b
    } else {
        c
    }
}

/// The leftmost pixel column of the triangle's bounding box.
pub open spec fn s_bb_xmin(v0: Vertex, v1: Vertex, v2: Vertex) -> int {
    s_min3(s_px_x(v0), s_px_x(v1), s_px_x(v2))
}

/// The rightmost pixel column of the triangle's bounding box.
pub open spec fn s_bb_xmax(v0: Vertex, v1: Vertex, v2: Vertex) -> int {
    s_max3(s_px_x(v0), s_px_x(v1), s_px_x(v2))
}

/// The topmost pixel row of the triangle's bounding box.
pub open spec fn s_bb_ymin(v0: Vertex, v1: Vertex, v2: Vertex) -> int {
    s_min3(s_px_y(v0), s_px_y(v1), s_px_y(v2))
}

/// The bottommost pixel row of the triangle's bounding box.
pub open spec fn s_bb_ymax(v0: Vertex, v1: Vertex, v2: Vertex) -> int {
    s_max3(s_px_y(v0), s_px_y(v1), s_px_y(v2))
}

/// The barycentric blend `(w0 a0 + w1 a1 + w2 a2) / area`, truncated and
/// saturated into the fixed-point window.
pub open spec fn s_bary(
    w0: int, w1: int, w2: int, a0: int, a1: int, a2: int, area: int,
) -> int {
    s_fx_clamp(s_tdiv(w0 * a0 + w1 * a1 + w2 * a2, area))
}

/// The flat diffuse intensity of a triangle: the cosine between its summed
/// vertex normals and the fixed light direction `(0, 0, 1)`, clamped to
/// `[0, FX_ONE]`; a zero normal gives zero.
pub open spec fn s_flat_intensity(n0: Vec3Fx, n1: Vec3Fx, n2: Vec3Fx) -> int {
    let nsum = s_vec3_add(s_vec3_add(n0, n1), n2);
    let nn = s_vec3_norm(nsum);
    if nn == 0 {
        0
    } else {
        s_clamp(s_fx_div(nsum.z as int, nn), 0, FX_ONE as int)
    }
}

/// The fragment the rasterizer emits at a covered pixel `(px, py)`.
pub open spec fn s_fragment_at(v0: Vertex, v1: Vertex, v2: Vertex, px: int, py: int) -> Fragment {
    let area = s_tri_area(v0, v1, v2);
    let w0 = s_w0(v0, v1, v2, px, py);
    let w1 = s_w1(v0, v1, v2, px, py);
    let w2 = s_w2(v0, v1, v2, px, py);
    Fragment {
        x: px as i64,
        y: py as i64,
        depth: s_bary(
            w0, w1, w2,
            v0.transformed_position.z as int,
            v1.transformed_position.z as int,
            v2.transformed_position.z as int,
            area,
        ) as i64,
        vertex_position: Vec3Fx {
            x: s_bary(
                w0, w1, w2,
                v0.transformed_normal.x as int,
                v1.transformed_normal.x as int,
                v2.transformed_normal.x as int,
                area,
            ) as i64,
            y: s_bary(
                w0, w1, w2,
                v0.transformed_normal.y as int,
                v1.transformed_normal.y as int,
                v2.transformed_normal.y as int,
                area,
            ) as i64,
            z: s_bary(
                w0, w1, w2,
                v0.transformed_normal.z as int,
                v1.transformed_normal.z as int,
                v2.transformed_normal.z as int,
                area,
            ) as i64,
        },
        intensity: s_flat_intensity(
            v0.transformed_normal,
            v1.transformed_normal,
            v2.transformed_normal,
        ) as i64,
    }
}

/// The fragment list one pixel contributes: a singleton exactly when the
/// pixel is covered.
pub open spec fn s_pixel_frags(v0: Vertex, v1: Vertex, v2: Vertex, px: int, py: int) -> Seq<
    Fragment,
> {
    if s_tri_covered(v0, v1, v2, px, py) {
        seq![s_fragment_at(v0, v1, v2, px, py)]
    } else {
        Seq::empty()
    }
}

/// The fragments of the first `n` pixels of row `py`, starting at column
/// `xmin`, in increasing column order.
pub open spec fn s_row_frags(v0: Vertex, v1: Vertex, v2: Vertex, py: int, xmin: int, n: nat) -> Seq<
    Fragment,
>
    decreases n,
{
    if n == 0 {
        Seq::empty()
    } else {
        s_row_frags(v0, v1, v2, py, xmin, (n - 1) as nat) + s_pixel_frags(v0, v1, v2, xmin + n
            - 1, py)
    }
}

/// The fragments of the first `m` bounding-box rows, each `width` pixels
/// wide, in increasing row order.
pub open spec fn s_rows_frags(
    v0: Vertex,
    v1: Vertex,
    v2: Vertex,
    ymin: int,
    xmin: int,
    width: nat,
    m: nat,
) -> Seq<Fragment>
    decreases m,
{
    if m == 0 {
        Seq::empty()
    } else {
        s_rows_frags(v0, v1, v2, ymin, xmin, width, (m - 1) as nat) + s_row_frags(v0, v1, v2,
            ymin + m - 1, xmin, width)
    }
}

/// The rasterizer's whole output: the bounding box scanned row-major,
/// one fragment per covered pixel; empty when the signed area is not
/// positive.
pub open spec fn s_raster_frags(v0: Vertex, v1: Vertex, v2: Vertex) -> Seq<Fragment> {
    if s_tri_area(v0, v1, v2) <= 0 {
        Seq::empty()
    } else {
        s_rows_frags(
            v0, v1, v2,
            s_bb_ymin(v0, v1, v2),
            s_bb_xmin(v0, v1, v2),
            (s_bb_xmax(v0, v1, v2) - s_bb_xmin(v0, v1, v2) + 1) as nat,
            (s_bb_ymax(v0, v1, v2) - s_bb_ymin(v0, v1, v2) + 1) as nat,
        )
    }
}

/// Every screen-space field the rasterizer reads lies in the fixed-point
/// window (the vertex stage only produces such values).
pub open spec fn s_raster_input_ok(v: Vertex) -> bool {
    &&& fx_ok(v.transformed_position.x as int)
    &&& fx_ok(v.transformed_position.y as int)
    &&& fx_ok(v.transformed_position.z as int)
    &&& fx_ok(v.transformed_normal.x as int)
    &&& fx_ok(v.transformed_normal.y as int)
    &&& fx_ok(v.transformed_normal.z as int)
}

proof fn lemma_mul_expand(a: int, b: int, c: int, d: int)
    ensures
        (a - b) * (c - d) == a * c - a * d - (b * c) + b * d,
{
    assert((a - b) * (c - d) == a * c - a * d - (b * c) + b * d) by (nonlinear_arith);
}

proof fn lemma_edge_cycle(x0: int, y0: int, x1: int, y1: int, x2: int, y2: int, px: int, py: int)
    ensures
        s_edge(x1, y1, x2, y2, px, py) + s_edge(x2, y2, x0, y0, px, py) + s_edge(x0, y0, x1, y1,
            px, py) == s_edge(x0, y0, x1, y1, x2, y2),
{
    lemma_mul_expand(x2, x1, py, y1);
    lemma_mul_expand(y2, y1, px, x1);
    lemma_mul_expand(x0, x2, py, y2);
    lemma_mul_expand(y0, y2, px, x2);
    lemma_mul_expand(x1, x0, py, y0);
    lemma_mul_expand(y1, y0, px, x0);
    lemma_mul_expand(x1, x0, y2, y0);
    lemma_mul_expand(y1, y0, x2, x0);
}

/// The three barycentric weights at any pixel sum exactly to twice the
/// triangle's signed area.
pub proof fn lemma_weights_sum_to_area(v0: Vertex, v1: Vertex, v2: Vertex, px: int, py: int)
    ensures
        s_w0(v0, v1, v2, px, py) + s_w1(v0, v1, v2, px, py) + s_w2(v0, v1, v2, px, py)
            == s_tri_area(v0, v1, v2),
{
    let x0 = s_px_x(v0);
    let y0 = s_px_y(v0);
    let x1 = s_px_x(v1);
    let y1 = s_px_y(v1);
    let x2 = s_px_x(v2);
    let y2 = s_px_y(v2);
    lemma_edge_cycle(x0, y0, x1, y1, x2, y2, px, py);
}

/// Two coincident pixel positions make the triangle degenerate: its
/// signed area is zero, so the rasterizer emits nothing.
pub proof fn lemma_coincident_degenerate(v0: Vertex, v1: Vertex, v2: Vertex)
    requires
        (s_px_x(v0) == s_px_x(v1) && s_px_y(v0) == s_px_y(v1)) || (s_px_x(v1) == s_px_x(v2)
            && s_px_y(v1) == s_px_y(v2)) || (s_px_x(v0) == s_px_x(v2) && s_px_y(v0) == s_px_y(
            v2,
        )),
    ensures
        s_tri_area(v0, v1, v2) == 0,
{
    let x0 = s_px_x(v0);
    let y0 = s_px_y(v0);
    let x1 = s_px_x(v1);
    let y1 = s_px_y(v1);
    let x2 = s_px_x(v2);
    let y2 = s_px_y(v2);
    assert(((x0 == x1 && y0 == y1) || (x1 == x2 && y1 == y2) || (x0 == x2 && y0 == y2))
        ==> s_edge(x0, y0, x1, y1, x2, y2) == 0) by (nonlinear_arith);
}

/// Three collinear pixel positions (all on the line through `(x0, y0)`
/// with direction `(dx, dy)`) make the triangle degenerate: the signed
/// area is zero, so the rasterizer emits nothing.
pub proof fn lemma_collinear_degenerate(x0: int, y0: int, dx: int, dy: int, s: int, t: int)
    ensures
        s_edge(x0, y0, x0 + s * dx, y0 + s * dy, x0 + t * dx, y0 + t * dy) == 0,
{
    assert((x0 + s * dx - x0) * (y0 + t * dy - y0) - (y0 + s * dy - y0) * (x0 + t * dx - x0)
        == 0) by (nonlinear_arith);
}

fn min3_i64(a: i64, b: i64, c: i64) -> (r: i64)
    ensures
        r == s_min3(a as int, b as int, c as int),
{
    if a <= b && a <= c {
        a
    } else if b <= c {
        b
    } else {
        c
    }
}

fn max3_i64(a: i64, b: i64, c: i64) -> (r: i64)
    ensures
        r == s_max3(a as int, b as int, c as int),
{
    if a >= b && a >= c {
        a
    } else if b >= c {
        b
    } else {
        c
    }
}

fn edge_wide(ax: i64, ay: i64, bx: i64, by: i64, px: i64, py: i64) -> (r: i128)
    requires
        -0x4000_0000 <= ax <= 0x4000_0000,
        -0x4000_0000 <= ay <= 0x4000_0000,
        -0x4000_0000 <= bx <= 0x4000_0000,
        -0x4000_0000 <= by <= 0x4000_0000,
        -0x4000_0001 <= px <= 0x4000_0001,
        -0x4000_0001 <= py <= 0x4000_0001,
    ensures
        r == s_edge(ax as int, ay as int, bx as int, by as int, px as int, py as int),
        -0x2_0000_0000_0000_0000 <= r <= 0x2_0000_0000_0000_0000,
{
    proof {
        assert(-0x1_0000_0000_0000_0000 <= (bx as int - ax as int) * (py as int - ay as int)
            <= 0x1_0000_0000_0000_0000) by (nonlinear_arith)
            requires
                -0x1_0000_0000 <= bx as int - ax as int <= 0x1_0000_0000,
                -0x1_0000_0000 <= py as int - ay as int <= 0x1_0000_0000,
        ;
        assert(-0x1_0000_0000_0000_0000 <= (by as int - ay as int) * (px as int - ax as int)
            <= 0x1_0000_0000_0000_0000) by (nonlinear_arith)
            requires
                -0x1_0000_0000 <= by as int - ay as int <= 0x1_0000_0000,
                -0x1_0000_0000 <= px as int - ax as int <= 0x1_0000_0000,
        ;
    }
    (bx as i128 - ax as i128) * (py as i128 - ay as i128) - (by as i128 - ay as i128) * (
    px as i128 - ax as i128)
}

fn bary_interp(w0: i128, w1: i128, w2: i128, a0: i64, a1: i64, a2: i64, area: i128) -> (r: i64)
    requires
        area > 0,
        -0x2_0000_0000_0000_0000 <= w0 <= 0x2_0000_0000_0000_0000,
        -0x2_0000_0000_0000_0000 <= w1 <= 0x2_0000_0000_0000_0000,
        -0x2_0000_0000_0000_0000 <= w2 <= 0x2_0000_0000_0000_0000,
        fx_ok(a0 as int),
        fx_ok(a1 as int),
        fx_ok(a2 as int),
    ensures
        r == s_bary(w0 as int, w1 as int, w2 as int, a0 as int, a1 as int, a2 as int,
            area as int),
        fx_ok(r as int),
{
    proof {
        assert(-0x8_0000_0000_0000_0000_0000_0000_0000 <= (w0 as int) * (a0 as int)
            <= 0x8_0000_0000_0000_0000_0000_0000_0000) by (nonlinear_arith)
            requires
                -0x2_0000_0000_0000_0000 <= w0 as int <= 0x2_0000_0000_0000_0000,
                -0x4000_0000_0000 <= a0 as int <= 0x4000_0000_0000,
        ;
        assert(-0x8_0000_0000_0000_0000_0000_0000_0000 <= (w1 as int) * (a1 as int)
            <= 0x8_0000_0000_0000_0000_0000_0000_0000) by (nonlinear_arith)
            requires
                -0x2_0000_0000_0000_0000 <= w1 as int <= 0x2_0000_0000_0000_0000,
                -0x4000_0000_0000 <= a1 as int <= 0x4000_0000_0000,
        ;
        assert(-0x8_0000_0000_0000_0000_0000_0000_0000 <= (w2 as int) * (a2 as int)
            <= 0x8_0000_0000_0000_0000_0000_0000_0000) by (nonlinear_arith)
            requires
                -0x2_0000_0000_0000_0000 <= w2 as int <= 0x2_0000_0000_0000_0000,
                -0x4000_0000_0000 <= a2 as int <= 0x4000_0000_0000,
        ;
    }
    let sum: i128 = w0 * (a0 as i128) + w1 * (a1 as i128) + w2 * (a2 as i128);
    let q = tdiv_wide(sum, area);
    fx_clamp_wide(q)
}

/// The flat diffuse intensity of a triangle, from its three transformed
/// normals; always in `[0, FX_ONE]`.
pub fn flat_intensity(n0: &Vec3Fx, n1: &Vec3Fx, n2: &Vec3Fx) -> (r: i64)
    ensures
        r == s_flat_intensity(*n0, *n1, *n2),
        0 <= r <= FX_ONE,
{
    let nsum = vec3_add(&vec3_add(n0, n1), n2);
    let nn = vec3_norm(&nsum);
    if nn == 0 {
        0
    } else {
        let d = fx_div(nsum.z, nn);
        fx_clamp_to(d, 0, FX_ONE)
    }
}

/// Rasterize the triangle of three vertex-shaded vertices.
///
/// A triangle of zero or negative signed area yields no fragments. For a
/// positive area, the result holds exactly one fragment per pixel of the
/// bounding box whose barycentric weights are all nonnegative; each
/// fragment carries the interpolated depth, the blended normal as its
/// shading coordinate, and the triangle's flat intensity. The fragment
/// count never exceeds the bounding box's pixel count.
#[verifier::loop_isolation(false)]
pub fn triangle(v0: &Vertex, v1: &Vertex, v2: &Vertex) -> (frags: Vec<Fragment>)
    requires
        s_raster_input_ok(*v0),
        s_raster_input_ok(*v1),
        s_raster_input_ok(*v2),
    ensures
        frags@ == s_raster_frags(*v0, *v1, *v2),
        s_tri_area(*v0, *v1, *v2) <= 0 ==> frags.len() == 0,
        frags.len() <= (s_bb_xmax(*v0, *v1, *v2) - s_bb_xmin(*v0, *v1, *v2) + 1) * (s_bb_ymax(
            *v0, *v1, *v2) - s_bb_ymin(*v0, *v1, *v2) + 1),
        forall|i: int, j: int|
            0 <= i < j < frags.len() ==> (frags[i].y < frags[j].y || (frags[i].y == frags[j].y
                && frags[i].x < frags[j].x)),
        forall|i: int|
            0 <= i < frags.len() ==> {
                let f = #[trigger] frags[i];
                &&& s_bb_xmin(*v0, *v1, *v2) <= f.x <= s_bb_xmax(*v0, *v1, *v2)
                &&& s_bb_ymin(*v0, *v1, *v2) <= f.y <= s_bb_ymax(*v0, *v1, *v2)
                &&& -0x4000_0000 <= f.x <= 0x4000_0000
                &&& -0x4000_0000 <= f.y <= 0x4000_0000
                &&& s_tri_covered(*v0, *v1, *v2, f.x as int, f.y as int)
                &&& f == s_fragment_at(*v0, *v1, *v2, f.x as int, f.y as int)
            },
        s_tri_area(*v0, *v1, *v2) > 0 ==> forall|qx: int, qy: int|
            s_bb_xmin(*v0, *v1, *v2) <= qx <= s_bb_xmax(*v0, *v1, *v2) && s_bb_ymin(*v0, *v1,
                *v2) <= qy <= s_bb_ymax(*v0, *v1, *v2) && #[trigger] s_tri_covered(*v0, *v1, *v2,
                qx, qy) ==> exists|i: int|
                0 <= i < frags.len() && frags[i].x == qx && frags[i].y == qy,
{
    let x0 = fx_to_px(v0.transformed_position.x);
    let y0 = fx_to_px(v0.transformed_position.y);
    let x1 = fx_to_px(v1.transformed_position.x);
    let y1 = fx_to_px(v1.transformed_position.y);
    let x2 = fx_to_px(v2.transformed_position.x);
    let y2 = fx_to_px(v2.transformed_position.y);
    proof {
        lemma_px_window(v0.transformed_position.x as int);
        lemma_px_window(v0.transformed_position.y as int);
        lemma_px_window(v1.transformed_position.x as int);
        lemma_px_window(v1.transformed_position.y as int);
        lemma_px_window(v2.transformed_position.x as int);
        lemma_px_window(v2.transformed_position.y as int);
    }
    let mut frags: Vec<Fragment> = Vec::new();
    let area = edge_wide(x0, y0, x1, y1, x2, y2);
    if area <= 0 {
        proof {
            let bw = s_bb_xmax(*v0, *v1, *v2) - s_bb_xmin(*v0, *v1, *v2) + 1;
            let bh = s_bb_ymax(*v0, *v1, *v2) - s_bb_ymin(*v0, *v1, *v2) + 1;
            assert(bw * bh >= 0) by (nonlinear_arith)
                requires
                    bw >= 1,
                    bh >= 1,
            ;
            assert(frags@ =~= s_raster_frags(*v0, *v1, *v2));
        }
        return frags;
    }
    let intensity = flat_intensity(
        &v0.transformed_normal,
        &v1.transformed_normal,
        &v2.transformed_normal,
    );
    let xmin = min3_i64(x0, x1, x2);
    let xmax = max3_i64(x0, x1, x2);
    let ymin = min3_i64(y0, y1, y2);
    let ymax = max3_i64(y0, y1, y2);
    let width: i64 = xmax - xmin + 1;
    let mut py: i64 = ymin;
    while py <= ymax
        invariant
            ymin <= py <= ymax + 1,
            frags@ == s_rows_frags(*v0, *v1, *v2, ymin as int, xmin as int, (xmax - xmin
                + 1) as nat, (py - ymin) as nat),
            frags.len() <= (py - ymin) * (width as int),
            forall|i: int, j: int|
                0 <= i < j < frags.len() ==> (frags[i].y < frags[j].y || (frags[i].y
                    == frags[j].y && frags[i].x < frags[j].x)),
            forall|i: int|
                0 <= i < frags.len() ==> {
                    let f = #[trigger] frags[i];
                    &&& xmin <= f.x <= xmax
                    &&& ymin <= f.y < py
                    &&& s_tri_covered(*v0, *v1, *v2, f.x as int, f.y as int)
                    &&& f == s_fragment_at(*v0, *v1, *v2, f.x as int, f.y as int)
                },
            forall|qx: int, qy: int|
                xmin <= qx <= xmax && ymin <= qy < py && #[trigger] s_tri_covered(*v0, *v1, *v2,
                    qx, qy) ==> exists|i: int|
                    0 <= i < frags.len() && frags[i].x == qx && frags[i].y == qy,
        decreases ymax + 1 - py,
    {
        proof {
            assert(s_row_frags(*v0, *v1, *v2, py as int, xmin as int, 0nat) =~= Seq::<
                Fragment,
            >::empty());
            assert(frags@ =~= frags@ + s_row_frags(*v0, *v1, *v2, py as int, xmin as int, 0nat));
        }
        let mut px: i64 = xmin;
        while px <= xmax
            invariant
                ymin <= py <= ymax,
                xmin <= px <= xmax + 1,
                frags@ == s_rows_frags(*v0, *v1, *v2, ymin as int, xmin as int, (xmax - xmin
                    + 1) as nat, (py - ymin) as nat) + s_row_frags(*v0, *v1, *v2, py as int,
                    xmin as int, (px - xmin) as nat),
                frags.len() <= (py - ymin) * (width as int) + (px - xmin),
                forall|i: int, j: int|
                    0 <= i < j < frags.len() ==> (frags[i].y < frags[j].y || (frags[i].y
                        == frags[j].y && frags[i].x < frags[j].x)),
                forall|i: int|
                    0 <= i < frags.len() ==> {
                        let f = #[trigger] frags[i];
                        &&& xmin <= f.x <= xmax
                        &&& (f.y < py || (f.y == py && f.x < px))
                        &&& ymin <= f.y
                        &&& s_tri_covered(*v0, *v1, *v2, f.x as int, f.y as int)
                        &&& f == s_fragment_at(*v0, *v1, *v2, f.x as int, f.y as int)
                    },
                forall|qx: int, qy: int|
                    xmin <= qx <= xmax && ymin <= qy && (qy < py || (qy == py && qx < px))
                        && #[trigger] s_tri_covered(*v0, *v1, *v2, qx, qy) ==> exists|i: int|
                        0 <= i < frags.len() && frags[i].x == qx && frags[i].y == qy,
            decreases xmax + 1 - px,
        {
            let ghost frags0 = frags@;
            let w0 = edge_wide(x1, y1, x2, y2, px, py);
            let w1 = edge_wide(x2, y2, x0, y0, px, py);
            let w2 = edge_wide(x0, y0, x1, y1, px, py);
            if w0 >= 0 && w1 >= 0 && w2 >= 0 {
                let depth = bary_interp(
                    w0, w1, w2,
                    v0.transformed_position.z,
                    v1.transformed_position.z,
                    v2.transformed_position.z,
                    area,
                );
                let vx = bary_interp(
                    w0, w1, w2,
                    v0.transformed_normal.x,
                    v1.transformed_normal.x,
                    v2.transformed_normal.x,
                    area,
                );
                let vy = bary_interp(
                    w0, w1, w2,
                    v0.transformed_normal.y,
                    v1.transformed_normal.y,
                    v2.transformed_normal.y,
                    area,
                );
                let vz = bary_interp(
                    w0, w1, w2,
                    v0.transformed_normal.z,
                    v1.transformed_normal.z,
                    v2.transformed_normal.z,
                    area,
                );
                let frag = Fragment {
                    x: px,
                    y: py,
                    depth,
                    vertex_position: Vec3Fx { x: vx, y: vy, z: vz },
                    intensity,
                };
                proof {
                    assert(frag == s_fragment_at(*v0, *v1, *v2, px as int, py as int));
                }
                frags.push(frag);
                proof {
                    assert(frags[frags.len() - 1].x == px && frags[frags.len() - 1].y == py);
                }
            }
            proof {
                let rows = s_rows_frags(*v0, *v1, *v2, ymin as int, xmin as int, (xmax - xmin
                    + 1) as nat, (py - ymin) as nat);
                let row_done = s_row_frags(*v0, *v1, *v2, py as int, xmin as int, (px
                    - xmin) as nat);
                let row_next = s_row_frags(*v0, *v1, *v2, py as int, xmin as int, (px + 1
                    - xmin) as nat);
                assert((px + 1 - xmin) as nat != 0 && xmin as int + (px + 1 - xmin) - 1
                    == px as int);
                assert(row_next == row_done + s_pixel_frags(*v0, *v1, *v2, px as int, py as int));
                assert(frags@ =~= rows + row_next);
                assert(frags.len() <= (py - ymin) * (width as int) + (px + 1 - xmin));
                assert forall|qx: int, qy: int|
                    xmin <= qx <= xmax && ymin <= qy && (qy < py || (qy == py && qx < px + 1))
                        && #[trigger] s_tri_covered(*v0, *v1, *v2, qx, qy) implies exists|i: int|
                    0 <= i < frags.len() && frags[i].x == qx && frags[i].y == qy by {
                    if qy < py || (qy == py && qx < px) {
                        let j = choose|j: int|
                            0 <= j < frags0.len() && frags0[j].x == qx && frags0[j].y == qy;
                        assert(frags[j].x == qx && frags[j].y == qy);
                    } else {
                        assert(qx == px && qy == py);
                        assert(frags[frags.len() - 1].x == qx && frags[frags.len() - 1].y == qy);
                    }
                }
            }
            px = px + 1;
        }
        proof {
            assert((py - ymin) * (width as int) + (width as int) == (py + 1 - ymin) * (
            width as int)) by (nonlinear_arith);
            let rows_done = s_rows_frags(*v0, *v1, *v2, ymin as int, xmin as int, (xmax - xmin
                + 1) as nat, (py - ymin) as nat);
            let rows_next = s_rows_frags(*v0, *v1, *v2, ymin as int, xmin as int, (xmax - xmin
                + 1) as nat, (py + 1 - ymin) as nat);
            assert((py + 1 - ymin) as nat != 0 && ymin as int + (py + 1 - ymin) - 1 == py as int);
            assert(rows_next == rows_done + s_row_frags(*v0, *v1, *v2, py as int, xmin as int,
                (xmax - xmin + 1) as nat));
            assert(frags@ =~= rows_next);
        }
        py = py + 1;
    }
    proof {
        assert(frags@ == s_raster_frags(*v0, *v1, *v2));
        assert((ymax + 1 - ymin) * (width as int) == (width as int) * (ymax + 1 - ymin))
            by (nonlinear_arith);
        assert((width as int) * (ymax + 1 - ymin) == (s_bb_xmax(*v0, *v1, *v2) - s_bb_xmin(
            *v0, *v1, *v2) + 1) * (s_bb_ymax(*v0, *v1, *v2) - s_bb_ymin(*v0, *v1, *v2) + 1));
    }
    frags
}

/// A screen coordinate in the fixed-point window maps to a pixel index
/// of magnitude at most 2^30.
proof fn lemma_px_window(v: int)
    requires
        -FX_LIMIT <= v <= FX_LIMIT,
    ensures
        -0x4000_0000 <= s_tdiv(v, FX_ONE as int) <= 0x4000_0000,
{
    vstd::arithmetic::div_mod::lemma_div_is_ordered(s_abs(v), FX_LIMIT as int, FX_ONE as int);
    vstd::arithmetic::div_mod::lemma_div_pos_is_pos(s_abs(v), FX_ONE as int);
    vstd::arithmetic::div_mod::lemma_div_by_multiple(0x4000_0000, 65536);
    assert(FX_LIMIT as int == 0x4000_0000 * 65536);
}

} // verus!
