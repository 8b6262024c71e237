//! The vertex stage and the procedural fragment shaders.
//!
//! The vertex shader maps a vertex through the projection-view-model
//! chain, performs the perspective divide and the viewport map, and turns
//! the normal through the inverse-transpose of the model matrix's 3x3
//! block (falling back to the identity when that block is singular).
//!
//! Each fragment shader is a pure function from a fragment and the frame
//! uniforms to a color: animated stripe, radial-gradient, banded-planet,
//! gas-giant, rocky, cratered-moon and ring surfaces, all built from the
//! fixed-point sine, square-root and arctangent approximations.

use vstd::prelude::*;
use crate::color::{s_color_add, s_color_lerp, s_color_scale, Color};
use crate::fixed::{
    fx_abs, fx_add, fx_asin, fx_atan2, fx_clamp64, fx_clamp_to, fx_cos, fx_div, fx_mul, fx_sin,
    fx_sub, fx_tdiv_small, s_abs, s_asin, s_atan2, s_clamp, s_cos, s_fx_add, s_fx_clamp,
    s_fx_div, s_fx_mul, s_fx_sub, s_sin, s_tdiv, FX_ONE, FX_PI, FX_TWO_PI,
};
use crate::fragment::Fragment;
use crate::pipeline::Uniforms;
use crate::triangle::s_raster_input_ok;
use crate::vecmat::{
    mat3_from_mat4, mat3_inverse, mat3_mul_vec3, mat3_transpose, mat4_mul, mat4_mul_vec4,
    vec3_norm, vec3_normalize, s_mat3_from_mat4, s_mat3_det, s_mat3_identity, s_mat3_inverse,
    s_mat3_mul_vec3, s_mat3_transpose, s_mat4_mul, s_mat4_mul_vec4, s_vec3_norm,
    s_vec3_normalize, s_dot3, dot3, Mat3Fx, Vec3Fx, Vec4Fx,
};
use crate::vertex::Vertex;

verus! {

/// The vertex stage: `position` is carried through projection * view *
/// model, divided by the homogeneous w, and mapped by the viewport matrix;
/// the normal is turned by the inverse-transpose of the model matrix's
/// 3x3 block, or by the identity when that block is singular. All other
/// fields pass through unchanged.
pub open spec fn s_vertex_shader(v: Vertex, u: Uniforms) -> Vertex {
    let pv = s_mat4_mul(u.projection_matrix, u.view_matrix);
    let pvm = s_mat4_mul(pv, u.model_matrix);
    let clip = s_mat4_mul_vec4(
        pvm,
        Vec4Fx { x: v.position.x, y: v.position.y, z: v.position.z, w: FX_ONE },
    );
    let ndc = Vec4Fx {
        x: s_fx_div(clip.x as int, clip.w as int) as i64,
        y: s_fx_div(clip.y as int, clip.w as int) as i64,
        z: s_fx_div(clip.z as int, clip.w as int) as i64,
        w: FX_ONE,
    };
    let screen = s_mat4_mul_vec4(u.viewport_matrix, ndc);
    let m3 = s_mat3_transpose(s_mat3_from_mat4(u.model_matrix));
    let nmat = if s_mat3_det(m3) == 0 {
        s_mat3_identity()
    } else {
        s_mat3_inverse(m3)
    };
    Vertex {
        position: v.position,
        normal: v.normal,
        tex_coords: v.tex_coords,
        color: v.color,
        transformed_position: Vec3Fx { x: screen.x, y: screen.y, z: screen.z },
        transformed_normal: s_mat3_mul_vec3(nmat, v.normal),
    }
}

/// The vertex stage; its output always satisfies the rasterizer's
/// fixed-point window bound.
pub fn vertex_shader(vertex: &Vertex, uniforms: &Uniforms) -> (out: Vertex)
    ensures
        out == s_vertex_shader(*vertex, *uniforms),
        s_raster_input_ok(out),
{
    let pv = mat4_mul(&uniforms.projection_matrix, &uniforms.view_matrix);
    let pvm = mat4_mul(&pv, &uniforms.model_matrix);
    let clip = mat4_mul_vec4(
        &pvm,
        &Vec4Fx { x: vertex.position.x, y: vertex.position.y, z: vertex.position.z, w: FX_ONE },
    );
    let ndc = Vec4Fx {
        x: fx_div(clip.x, clip.w),
        y: fx_div(clip.y, clip.w),
        z: fx_div(clip.z, clip.w),
        w: FX_ONE,
    };
    let screen = mat4_mul_vec4(&uniforms.viewport_matrix, &ndc);
    let m3 = mat3_transpose(&mat3_from_mat4(&uniforms.model_matrix));
    let nmat = match mat3_inverse(&m3) {
        Option::Some(inv) => inv,
        Option::None => Mat3Fx {
            m00: FX_ONE, m01: 0, m02: 0,
            m10: 0, m11: FX_ONE, m12: 0,
            m20: 0, m21: 0, m22: FX_ONE,
        },
    };
    let tn = mat3_mul_vec3(&nmat, &vertex.normal);
    Vertex {
        position: vertex.position,
        normal: vertex.normal,
        tex_coords: vertex.tex_coords,
        color: vertex.color,
        transformed_position: Vec3Fx { x: screen.x, y: screen.y, z: screen.z },
        transformed_normal: tn,
    }
}

/// The shading coordinate a fragment carries, saturated into the
/// fixed-point window (the rasterizer only emits such values, so this is
/// the identity on pipeline fragments).
pub open spec fn s_shading_point(f: Fragment) -> Vec3Fx {
    Vec3Fx {
        x: s_fx_clamp(f.vertex_position.x as int) as i64,
        y: s_fx_clamp(f.vertex_position.y as int) as i64,
        z: s_fx_clamp(f.vertex_position.z as int) as i64,
    }
}

fn shading_point(f: &Fragment) -> (p: Vec3Fx)
    ensures
        p == s_shading_point(*f),
{
    Vec3Fx {
        x: fx_clamp64(f.vertex_position.x),
        y: fx_clamp64(f.vertex_position.y),
        z: fx_clamp64(f.vertex_position.z),
    }
}

/// The striped gas-planet surface: a sine stripe pattern drifting with
/// time, blended between two muted greens and lit by the intensity.
pub open spec fn s_planet1(f: Fragment, time: u32) -> Color {
    let p = s_shading_point(f);
    let moving_y = s_fx_add(p.y as int, time * 66);
    let arg = s_fx_mul(s_fx_div(moving_y, 13107), FX_PI as int);
    let stripe = s_tdiv(s_sin(arg), 2) + 32768;
    s_color_scale(
        s_color_lerp(Color { r: 85, g: 117, b: 114 }, Color { r: 112, g: 147, b: 144 }, stripe),
        f.intensity as int,
    )
}

/// The striped gas-planet shader.
pub fn planet1(f: &Fragment, uniforms: &Uniforms) -> (c: Color)
    ensures
        c == s_planet1(*f, uniforms.time),
{
    let p = shading_point(f);
    let moving_y = fx_add(p.y, (uniforms.time as i64) * 66);
    let arg = fx_mul(fx_div(moving_y, 13107), FX_PI);
    let stripe = fx_tdiv_small(fx_sin(arg), 2) + 32768;
    let c1 = Color::new(85, 117, 114);
    let c2 = Color::new(112, 147, 144);
    c1.lerp(&c2, stripe).scale(f.intensity)
}

/// The sun: a radial gradient from white through yellows to dark orange,
/// by the distance of the shading point from the axis, modulated by the
/// diffuse intensity.
pub open spec fn s_sun_shader(f: Fragment) -> Color {
    let p = s_shading_point(f);
    let radius = s_vec3_norm(Vec3Fx { x: p.x, y: p.y, z: 0i64 });
    let t = s_clamp(radius, 0, FX_ONE as int);
    let c1 = Color { r: 255, g: 255, b: 255 };
    let c2 = Color { r: 255, g: 230, b: 28 };
    let c3 = Color { r: 255, g: 178, b: 51 };
    let c4 = Color { r: 204, g: 102, b: 0 };
    let blended = if t < 34735 {
        s_color_lerp(c1, c2, s_fx_div(t, 21627))
    } else if t < 43254 {
        s_color_lerp(c2, c3, s_fx_div(t - 21627, 21627))
    } else {
        s_color_lerp(c3, c4, s_fx_div(t - 43254, 22282))
    };
    s_color_scale(blended, f.intensity as int)
}

/// The sun shader.
pub fn sun_shader(f: &Fragment, _uniforms: &Uniforms) -> (c: Color)
    ensures
        c == s_sun_shader(*f),
{
    let p = shading_point(f);
    let radius = vec3_norm(&Vec3Fx { x: p.x, y: p.y, z: 0 });
    let t = fx_clamp_to(radius, 0, FX_ONE);
    let c1 = Color::new(255, 255, 255);
    let c2 = Color::new(255, 230, 28);
    let c3 = Color::new(255, 178, 51);
    let c4 = Color::new(204, 102, 0);
    let blended = if t < 34735 {
        c1.lerp(&c2, fx_div(t, 21627))
    } else if t < 43254 {
        c2.lerp(&c3, fx_div(t - 21627, 21627))
    } else {
        c3.lerp(&c4, fx_div(t - 43254, 22282))
    };
    blended.scale(f.intensity)
}

/// The banded earth-like surface: latitude/longitude remapping, a
/// sine-product continent mask, two polar circles, and an animated cloud
/// layer inside the atmosphere radius, modulated by the diffuse intensity.
pub open spec fn s_earth_shader(f: Fragment, time: u32) -> Color {
    let p = s_shading_point(f);
    let theta = s_asin(s_fx_div(p.y as int, 32768));
    let phi = s_atan2(p.z as int, p.x as int);
    let uu = s_fx_add(s_fx_div(phi, FX_TWO_PI as int), 32768);
    let vv = s_fx_add(s_fx_div(theta, FX_PI as int), 32768);
    let noise = s_abs(s_fx_mul(s_sin(s_fx_mul(uu, 471859)), s_cos(s_fx_mul(vv, 471859))));
    let base = if noise > 36044 {
        Color { r: 34, g: 139, b: 34 }
    } else {
        Color { r: 0, g: 105, b: 148 }
    };
    let d1 = s_vec3_norm(
        Vec3Fx { x: s_fx_sub(uu, 32768) as i64, y: s_fx_sub(vv, 45875) as i64, z: 0i64 },
    );
    let d2 = s_vec3_norm(
        Vec3Fx { x: s_fx_sub(uu, 13107) as i64, y: s_fx_sub(vv, 19661) as i64, z: 0i64 },
    );
    let tfx = time * 6554;
    let cloud_pattern = s_abs(
        s_fx_mul(
            s_sin(s_fx_add(s_fx_mul(uu, 524288), tfx)),
            s_cos(s_fx_add(s_fx_mul(vv, 524288), tfx)),
        ),
    );
    let cloud_intensity = s_fx_mul(s_clamp(s_fx_sub(cloud_pattern, 32768), 0, FX_ONE as int),
        19661);
    let cloud_color = s_color_scale(Color { r: 255, g: 255, b: 255 }, cloud_intensity);
    let dist_center = s_vec3_norm(Vec3Fx { x: s_fx_clamp(uu) as i64, y: s_fx_clamp(vv) as i64, z: 0i64 });
    let planet_color = if d1 < 6554 || d2 < 6554 {
        Color { r: 255, g: 255, b: 255 }
    } else {
        base
    };
    let surface = if dist_center < 58983 {
        s_color_add(s_color_scale(planet_color, s_fx_sub(FX_ONE as int, cloud_intensity)),
            cloud_color)
    } else {
        planet_color
    };
    s_color_scale(surface, f.intensity as int)
}

/// The earth shader.
pub fn earth_shader(f: &Fragment, uniforms: &Uniforms) -> (c: Color)
    ensures
        c == s_earth_shader(*f, uniforms.time),
{
    let p = shading_point(f);
    let theta = fx_asin(fx_div(p.y, 32768));
    let phi = fx_atan2(p.z, p.x);
    let uu = fx_add(fx_div(phi, FX_TWO_PI), 32768);
    let vv = fx_add(fx_div(theta, FX_PI), 32768);
    let noise = fx_abs(fx_mul(fx_sin(fx_mul(uu, 471859)), fx_cos(fx_mul(vv, 471859))));
    let base = if noise > 36044 {
        Color::new(34, 139, 34)
    } else {
        Color::new(0, 105, 148)
    };
    let d1 = vec3_norm(&Vec3Fx { x: fx_sub(uu, 32768), y: fx_sub(vv, 45875), z: 0 });
    let d2 = vec3_norm(&Vec3Fx { x: fx_sub(uu, 13107), y: fx_sub(vv, 19661), z: 0 });
    let tfx = (uniforms.time as i64) * 6554;
    let cloud_pattern = fx_abs(
        fx_mul(fx_sin(fx_add(fx_mul(uu, 524288), tfx)), fx_cos(fx_add(fx_mul(vv, 524288), tfx))),
    );
    let cloud_intensity = fx_mul(fx_clamp_to(fx_sub(cloud_pattern, 32768), 0, FX_ONE), 19661);
    let cloud_color = Color::new(255, 255, 255).scale(cloud_intensity);
    let dist_center = vec3_norm(&Vec3Fx { x: fx_clamp64(uu), y: fx_clamp64(vv), z: 0 });
    let planet_color = if d1 < 6554 || d2 < 6554 {
        Color::new(255, 255, 255)
    } else {
        base
    };
    let surface = if dist_center < 58983 {
        planet_color.scale(fx_sub(FX_ONE, cloud_intensity)).blend_add(&cloud_color)
    } else {
        planet_color
    };
    surface.scale(f.intensity)
}

/// The vibrant blue gas giant: two interfering animated sine patterns
/// drive the red and green channels over a deep blue, with a violet
/// ambient term added after the diffuse modulation.
pub open spec fn s_vibrant_blue_planet_shader(f: Fragment, time: u32) -> Color {
    let p = s_shading_point(f);
    let tfx = time * 3277;
    let p1 = s_abs(
        s_fx_mul(
            s_sin(s_fx_add(s_fx_mul(p.x as int, 196608), tfx)),
            s_cos(s_fx_add(s_fx_mul(p.y as int, 196608), tfx)),
        ),
    );
    let p2 = s_abs(
        s_fx_mul(
            s_cos(s_fx_sub(s_fx_mul(p.x as int, 98304), tfx)),
            s_sin(s_fx_add(s_fx_mul(p.y as int, 137626), tfx)),
        ),
    );
    let combined = s_clamp(s_fx_add(p1, s_tdiv(p2, 2)), 0, FX_ONE as int);
    let base = Color {
        r: crate::color::s_scale_channel(100, combined) as u8,
        g: crate::color::s_scale_channel(170, s_fx_sub(FX_ONE as int, combined)) as u8,
        b: 240u8,
    };
    s_color_add(
        s_color_scale(base, f.intensity as int),
        s_color_scale(Color { r: 200, g: 80, b: 198 }, 32768),
    )
}

/// The vibrant blue gas giant shader.
pub fn vibrant_blue_planet_shader(f: &Fragment, uniforms: &Uniforms) -> (c: Color)
    ensures
        c == s_vibrant_blue_planet_shader(*f, uniforms.time),
{
    let p = shading_point(f);
    let tfx = (uniforms.time as i64) * 3277;
    let p1 = fx_abs(
        fx_mul(fx_sin(fx_add(fx_mul(p.x, 196608), tfx)), fx_cos(fx_add(fx_mul(p.y, 196608), tfx))),
    );
    let p2 = fx_abs(
        fx_mul(fx_cos(fx_sub(fx_mul(p.x, 98304), tfx)), fx_sin(fx_add(fx_mul(p.y, 137626), tfx))),
    );
    let combined = fx_clamp_to(fx_add(p1, fx_tdiv_small(p2, 2)), 0, FX_ONE);
    let r = crate::color::scale_channel(100, combined);
    let g = crate::color::scale_channel(170, fx_sub(FX_ONE, combined));
    let base = Color::new(r, g, 240);
    let ambient = Color::new(200, 80, 198);
    base.scale(f.intensity).blend_add(&ambient.scale(32768))
}

/// The rocky planet: a hashed-sine speckle perturbs the coordinates, a
/// sine-product pattern blends earth tones, and a warm ambient is added.
pub open spec fn s_rocky_planet_shader(f: Fragment) -> Color {
    let p = s_shading_point(f);
    let a = s_fx_add(
        s_fx_add(s_fx_mul(p.x as int, 851300), s_fx_mul(p.y as int, 5127078)),
        s_fx_mul(p.z as int, 2471952),
    );
    let rnd = s_fx_mul(s_sin(a), 2867760025);
    let rf = rnd - s_tdiv(rnd, FX_ONE as int) * FX_ONE;
    let ax = s_fx_add(p.x as int, s_fx_mul(rf, 6554));
    let ay = s_fx_add(p.y as int, s_fx_mul(rf, 6554));
    let noise = s_abs(s_fx_mul(s_sin(s_fx_mul(ax, 655360)), s_cos(s_fx_mul(ay, 655360))));
    let surface = s_color_lerp(
        Color { r: 120, g: 85, b: 60 },
        Color { r: 200, g: 170, b: 140 },
        noise,
    );
    s_color_add(
        s_color_scale(surface, s_fx_mul(f.intensity as int, 39322)),
        s_color_scale(Color { r: 50, g: 30, b: 20 }, 52429),
    )
}

/// The rocky planet shader.
pub fn rocky_planet_shader(f: &Fragment, _uniforms: &Uniforms) -> (c: Color)
    ensures
        c == s_rocky_planet_shader(*f),
{
    let p = shading_point(f);
    let a = fx_add(fx_add(fx_mul(p.x, 851300), fx_mul(p.y, 5127078)), fx_mul(p.z, 2471952));
    let rnd = fx_mul(fx_sin(a), 2867760025);
    let rf = rnd - fx_tdiv_small(rnd, FX_ONE) * FX_ONE;
    let ax = fx_add(p.x, fx_mul(rf, 6554));
    let ay = fx_add(p.y, fx_mul(rf, 6554));
    let noise = fx_abs(fx_mul(fx_sin(fx_mul(ax, 655360)), fx_cos(fx_mul(ay, 655360))));
    let surface = Color::new(120, 85, 60).lerp(&Color::new(200, 170, 140), noise);
    let ambient = Color::new(50, 30, 20);
    surface.scale(fx_mul(f.intensity, 39322)).blend_add(&ambient.scale(52429))
}

/// The moon: three phase-shifted sine waves blend three pale grays.
pub open spec fn s_moon_shader(f: Fragment) -> Color {
    let p = s_shading_point(f);
    let w1 = s_tdiv(s_sin(s_fx_add(s_fx_mul(p.x as int, 4587520), s_fx_mul(p.y as int, 3276800))),
        2) + 32768;
    let w2 = s_tdiv(
        s_sin(s_fx_add(s_fx_sub(s_fx_mul(p.x as int, 3276800), s_fx_mul(p.y as int, 5242880)),
            68629)),
        2,
    ) + 32768;
    let w3 = s_tdiv(
        s_sin(s_fx_add(s_fx_add(s_fx_mul(p.x as int, 3932160), s_fx_mul(p.x as int, 2621440)),
            137258)),
        2,
    ) + 32768;
    let c1 = Color { r: 197, g: 199, b: 200 };
    let c2 = Color { r: 220, g: 221, b: 222 };
    let c3 = Color { r: 137, g: 149, b: 154 };
    s_color_scale(
        s_color_lerp(s_color_lerp(s_color_lerp(c1, c2, w1), c3, w2), c1, w3),
        f.intensity as int,
    )
}

/// The moon shader.
pub fn moon_shader(f: &Fragment, _uniforms: &Uniforms) -> (c: Color)
    ensures
        c == s_moon_shader(*f),
{
    let p = shading_point(f);
    let w1 = fx_tdiv_small(fx_sin(fx_add(fx_mul(p.x, 4587520), fx_mul(p.y, 3276800))), 2) + 32768;
    let w2 = fx_tdiv_small(
        fx_sin(fx_add(fx_sub(fx_mul(p.x, 3276800), fx_mul(p.y, 5242880)), 68629)),
        2,
    ) + 32768;
    let w3 = fx_tdiv_small(
        fx_sin(fx_add(fx_add(fx_mul(p.x, 3932160), fx_mul(p.x, 2621440)), 137258)),
        2,
    ) + 32768;
    let c1 = Color::new(197, 199, 200);
    let c2 = Color::new(220, 221, 222);
    let c3 = Color::new(137, 149, 154);
    c1.lerp(&c2, w1).lerp(&c3, w2).lerp(&c1, w3).scale(f.intensity)
}

/// The ring surface: spherical-coordinate crater noise picks one of two
/// golds, and a per-fragment diffuse term against the light direction
/// `(1, 1, 1) / sqrt(3)` blends the surface with a soft shadow color; the
/// blend is then modulated by the fragment's flat diffuse intensity.
pub open spec fn s_ring_shader(f: Fragment) -> Color {
    let p = s_shading_point(f);
    let longitude = s_atan2(p.z as int, p.x as int);
    let latitude = s_asin(p.y as int);
    let noise = s_abs(s_fx_mul(s_cos(s_fx_mul(longitude, 655360)), s_sin(s_fx_mul(latitude,
        655360))));
    let surface = if noise > 26214 {
        Color { r: 184, g: 177, b: 42 }
    } else {
        Color { r: 184, g: 162, b: 42 }
    };
    let n = s_vec3_normalize(p);
    let li = s_clamp(
        s_dot3(n.x as int, 37837, n.y as int, 37837, n.z as int, 37837),
        13107,
        FX_ONE as int,
    );
    s_color_scale(
        s_color_add(
            s_color_scale(surface, li),
            s_color_scale(Color { r: 50, g: 50, b: 50 }, s_fx_sub(FX_ONE as int, li)),
        ),
        f.intensity as int,
    )
}

/// The ring shader.
pub fn ring_shader(f: &Fragment, _uniforms: &Uniforms) -> (c: Color)
    ensures
        c == s_ring_shader(*f),
{
    let p = shading_point(f);
    let longitude = fx_atan2(p.z, p.x);
    let latitude = fx_asin(p.y);
    let noise = fx_abs(fx_mul(fx_cos(fx_mul(longitude, 655360)), fx_sin(fx_mul(latitude, 655360))));
    let surface = if noise > 26214 {
        Color::new(184, 177, 42)
    } else {
        Color::new(184, 162, 42)
    };
    let n = vec3_normalize(&p);
    let li = fx_clamp_to(dot3(n.x, 37837, n.y, 37837, n.z, 37837), 13107, FX_ONE);
    let shadow = Color::new(50, 50, 50);
    surface.scale(li).blend_add(&shadow.scale(fx_sub(FX_ONE, li))).scale(f.intensity)
}

/// The shader table, keyed by the object's id; unknown ids fall back to
/// the vibrant blue planet.
#[verifier::opaque]
pub open spec fn s_fragment_shader(f: Fragment, time: u32, id: u32) -> Color {
    if id == 1 {
        s_planet1(f, time)
    } else if id == 2 {
        s_moon_shader(f)
    } else if id == 3 {
        s_sun_shader(f)
    } else if id == 4 {
        s_earth_shader(f, time)
    } else if id == 5 {
        s_rocky_planet_shader(f)
    } else if id == 6 {
        s_ring_shader(f)
    } else {
        s_vibrant_blue_planet_shader(f, time)
    }
}

/// Select and run the fragment shader an object id asks for.
pub fn fragment_shader(f: &Fragment, uniforms: &Uniforms, id: u32) -> (c: Color)
    ensures
        c == s_fragment_shader(*f, uniforms.time, id),
{
    proof {
        reveal(s_fragment_shader);
    }
    if id == 1 {
        planet1(f, uniforms)
    } else if id == 2 {
        moon_shader(f, uniforms)
    } else if id == 3 {
        sun_shader(f, uniforms)
    } else if id == 4 {
        earth_shader(f, uniforms)
    } else if id == 5 {
        rocky_planet_shader(f, uniforms)
    } else if id == 6 {
        ring_shader(f, uniforms)
    } else {
        vibrant_blue_planet_shader(f, uniforms)
    }
}

} // verus!
