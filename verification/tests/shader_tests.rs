use softpipe::color::Color;
use softpipe::fixed::FX_ONE;
use softpipe::fragment::Fragment;
use softpipe::pipeline::Uniforms;
use softpipe::shaders::{
    earth_shader, fragment_shader, moon_shader, planet1, ring_shader, rocky_planet_shader,
    sun_shader, vibrant_blue_planet_shader,
};
use softpipe::vecmat::{Mat4Fx, Vec3Fx};

fn test_fragment() -> Fragment {
    Fragment {
        x: 3,
        y: 4,
        depth: 1000,
        vertex_position: Vec3Fx { x: 32768, y: 16384, z: 49152 },
        intensity: FX_ONE,
    }
}

fn test_uniforms(time: u32) -> Uniforms {
    Uniforms {
        model_matrix: Mat4Fx::identity(),
        view_matrix: Mat4Fx::identity(),
        projection_matrix: Mat4Fx::identity(),
        viewport_matrix: Mat4Fx::identity(),
        time,
    }
}

#[test]
fn planet1_expected_color() {
    let c = planet1(&test_fragment(), &test_uniforms(10));
    assert_eq!((c.r, c.g, c.b), (87, 119, 116));
}

#[test]
fn sun_expected_color() {
    let c = sun_shader(&test_fragment(), &test_uniforms(10));
    assert_eq!((c.r, c.g, c.b), (255, 194, 43));
}

#[test]
fn sun_center_is_white() {
    let mut f = test_fragment();
    f.vertex_position = Vec3Fx { x: 0, y: 0, z: 0 };
    let c = sun_shader(&f, &test_uniforms(0));
    assert_eq!((c.r, c.g, c.b), (255, 255, 255));
}

#[test]
fn earth_expected_color() {
    let c = earth_shader(&test_fragment(), &test_uniforms(10));
    assert_eq!((c.r, c.g, c.b), (0, 105, 148));
}

#[test]
fn vibrant_blue_expected_color() {
    let c = vibrant_blue_planet_shader(&test_fragment(), &test_uniforms(10));
    assert_eq!((c.r, c.g, c.b), (176, 79, 255));
}

#[test]
fn rocky_expected_color() {
    let c = rocky_planet_shader(&test_fragment(), &test_uniforms(10));
    assert_eq!((c.r, c.g, c.b), (148, 114, 88));
}

#[test]
fn moon_expected_color() {
    let c = moon_shader(&test_fragment(), &test_uniforms(10));
    assert_eq!((c.r, c.g, c.b), (196, 198, 199));
}

#[test]
fn ring_expected_color() {
    let c = ring_shader(&test_fragment(), &test_uniforms(10));
    assert_eq!((c.r, c.g, c.b), (173, 166, 41));
}

#[test]
fn shaders_are_deterministic() {
    let f = test_fragment();
    let u = test_uniforms(77);
    for id in 0..9u32 {
        let a = fragment_shader(&f, &u, id);
        let b = fragment_shader(&f, &u, id);
        assert_eq!(a, b);
    }
}

#[test]
fn dispatch_selects_by_id() {
    let f = test_fragment();
    let u = test_uniforms(10);
    assert_eq!(fragment_shader(&f, &u, 1), planet1(&f, &u));
    assert_eq!(fragment_shader(&f, &u, 2), moon_shader(&f, &u));
    assert_eq!(fragment_shader(&f, &u, 3), sun_shader(&f, &u));
    assert_eq!(fragment_shader(&f, &u, 4), earth_shader(&f, &u));
    assert_eq!(fragment_shader(&f, &u, 5), rocky_planet_shader(&f, &u));
    assert_eq!(fragment_shader(&f, &u, 6), ring_shader(&f, &u));
    assert_eq!(fragment_shader(&f, &u, 7), vibrant_blue_planet_shader(&f, &u));
    assert_eq!(fragment_shader(&f, &u, 42), vibrant_blue_planet_shader(&f, &u));
}

#[test]
fn intensity_modulates_every_shader() {
    // every shader applies the diffuse intensity as a multiplicative
    // modulation, so zero intensity gives black for the purely diffuse
    // shaders (the vibrant and rocky shaders keep their post-modulation
    // ambient terms and are checked separately)
    let mut dark = test_fragment();
    dark.intensity = 0;
    let u = test_uniforms(10);
    for shade in [planet1, sun_shader, earth_shader, moon_shader, ring_shader] {
        let c = shade(&dark, &u);
        assert_eq!((c.r, c.g, c.b), (0, 0, 0));
    }
    // rocky at zero intensity keeps exactly its warm ambient layer
    let r = rocky_planet_shader(&dark, &u);
    let ambient = Color::new(50, 30, 20).scale(52429);
    assert_eq!(r, ambient);
}

#[test]
fn intensity_modulates_diffuse_shaders() {
    let mut dark = test_fragment();
    dark.intensity = 0;
    let u = test_uniforms(10);
    // with zero intensity the diffuse term vanishes; only the ambient
    // contribution of the vibrant shader remains
    let c = vibrant_blue_planet_shader(&dark, &u);
    let ambient = Color::new(200, 80, 198).scale(32768);
    assert_eq!(c, ambient);
    let m = moon_shader(&dark, &u);
    assert_eq!((m.r, m.g, m.b), (0, 0, 0));
}
