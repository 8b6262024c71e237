use softpipe::color::Color;

#[test]
fn lerp_midpoint() {
    let c1 = Color::new(85, 117, 114);
    let c2 = Color::new(112, 147, 144);
    let mid = c1.lerp(&c2, 32768);
    assert_eq!((mid.r, mid.g, mid.b), (98, 132, 129));
}

#[test]
fn lerp_endpoints() {
    let c1 = Color::new(10, 20, 30);
    let c2 = Color::new(200, 100, 0);
    let a = c1.lerp(&c2, 0);
    assert_eq!((a.r, a.g, a.b), (10, 20, 30));
    let b = c1.lerp(&c2, 65536);
    assert_eq!((b.r, b.g, b.b), (200, 100, 0));
}

#[test]
fn lerp_clamps_out_of_range_weights() {
    let c1 = Color::new(10, 20, 30);
    let c2 = Color::new(200, 100, 0);
    // a weight of 2.0 would overshoot; channels clamp to their range
    let over = c1.lerp(&c2, 131072);
    assert_eq!((over.r, over.g, over.b), (255, 180, 0));
    let under = c1.lerp(&c2, -65536);
    assert_eq!((under.r, under.g, under.b), (0, 0, 60));
}

#[test]
fn scale_exact() {
    let c = Color::new(100, 200, 255);
    let half = c.scale(32768);
    assert_eq!((half.r, half.g, half.b), (50, 100, 127));
    let neg = c.scale(-100);
    assert_eq!((neg.r, neg.g, neg.b), (0, 0, 0));
    assert_eq!(Color::new(100, 0, 0).scale(40000).r, 61);
}

#[test]
fn additive_blend_saturates() {
    let a = Color::new(200, 10, 128);
    let b = Color::new(100, 10, 128);
    let s = a.blend_add(&b);
    assert_eq!((s.r, s.g, s.b), (255, 20, 255));
}

#[test]
fn repeated_additive_blending_stays_in_range() {
    // four layered colors each weighted near 1.0 saturate, never wrap
    let layer = Color::new(200, 200, 200).scale(65000);
    assert_eq!((layer.r, layer.g, layer.b), (198, 198, 198));
    let combined = layer.blend_add(&layer).blend_add(&layer).blend_add(&layer);
    assert_eq!((combined.r, combined.g, combined.b), (255, 255, 255));
}

#[test]
fn packs_to_hex() {
    assert_eq!(Color::new(255, 0, 0).to_hex(), 0xFF0000);
    assert_eq!(Color::new(0x12, 0x34, 0x56).to_hex(), 0x123456);
    assert_eq!(Color::new(0, 0, 0).to_hex(), 0);
}
