use softpipe::framebuffer::{Framebuffer, DEPTH_FAR};

#[test]
fn new_buffer_is_black_and_far() {
    let fb = Framebuffer::new(4, 3);
    assert_eq!(fb.width, 4);
    assert_eq!(fb.height, 3);
    assert_eq!(fb.buffer.len(), 12);
    assert_eq!(fb.depth_buffer.len(), 12);
    for i in 0..12 {
        assert_eq!(fb.buffer[i], 0);
        assert_eq!(fb.depth_buffer[i], DEPTH_FAR);
    }
}

#[test]
fn clear_fills_with_background() {
    let mut fb = Framebuffer::new(4, 3);
    fb.set_background_color(0x333355);
    fb.set_current_color(0xFF0000);
    fb.point(1, 1, 100);
    fb.clear();
    for i in 0..12 {
        assert_eq!(fb.buffer[i], 0x333355);
        assert_eq!(fb.depth_buffer[i], DEPTH_FAR);
    }
    assert_eq!(fb.current_color, 0xFF0000);
}

#[test]
fn depth_test_scenario() {
    // clear a 4x3 buffer with background (0, 0, 0); a write at depth 0.5
    // (32768 fixed) lands; a second write at 0.9 (58982) is farther and
    // leaves the pixel unchanged
    let mut fb = Framebuffer::new(4, 3);
    fb.set_background_color(0);
    fb.clear();
    fb.set_current_color(0xFF0000);
    fb.point(2, 1, 32768);
    assert_eq!(fb.buffer[1 * 4 + 2], 0xFF0000);
    assert_eq!(fb.depth_buffer[1 * 4 + 2], 32768);
    fb.set_current_color(0x00FF00);
    fb.point(2, 1, 58982);
    assert_eq!(fb.buffer[1 * 4 + 2], 0xFF0000);
    assert_eq!(fb.depth_buffer[1 * 4 + 2], 32768);
}

#[test]
fn same_depth_write_twice_is_noop() {
    // the depth test is strict, so repeating a write changes nothing
    let mut fb = Framebuffer::new(4, 3);
    fb.set_current_color(0x0000FF);
    fb.point(3, 2, 1000);
    let buffer_after_first: Vec<u32> = fb.buffer.clone();
    let depths_after_first: Vec<i64> = fb.depth_buffer.clone();
    fb.point(3, 2, 1000);
    assert_eq!(fb.buffer, buffer_after_first);
    assert_eq!(fb.depth_buffer, depths_after_first);
}

#[test]
fn nearer_write_wins() {
    let mut fb = Framebuffer::new(2, 2);
    fb.set_current_color(0x111111);
    fb.point(0, 0, 500);
    fb.set_current_color(0x222222);
    fb.point(0, 0, 400);
    assert_eq!(fb.pixel(0, 0), 0x222222);
    assert_eq!(fb.depth_at(0, 0), 400);
    // other pixels untouched
    assert_eq!(fb.pixel(1, 1), 0);
    assert_eq!(fb.depth_at(1, 1), DEPTH_FAR);
}
