use egui_glfw_mdi::scissor::{clip_to_scissor, ClipRect, Scissor};

fn rect(min_x: i64, min_y: i64, max_x: i64, max_y: i64) -> ClipRect {
    ClipRect { min_x, min_y, max_x, max_y }
}

fn inside(s: Scissor, width: u32, height: u32) -> bool {
    u64::from(s.x) + u64::from(s.w) <= u64::from(width)
        && u64::from(s.y) + u64::from(s.h) <= u64::from(height)
}

#[test]
fn clip_rect_over_the_corner_is_clamped_and_flipped() {
    let s = clip_to_scissor(rect(-50, -50, 100, 100), 800, 600);
    assert_eq!(s, Scissor { x: 0, y: 500, w: 100, h: 100 });
}

#[test]
fn clip_rect_inside_is_only_flipped() {
    let s = clip_to_scissor(rect(10, 20, 110, 70), 800, 600);
    assert_eq!(s, Scissor { x: 10, y: 530, w: 100, h: 50 });
}

#[test]
fn full_framebuffer_clip_rect() {
    let s = clip_to_scissor(rect(0, 0, 800, 600), 800, 600);
    assert_eq!(s, Scissor { x: 0, y: 0, w: 800, h: 600 });
}

#[test]
fn clip_rect_beyond_the_far_corner_is_cut() {
    let s = clip_to_scissor(rect(700, 500, 900, 700), 800, 600);
    assert_eq!(s, Scissor { x: 700, y: 0, w: 100, h: 100 });
}

#[test]
fn clip_rect_outside_is_empty() {
    let right = clip_to_scissor(rect(900, 10, 1000, 20), 800, 600);
    assert_eq!(right, Scissor { x: 800, y: 580, w: 0, h: 10 });
    let above = clip_to_scissor(rect(10, -30, 20, -10), 800, 600);
    assert_eq!(above, Scissor { x: 10, y: 600, w: 10, h: 0 });
    let below = clip_to_scissor(rect(10, 700, 20, 800), 800, 600);
    assert_eq!(below, Scissor { x: 10, y: 0, w: 10, h: 0 });
    let left = clip_to_scissor(rect(-20, 10, -10, 20), 800, 600);
    assert_eq!(left, Scissor { x: 0, y: 580, w: 0, h: 10 });
}

#[test]
fn inverted_clip_rect_is_empty() {
    let s = clip_to_scissor(rect(100, 100, 50, 50), 800, 600);
    assert_eq!(s, Scissor { x: 100, y: 500, w: 0, h: 0 });
}

#[test]
fn empty_framebuffer_gives_empty_scissor() {
    let s = clip_to_scissor(rect(-5, -5, 5, 5), 0, 0);
    assert_eq!(s, Scissor { x: 0, y: 0, w: 0, h: 0 });
}

#[test]
fn scissor_stays_inside_the_framebuffer() {
    let coords = [i64::MIN, -1_000_000, -1, 0, 1, 299, 300, 599, 600, 601, 799, 800, 801, i64::MAX];
    let sizes = [(0u32, 0u32), (1, 1), (800, 600), (600, 800), (u32::MAX, u32::MAX), (u32::MAX, 0)];
    for &(width, height) in sizes.iter() {
        for &a in coords.iter() {
            for &b in coords.iter() {
                let s = clip_to_scissor(rect(a, b, b, a), width, height);
                assert!(inside(s, width, height));
                let t = clip_to_scissor(rect(a, a, b, b), width, height);
                assert!(inside(t, width, height));
            }
        }
    }
}

#[test]
fn scissor_of_the_largest_framebuffer() {
    let s = clip_to_scissor(rect(i64::MIN, i64::MIN, i64::MAX, i64::MAX), u32::MAX, u32::MAX);
    assert_eq!(s, Scissor { x: 0, y: 0, w: u32::MAX, h: u32::MAX });
}
