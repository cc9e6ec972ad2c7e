use butter_biscuit::collision::{point_in_rect, rect_rect};
use butter_biscuit::vectors::Vec2;

#[test]
fn point_on_the_border_is_inside() {
    let size = Vec2::new(10_000, 20_000);
    let pos = Vec2::new(5_000, 5_000);
    assert!(point_in_rect(size, pos, Vec2::new(5_000, 5_000)));
    assert!(point_in_rect(size, pos, Vec2::new(15_000, 25_000)));
    assert!(!point_in_rect(size, pos, Vec2::new(15_001, 25_000)));
    assert!(!point_in_rect(size, pos, Vec2::new(4_999, 10_000)));
    assert!(!point_in_rect(size, pos, Vec2::new(10_000, 25_001)));
    assert!(!point_in_rect(size, pos, Vec2::new(10_000, 4_999)));
}

#[test]
fn touching_rectangles_overlap() {
    let a = Vec2::new(10_000, 10_000);
    assert!(rect_rect(a, Vec2::new(0, 0), a, Vec2::new(10_000, 10_000)));
    assert!(!rect_rect(a, Vec2::new(0, 0), a, Vec2::new(10_001, 0)));
    assert!(!rect_rect(a, Vec2::new(0, 0), a, Vec2::new(0, 10_001)));
    assert!(rect_rect(a, Vec2::new(5_000, 5_000), a, Vec2::new(0, 0)));
}
