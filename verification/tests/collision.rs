use level_editor::collision::{bounds_in_bounds, point_in_bounds, point_in_rect, rect_in_rect};
use level_editor::scalar::{Scalar, Vec2};

fn v(x: f32, y: f32) -> Vec2 {
    Vec2::new(Scalar::from_bits(x.to_bits()), Scalar::from_bits(y.to_bits()))
}

#[test]
fn point_inside_and_on_the_edges() {
    assert!(point_in_rect(v(5.0, 5.0), v(0.0, 0.0), v(10.0, 10.0)));
    assert!(point_in_rect(v(0.0, 0.0), v(0.0, 0.0), v(10.0, 10.0)));
    assert!(point_in_rect(v(10.0, 10.0), v(0.0, 0.0), v(10.0, 10.0)));
    assert!(point_in_rect(v(10.0, 0.0), v(0.0, 0.0), v(10.0, 10.0)));
    assert!(point_in_rect(v(-3.0, -3.0), v(-5.0, -5.0), v(2.0, 2.0)));
}

#[test]
fn point_outside() {
    assert!(!point_in_rect(v(10.5, 5.0), v(0.0, 0.0), v(10.0, 10.0)));
    assert!(!point_in_rect(v(5.0, -0.5), v(0.0, 0.0), v(10.0, 10.0)));
    assert!(!point_in_rect(v(-1.0, 5.0), v(0.0, 0.0), v(10.0, 10.0)));
    assert!(!point_in_rect(v(5.0, 11.0), v(0.0, 0.0), v(10.0, 10.0)));
    assert!(!point_in_rect(v(f32::NAN, 5.0), v(0.0, 0.0), v(10.0, 10.0)));
}

#[test]
fn rectangles_that_overlap() {
    assert!(rect_in_rect(v(0.0, 0.0), v(10.0, 10.0), v(5.0, 5.0), v(10.0, 10.0)));
    assert!(rect_in_rect(v(5.0, 5.0), v(10.0, 10.0), v(0.0, 0.0), v(10.0, 10.0)));
    assert!(rect_in_rect(v(0.0, 0.0), v(10.0, 10.0), v(2.0, 2.0), v(1.0, 1.0)));
}

#[test]
fn rectangles_that_touch_overlap() {
    assert!(rect_in_rect(v(0.0, 0.0), v(10.0, 10.0), v(10.0, 0.0), v(5.0, 5.0)));
    assert!(rect_in_rect(v(0.0, 0.0), v(10.0, 10.0), v(10.0, 10.0), v(5.0, 5.0)));
    assert!(rect_in_rect(v(0.0, 0.0), v(10.0, 10.0), v(0.0, -5.0), v(5.0, 5.0)));
}

#[test]
fn rectangles_apart() {
    assert!(!rect_in_rect(v(0.0, 0.0), v(10.0, 10.0), v(10.5, 0.0), v(5.0, 5.0)));
    assert!(!rect_in_rect(v(0.0, 0.0), v(10.0, 10.0), v(0.0, 20.0), v(5.0, 5.0)));
    assert!(!rect_in_rect(v(20.0, 20.0), v(10.0, 10.0), v(5.0, 5.0), v(10.0, 10.0)));
    assert!(!rect_in_rect(v(0.0, 0.0), v(10.0, 10.0), v(-6.0, 0.0), v(5.0, 5.0)));
}

#[test]
fn point_between_two_corners() {
    assert!(point_in_bounds(v(5.0, 5.0), v(0.0, 0.0), v(10.0, 10.0)));
    assert!(point_in_bounds(v(0.0, 10.0), v(0.0, 0.0), v(10.0, 10.0)));
    assert!(point_in_bounds(v(-0.0, 0.0), v(0.0, -0.0), v(10.0, 10.0)));
    assert!(!point_in_bounds(v(5.0, 10.5), v(0.0, 0.0), v(10.0, 10.0)));
    assert!(!point_in_bounds(v(5.0, 5.0), v(10.0, 10.0), v(0.0, 0.0)));
}

#[test]
fn rectangles_by_their_corners() {
    assert!(bounds_in_bounds(v(0.0, 0.0), v(10.0, 10.0), v(5.0, 5.0), v(15.0, 15.0)));
    assert!(bounds_in_bounds(v(5.0, 5.0), v(15.0, 15.0), v(0.0, 0.0), v(10.0, 10.0)));
    assert!(bounds_in_bounds(v(0.0, 0.0), v(10.0, 10.0), v(10.0, 10.0), v(15.0, 15.0)));
    assert!(!bounds_in_bounds(v(20.0, 20.0), v(30.0, 30.0), v(5.0, 5.0), v(15.0, 15.0)));
    assert!(!bounds_in_bounds(v(0.0, 0.0), v(10.0, 10.0), v(0.0, 11.0), v(10.0, 15.0)));
    assert!(!bounds_in_bounds(v(0.0, 0.0), v(f32::NAN, 10.0), v(5.0, 5.0), v(15.0, 15.0)));
}
