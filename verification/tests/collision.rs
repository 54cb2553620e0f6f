use gifteroids::collision::{line_line_test, point_in_obb};
use gifteroids::geometry::{OrientedBox, Vec2};

fn v(x: i32, y: i32) -> Vec2 {
    Vec2 { x, y }
}

fn gift_box() -> OrientedBox {
    OrientedBox { axis0: v(184_000, 0), axis1: v(0, 256_000) }
}

#[test]
fn center_of_a_box_is_inside() {
    let obb = gift_box();
    assert!(point_in_obb(&obb, v(0, 0), v(0, 0)));
    assert!(point_in_obb(&obb, v(-77_000, 1_234_567), v(-77_000, 1_234_567)));
    let turned = OrientedBox { axis0: v(3000, 4000), axis1: v(-8000, 6000) };
    assert!(point_in_obb(&turned, v(5, -9), v(5, -9)));
}

#[test]
fn center_of_a_box_without_length_is_outside() {
    let flat = OrientedBox { axis0: v(0, 0), axis1: v(0, 256_000) };
    assert!(!point_in_obb(&flat, v(0, 0), v(0, 0)));
    let line = OrientedBox { axis0: v(184_000, 0), axis1: v(0, 0) };
    assert!(!point_in_obb(&line, v(10, 10), v(10, 10)));
}

#[test]
fn point_on_the_edge_is_outside() {
    let obb = gift_box();
    assert!(!point_in_obb(&obb, v(0, 0), v(184_000, 0)));
    assert!(!point_in_obb(&obb, v(0, 0), v(-184_000, 0)));
    assert!(!point_in_obb(&obb, v(0, 0), v(0, 256_000)));
    assert!(!point_in_obb(&obb, v(0, 0), v(0, -256_000)));
    assert!(!point_in_obb(&obb, v(0, 0), v(184_000, 256_000)));
}

#[test]
fn point_just_inside_the_edge_is_inside() {
    let obb = gift_box();
    assert!(point_in_obb(&obb, v(0, 0), v(183_999, 0)));
    assert!(point_in_obb(&obb, v(0, 0), v(-183_999, 255_999)));
    assert!(!point_in_obb(&obb, v(0, 0), v(184_001, 0)));
}

#[test]
fn point_against_a_turned_box() {
    // Half-axes (3, 4) and (-8, 6): lengths 5 and 10, at a right angle.
    let obb = OrientedBox { axis0: v(3, 4), axis1: v(-8, 6) };
    let center = v(100, 100);
    assert!(point_in_obb(&obb, center, v(102, 103)));
    // One full first axis away: on the edge.
    assert!(!point_in_obb(&obb, center, v(103, 104)));
    assert!(!point_in_obb(&obb, center, v(97, 96)));
    // One full second axis away: on the edge.
    assert!(!point_in_obb(&obb, center, v(92, 106)));
    assert!(point_in_obb(&obb, center, v(93, 105)));
    // Inside the bounding square but outside the turned box.
    assert!(!point_in_obb(&obb, center, v(110, 109)));
}

#[test]
fn point_test_takes_the_box_center_second() {
    let obb = gift_box();
    assert!(point_in_obb(&obb, v(1_000_000, 0), v(1_100_000, 0)));
    assert!(!point_in_obb(&obb, v(1_000_000, 0), v(0, 0)));
}

#[test]
fn point_test_at_the_ends_of_the_grid() {
    let obb = OrientedBox { axis0: v(i32::MAX, 0), axis1: v(0, i32::MIN) };
    assert!(point_in_obb(&obb, v(0, 0), v(0, 0)));
    assert!(!point_in_obb(&obb, v(i32::MIN, i32::MIN), v(i32::MAX, i32::MAX)));
    // The point one full first axis from the center is on the edge.
    assert!(!point_in_obb(&obb, v(i32::MIN, 0), v(-1, 0)));
    assert!(point_in_obb(&obb, v(i32::MIN, 0), v(-2, 0)));
}

#[test]
fn crossing_segments_cross() {
    assert!(line_line_test(v(0, 0), v(10, 0), v(5, -5), v(5, 5)));
}

#[test]
fn segments_apart_do_not_cross() {
    assert!(!line_line_test(v(0, 0), v(10, 0), v(20, -5), v(20, 5)));
}

#[test]
fn reversing_a_segment_keeps_the_verdict() {
    let cases = [
        (v(0, 0), v(10, 0), v(5, -5), v(5, 5)),
        (v(0, 0), v(10, 0), v(20, -5), v(20, 5)),
        (v(0, 0), v(10, 0), v(0, 1), v(10, 1)),
        (v(0, 0), v(10, 0), v(20, 0), v(30, 0)),
        (v(-3, 7), v(12, -4), v(1, 1), v(9, 30)),
        (v(0, 0), v(10, 10), v(10, 0), v(6, 4)),
    ];
    for (a, b, c, d) in cases {
        let verdict = line_line_test(a, b, c, d);
        assert_eq!(line_line_test(b, a, c, d), verdict);
        assert_eq!(line_line_test(a, b, d, c), verdict);
        assert_eq!(line_line_test(b, a, d, c), verdict);
        assert_eq!(line_line_test(c, d, a, b), verdict);
    }
}

#[test]
fn parallel_segments_apart_do_not_cross() {
    assert!(!line_line_test(v(0, 0), v(10, 0), v(0, 1), v(10, 1)));
    assert!(!line_line_test(v(0, 0), v(10, 10), v(1, 0), v(11, 10)));
}

#[test]
fn segments_on_one_line_count_as_crossing() {
    // Overlapping.
    assert!(line_line_test(v(0, 0), v(10, 0), v(5, 0), v(15, 0)));
    // Apart on the same line: still counted.
    assert!(line_line_test(v(0, 0), v(10, 0), v(20, 0), v(30, 0)));
}

#[test]
fn segments_that_touch_at_an_end_cross() {
    assert!(line_line_test(v(0, 0), v(10, 0), v(10, 0), v(10, 5)));
    assert!(line_line_test(v(0, 0), v(10, 0), v(5, 0), v(5, 5)));
    assert!(!line_line_test(v(0, 0), v(10, 0), v(11, 0), v(11, 5)));
    assert!(!line_line_test(v(0, 0), v(10, 0), v(5, 1), v(5, 5)));
}

#[test]
fn segment_test_at_the_ends_of_the_grid() {
    let lo = i32::MIN;
    let hi = i32::MAX;
    assert!(line_line_test(v(lo, lo), v(hi, hi), v(lo, hi), v(hi, lo)));
    assert!(!line_line_test(v(lo, lo), v(hi, lo), v(lo, hi), v(hi, hi)));
    assert!(line_line_test(v(lo, 0), v(hi, 0), v(0, lo), v(0, hi)));
}
