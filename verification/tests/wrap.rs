use gifteroids::geometry::{Vec2, Viewport};
use gifteroids::wrap::{wrap_coordinate, wrap_position, WRAP_NUDGE};

fn camera() -> Viewport {
    // 1280 by 720 pixels around the middle of the field.
    Viewport { left: -2_560_000, right: 2_560_000, top: 1_440_000, bottom: -1_440_000 }
}

#[test]
fn nudge_is_a_tenth_of_a_pixel() {
    assert_eq!(WRAP_NUDGE, 400);
    assert_eq!(WRAP_NUDGE * 10, gifteroids::geometry::UNITS_PER_PIXEL);
}

#[test]
fn coordinate_inside_stays() {
    assert_eq!(wrap_coordinate(0, 100, 100, -1000, 1000), 0);
    assert_eq!(wrap_coordinate(999, 100, 100, -1000, 1000), 999);
    assert_eq!(wrap_coordinate(-1000, 0, 0, -1000, 1000), -1000);
}

#[test]
fn coordinate_that_overlaps_an_edge_stays() {
    // Reaches from 1000 to 1200: touches the high edge.
    assert_eq!(wrap_coordinate(1100, 100, 100, -1000, 1000), 1100);
    // Reaches from -1200 to -1000: touches the low edge.
    assert_eq!(wrap_coordinate(-1100, 100, 100, -1000, 1000), -1100);
}

#[test]
fn coordinate_wholly_above_wraps_to_the_low_edge() {
    // Reaches from 1001 to 1201.
    assert_eq!(wrap_coordinate(1101, 100, 100, -1000, 1000), -1000 - 100 + 400);
    assert_eq!(wrap_coordinate(1101, 100, 30, -1000, 1000), -1000 - 30 + 400);
}

#[test]
fn coordinate_wholly_below_wraps_to_the_high_edge() {
    assert_eq!(wrap_coordinate(-1101, 100, 100, -1000, 1000), 1000 + 100 - 400);
    assert_eq!(wrap_coordinate(-1101, 70, 100, -1000, 1000), 1000 + 70 - 400);
}

#[test]
fn wrapped_coordinate_is_not_wrapped_again() {
    let once = wrap_coordinate(1_600_000, 32_000, 32_000, -1_440_000, 1_440_000);
    assert_eq!(once, -1_440_000 - 32_000 + 400);
    assert_eq!(wrap_coordinate(once, 32_000, 32_000, -1_440_000, 1_440_000), once);
}

#[test]
fn position_inside_the_viewport_stays() {
    let reach = Vec2 { x: 184_000, y: 256_000 };
    for position in [
        Vec2 { x: 0, y: 0 },
        Vec2 { x: 2_376_000, y: 1_184_000 },
        Vec2 { x: -2_376_000, y: -1_184_000 },
        Vec2 { x: 2_743_999, y: -1_695_999 },
    ] {
        assert_eq!(wrap_position(&camera(), position, reach, reach), position);
    }
}

#[test]
fn position_wraps_on_one_axis() {
    let reach = Vec2 { x: 184_000, y: 256_000 };
    let right_of = Vec2 { x: 2_560_000 + 184_001, y: 5 };
    assert_eq!(
        wrap_position(&camera(), right_of, reach, reach),
        Vec2 { x: -2_560_000 - 184_000 + 400, y: 5 }
    );
    let below = Vec2 { x: 5, y: -1_440_000 - 256_001 };
    assert_eq!(
        wrap_position(&camera(), below, reach, reach),
        Vec2 { x: 5, y: 1_440_000 + 256_000 - 400 }
    );
}

#[test]
fn position_wraps_on_both_axes_at_once() {
    let reach = Vec2 { x: 10, y: 20 };
    let corner = Vec2 { x: -2_560_011, y: 1_440_021 };
    assert_eq!(
        wrap_position(&camera(), corner, reach, reach),
        Vec2 { x: 2_560_000 + 10 - 400, y: -1_440_000 - 20 + 400 }
    );
}

#[test]
fn position_far_outside_the_field_wraps_without_overflow() {
    let reach = Vec2 { x: 0x1000_0000, y: 0x1000_0000 };
    let far = Vec2 { x: i32::MAX, y: i32::MIN };
    assert_eq!(
        wrap_position(&camera(), far, reach, reach),
        Vec2 { x: -2_560_000 - 0x1000_0000 + 400, y: 1_440_000 + 0x1000_0000 - 400 }
    );
}
