//! Screen wrap: an entity that has left the viewport altogether on one axis
//! comes back in at the opposite edge.
use vstd::prelude::*;
use crate::geometry::{Vec2, Vector, Viewport, POSITION_LIMIT, VIEW_LIMIT};

verus! {

/// How far inside the opposite edge a wrapped entity is put, so that it is
/// not wrapped straight back: a tenth of a pixel.
pub const WRAP_NUDGE: i32 = 400;

/// Largest distance that an entity may reach from its position.
pub const REACH_LIMIT: i32 = 0x1000_0000;

/// Where a coordinate goes: an entity at `position` covers the interval
/// from `position - reach_low` to `position + reach_high`, and the viewport
/// the interval from `low_edge` to `high_edge`.  An entity that lies wholly
/// below the low edge moves to the high edge, and one that lies wholly
/// above the high edge moves to the low edge; there it is outside but for
/// `WRAP_NUDGE`, by which it reaches in.  Otherwise it stays.
pub open spec fn wrapped_coordinate(
    position: int,
    reach_low: int,
    reach_high: int,
    low_edge: int,
    high_edge: int,
) -> int {
    if position + reach_high < low_edge {
        high_edge + reach_low - WRAP_NUDGE
    } else if position - reach_low > high_edge {
        low_edge - reach_high + WRAP_NUDGE
    } else {
        position
    }
}

/// Where a position goes: each axis is wrapped by itself, so both may wrap
/// at once.
pub open spec fn wrapped_position(
    camera: Viewport,
    position: Vector,
    reach_low: Vector,
    reach_high: Vector,
) -> Vector {
    Vector {
        x: wrapped_coordinate(
            position.x,
            reach_low.x,
            reach_high.x,
            camera.left as int,
            camera.right as int,
        ),
        y: wrapped_coordinate(
            position.y,
            reach_low.y,
            reach_high.y,
            camera.bottom as int,
            camera.top as int,
        ),
    }
}

/// Wraps one coordinate.
pub fn wrap_coordinate(
    position: i32,
    reach_low: i32,
    reach_high: i32,
    low_edge: i32,
    high_edge: i32,
) -> (wrapped: i32)
    requires
        0 <= reach_low <= REACH_LIMIT,
        0 <= reach_high <= REACH_LIMIT,
        -VIEW_LIMIT <= low_edge <= VIEW_LIMIT,
        -VIEW_LIMIT <= high_edge <= VIEW_LIMIT,
    ensures
        wrapped == wrapped_coordinate(
            position as int,
            reach_low as int,
            reach_high as int,
            low_edge as int,
            high_edge as int,
        ),
        -POSITION_LIMIT <= position <= POSITION_LIMIT ==> -POSITION_LIMIT <= wrapped
            <= POSITION_LIMIT,
{
    if (position as i64) + (reach_high as i64) < low_edge as i64 {
        high_edge + reach_low - WRAP_NUDGE
    } else if (position as i64) - (reach_low as i64) > high_edge as i64 {
        low_edge - reach_high + WRAP_NUDGE
    } else {
        position
    }
}

/// Wraps a position on both axes.
pub fn wrap_position(camera: &Viewport, position: Vec2, reach_low: Vec2, reach_high: Vec2) -> (wrapped:
    Vec2)
    requires
        camera.wf(),
        0 <= reach_low.x <= REACH_LIMIT,
        0 <= reach_low.y <= REACH_LIMIT,
        0 <= reach_high.x <= REACH_LIMIT,
        0 <= reach_high.y <= REACH_LIMIT,
    ensures
        wrapped@ == wrapped_position(*camera, position@, reach_low@, reach_high@),
        position.in_field() ==> wrapped.in_field(),
{
    Vec2 {
        x: wrap_coordinate(position.x, reach_low.x, reach_high.x, camera.left, camera.right),
        y: wrap_coordinate(position.y, reach_low.y, reach_high.y, camera.bottom, camera.top),
    }
}

/// An entity of which some part is in the viewport's range on each axis is
/// not moved; so an entity that lies wholly within the viewport never is.
pub proof fn lemma_visible_stays(
    camera: Viewport,
    position: Vector,
    reach_low: Vector,
    reach_high: Vector,
)
    requires
        position.x + reach_high.x >= camera.left,
        position.x - reach_low.x <= camera.right,
        position.y + reach_high.y >= camera.bottom,
        position.y - reach_low.y <= camera.top,
    ensures
        wrapped_position(camera, position, reach_low, reach_high) == position,
{
}

/// An entity that was moved by the wrap lay wholly outside the viewport on
/// the axis on which it moved.
pub proof fn lemma_moved_was_outside(
    position: int,
    reach_low: int,
    reach_high: int,
    low_edge: int,
    high_edge: int,
)
    requires
        wrapped_coordinate(position, reach_low, reach_high, low_edge, high_edge) != position,
    ensures
        position + reach_high < low_edge || position - reach_low > high_edge,
{
}

} // verus!
