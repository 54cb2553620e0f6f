//! Fixed-point plane geometry of the playing field.
//!
//! All coordinates are whole numbers of *units*; one pixel of the playing
//! field is `UNITS_PER_PIXEL` units.  Headings are carried as vectors of
//! length `DIRECTION_UNIT`, so a length of `n` quarter pixels along a heading
//! `d` is the displacement `d * n`, with no rounding anywhere.
use vstd::prelude::*;

verus! {

/// Units of the coordinate grid per pixel.
pub const UNITS_PER_PIXEL: i32 = 4000;

/// Length of a heading vector.
pub const DIRECTION_UNIT: i32 = 1000;

/// How far the squared length of a heading vector may be from
/// `DIRECTION_UNIT` squared; wide enough for a unit vector whose components
/// were rounded to the nearest thousandth.
pub const DIRECTION_SLACK: i32 = 1500;

/// Largest absolute coordinate of an entity's position.
pub const POSITION_LIMIT: i32 = 0x2000_0000;

/// Largest absolute coordinate of a half-axis of a box.
pub const EXTENT_LIMIT: i32 = 0x0800_0000;

/// Largest absolute coordinate of a viewport edge.
pub const VIEW_LIMIT: i32 = 0x1000_0000;

/// A vector of the plane with unbounded integer coordinates: the
/// mathematical value that a `Vec2` or a `Direction` stands for.
pub struct Vector {
    pub x: int,
    pub y: int,
}

impl Vector {
    pub open spec fn plus(self, other: Vector) -> Vector {
        Vector { x: self.x + other.x, y: self.y + other.y }
    }

    pub open spec fn minus(self, other: Vector) -> Vector {
        Vector { x: self.x - other.x, y: self.y - other.y }
    }

    pub open spec fn times(self, factor: int) -> Vector {
        Vector { x: self.x * factor, y: self.y * factor }
    }

    pub open spec fn dot(self, other: Vector) -> int {
        self.x * other.x + self.y * other.y
    }

    /// The z component of the cross product of the two vectors.
    pub open spec fn cross(self, other: Vector) -> int {
        self.x * other.y - self.y * other.x
    }

    pub open spec fn length_squared(self) -> int {
        self.dot(self)
    }

    /// The vector turned a quarter turn counter-clockwise.
    pub open spec fn turned_left(self) -> Vector {
        Vector { x: -self.y, y: self.x }
    }

    /// The vector turned a quarter turn clockwise.
    pub open spec fn turned_right(self) -> Vector {
        Vector { x: self.y, y: -self.x }
    }

    /// The componentwise absolute value.
    pub open spec fn abs(self) -> Vector {
        Vector {
            x: if self.x < 0 { -self.x } else { self.x },
            y: if self.y < 0 { -self.y } else { self.y },
        }
    }

    /// Both coordinates lie within `limit` of zero.
    pub open spec fn within(self, limit: int) -> bool {
        -limit <= self.x <= limit && -limit <= self.y <= limit
    }
}

/// A point or displacement on the coordinate grid.
#[derive(Clone, Copy, Debug, PartialEq, Eq, Structural)]
pub struct Vec2 {
    pub x: i32,
    pub y: i32,
}

impl View for Vec2 {
    type V = Vector;

    open spec fn view(&self) -> Vector {
        Vector { x: self.x as int, y: self.y as int }
    }
}

impl Vec2 {
    /// A position that entities may take.
    pub open spec fn in_field(self) -> bool {
        self@.within(POSITION_LIMIT as int)
    }

    pub fn new(x: i32, y: i32) -> (v: Vec2)
        ensures
            v.x == x,
            v.y == y,
    {
        Vec2 { x, y }
    }

    pub fn is_in_field(&self) -> (inside: bool)
        ensures
            inside == self.in_field(),
    {
        -POSITION_LIMIT <= self.x && self.x <= POSITION_LIMIT && -POSITION_LIMIT <= self.y
            && self.y <= POSITION_LIMIT
    }
}

/// The velocity of an entity, in units per second.
#[derive(Clone, Copy, Debug, PartialEq, Eq, Structural)]
pub struct MovementSpeed(pub Vec2);

/// A heading, as a vector of length `DIRECTION_UNIT` up to rounding.
#[derive(Clone, Copy, Debug, PartialEq, Eq, Structural)]
pub struct Direction {
    pub x: i32,
    pub y: i32,
}

impl View for Direction {
    type V = Vector;

    open spec fn view(&self) -> Vector {
        Vector { x: self.x as int, y: self.y as int }
    }
}

/// Whether `(x, y)` is a heading vector: no component longer than
/// `DIRECTION_UNIT`, and the squared length within `DIRECTION_SLACK` of
/// `DIRECTION_UNIT` squared.
pub open spec fn is_heading(x: int, y: int) -> bool {
    &&& -DIRECTION_UNIT <= x <= DIRECTION_UNIT
    &&& -DIRECTION_UNIT <= y <= DIRECTION_UNIT
    &&& -DIRECTION_SLACK <= x * x + y * y - DIRECTION_UNIT * DIRECTION_UNIT <= DIRECTION_SLACK
}

impl Direction {
    pub open spec fn wf(self) -> bool {
        is_heading(self.x as int, self.y as int)
    }

    /// The heading with the given components, if they form one.
    pub fn new(x: i32, y: i32) -> (d: Option<Direction>)
        ensures
            d.is_some() == is_heading(x as int, y as int),
            d matches Some(dir) ==> dir.x == x && dir.y == y,
    {
        if x < -DIRECTION_UNIT || x > DIRECTION_UNIT || y < -DIRECTION_UNIT || y > DIRECTION_UNIT {
            return None;
        }
        assert(0 <= x * x <= 1_000_000) by (nonlinear_arith)
            requires
                -1000 <= x <= 1000,
        ;
        assert(0 <= y * y <= 1_000_000) by (nonlinear_arith)
            requires
                -1000 <= y <= 1000,
        ;
        let excess: i32 = x * x + y * y - DIRECTION_UNIT * DIRECTION_UNIT;
        if -DIRECTION_SLACK <= excess && excess <= DIRECTION_SLACK {
            Some(Direction { x, y })
        } else {
            None
        }
    }

    pub fn is_wf(&self) -> (ok: bool)
        ensures
            ok == self.wf(),
    {
        Direction::new(self.x, self.y).is_some()
    }

    /// The heading of an entity that was never turned: straight up.
    pub fn up() -> (d: Direction)
        ensures
            d.wf(),
            d.x == 0,
            d.y == DIRECTION_UNIT,
    {
        Direction { x: 0, y: DIRECTION_UNIT }
    }

    /// The heading a quarter turn clockwise of this one: the right-hand
    /// side of an entity that faces along `self`.
    pub fn right(&self) -> (d: Direction)
        requires
            self.wf(),
        ensures
            d.wf(),
            d@ == self@.turned_right(),
    {
        assert((-self.x) * (-self.x) == self.x * self.x) by (nonlinear_arith);
        Direction { x: self.y, y: -self.x }
    }

    /// The displacement of `length` quarter pixels along this heading.
    pub fn scaled(&self, length: i32) -> (v: Vec2)
        requires
            self.wf(),
            0 <= length <= EXTENT_LIMIT / DIRECTION_UNIT,
        ensures
            v@ == self@.times(length as int),
            v@.within(length * DIRECTION_UNIT),
    {
        proof {
            lemma_product_bound(self.x as int, length as int, DIRECTION_UNIT as int);
            lemma_product_bound(self.y as int, length as int, DIRECTION_UNIT as int);
        }
        Vec2 { x: self.x * length, y: self.y * length }
    }
}

pub open spec fn abs_of(value: int) -> int {
    if value < 0 {
        -value
    } else {
        value
    }
}

/// A product and the product with the absolute value of one factor differ
/// at most in sign.
pub proof fn lemma_product_sign(a: int, b: int)
    by (nonlinear_arith)
    ensures
        a * b == a * abs_of(b) || a * b == -(a * abs_of(b)),
{
}

/// A product of a bounded factor and a non-negative one is bounded.
pub proof fn lemma_product_bound(a: int, n: int, bound: int)
    by (nonlinear_arith)
    requires
        -bound <= a <= bound,
        0 <= n,
    ensures
        -(n * bound) <= a * n <= n * bound,
{
}

/// A rectangle given by two half-axes from its center.  The axes are at a
/// right angle to each other but need not be parallel to the coordinate
/// axes; they are fixed when the box is made, and only its center moves.
#[derive(Clone, Copy, Debug, PartialEq, Eq, Structural)]
pub struct OrientedBox {
    pub axis0: Vec2,
    pub axis1: Vec2,
}

impl OrientedBox {
    pub open spec fn wf(self) -> bool {
        &&& self.axis0@.within(EXTENT_LIMIT as int)
        &&& self.axis1@.within(EXTENT_LIMIT as int)
        &&& self.axis0@.dot(self.axis1@) == 0
    }

    /// Whether `point` lies strictly inside the box centered at `center`:
    /// the vector from the point to the center, projected on each half-axis
    /// without normalizing it, stays strictly below the squared length of
    /// that axis.
    pub open spec fn contains(self, center: Vector, point: Vector) -> bool {
        let to_center = center.minus(point);
        let dot0 = self.axis0@.dot(to_center);
        let dot1 = self.axis1@.dot(to_center);
        &&& -self.axis0@.length_squared() < dot0 < self.axis0@.length_squared()
        &&& -self.axis1@.length_squared() < dot1 < self.axis1@.length_squared()
    }

    /// How far the box reaches from its center along each coordinate axis.
    pub open spec fn reach(self) -> Vector {
        self.axis0@.abs().plus(self.axis1@.abs())
    }

    /// The four corners of the box centered at `center`, counter-clockwise
    /// from `center + axis0 + axis1`.
    pub open spec fn corners(self, center: Vector) -> (Vector, Vector, Vector, Vector) {
        (
            center.plus(self.axis0@).plus(self.axis1@),
            center.minus(self.axis0@).plus(self.axis1@),
            center.minus(self.axis0@).minus(self.axis1@),
            center.plus(self.axis0@).minus(self.axis1@),
        )
    }

    pub fn is_wf(&self) -> (ok: bool)
        ensures
            ok == self.wf(),
    {
        let a = self.axis0;
        let b = self.axis1;
        if a.x < -EXTENT_LIMIT || a.x > EXTENT_LIMIT || a.y < -EXTENT_LIMIT || a.y > EXTENT_LIMIT {
            return false;
        }
        if b.x < -EXTENT_LIMIT || b.x > EXTENT_LIMIT || b.y < -EXTENT_LIMIT || b.y > EXTENT_LIMIT {
            return false;
        }
        proof {
            lemma_product_bound(a.x as int, abs_of(b.x as int), EXTENT_LIMIT as int);
            lemma_product_bound(a.y as int, abs_of(b.y as int), EXTENT_LIMIT as int);
            lemma_product_sign(a.x as int, b.x as int);
            lemma_product_sign(a.y as int, b.y as int);
        }
        (a.x as i64) * (b.x as i64) + (a.y as i64) * (b.y as i64) == 0
    }

    /// The box with half-extents of `half_x` and `half_y` quarter pixels,
    /// turned so that its first axis points along `heading`.
    pub fn new(half_x: i32, half_y: i32, heading: Direction) -> (obb: OrientedBox)
        requires
            heading.wf(),
            0 <= half_x <= EXTENT_LIMIT / DIRECTION_UNIT,
            0 <= half_y <= EXTENT_LIMIT / DIRECTION_UNIT,
        ensures
            obb.wf(),
            obb.axis0@ == heading@.times(half_x as int),
            obb.axis1@ == heading@.turned_left().times(half_y as int),
    {
        let axis0 = heading.scaled(half_x);
        proof {
            lemma_product_bound(-(heading.y as int), half_y as int, DIRECTION_UNIT as int);
            lemma_product_bound(heading.x as int, half_y as int, DIRECTION_UNIT as int);
        }
        let axis1 = Vec2 { x: -heading.y * half_y, y: heading.x * half_y };
        proof {
            lemma_turned_axes_perpendicular(heading@, half_x as int, half_y as int);
        }
        OrientedBox { axis0, axis1 }
    }

    /// How far the box reaches from its center along each coordinate axis.
    pub fn half_extent(&self) -> (reach: Vec2)
        requires
            self.wf(),
        ensures
            reach@ == self.reach(),
            0 <= reach.x <= 2 * EXTENT_LIMIT,
            0 <= reach.y <= 2 * EXTENT_LIMIT,
    {
        Vec2 {
            x: abs_coordinate(self.axis0.x) + abs_coordinate(self.axis1.x),
            y: abs_coordinate(self.axis0.y) + abs_coordinate(self.axis1.y),
        }
    }

    /// The four corners of the box centered at `center`.
    pub fn corners_at(&self, center: Vec2) -> (corners: (Vec2, Vec2, Vec2, Vec2))
        requires
            self.wf(),
            center.in_field(),
        ensures
            (corners.0@, corners.1@, corners.2@, corners.3@) == self.corners(center@),
    {
        let a = self.axis0;
        let b = self.axis1;
        (
            Vec2 { x: center.x + a.x + b.x, y: center.y + a.y + b.y },
            Vec2 { x: center.x - a.x + b.x, y: center.y - a.y + b.y },
            Vec2 { x: center.x - a.x - b.x, y: center.y - a.y - b.y },
            Vec2 { x: center.x + a.x - b.x, y: center.y + a.y - b.y },
        )
    }
}

/// The absolute value of a coordinate that is not `i32::MIN`.
pub fn abs_coordinate(value: i32) -> (magnitude: i32)
    requires
        value > i32::MIN,
    ensures
        magnitude == if value < 0 { -value } else { value as int },
{
    if value < 0 {
        -value
    } else {
        value
    }
}

/// A vector scaled by one length and its left turn scaled by another are
/// at a right angle.
pub proof fn lemma_turned_axes_perpendicular(heading: Vector, half_x: int, half_y: int)
    by (nonlinear_arith)
    ensures
        heading.times(half_x).dot(heading.turned_left().times(half_y)) == 0,
{
}

/// The visible part of the playing field, by the coordinates of its edges.
#[derive(Clone, Copy, Debug, PartialEq, Eq, Structural)]
pub struct Viewport {
    pub left: i32,
    pub right: i32,
    pub top: i32,
    pub bottom: i32,
}

impl Viewport {
    pub open spec fn wf(self) -> bool {
        &&& -VIEW_LIMIT <= self.left <= VIEW_LIMIT
        &&& -VIEW_LIMIT <= self.right <= VIEW_LIMIT
        &&& -VIEW_LIMIT <= self.top <= VIEW_LIMIT
        &&& -VIEW_LIMIT <= self.bottom <= VIEW_LIMIT
    }

    pub fn is_wf(&self) -> (ok: bool)
        ensures
            ok == self.wf(),
    {
        -VIEW_LIMIT <= self.left && self.left <= VIEW_LIMIT && -VIEW_LIMIT <= self.right
            && self.right <= VIEW_LIMIT && -VIEW_LIMIT <= self.top && self.top <= VIEW_LIMIT
            && -VIEW_LIMIT <= self.bottom && self.bottom <= VIEW_LIMIT
    }
}

} // verus!
