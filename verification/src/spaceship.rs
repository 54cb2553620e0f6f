//! The spaceship and its snowballs: the triangle by which the ship is hit
//! and wrapped, the grace time after a spawn, and the life of a snowball
//! from the shot to its expiry.
//!
//! Times are whole nanoseconds.
use vstd::prelude::*;
use crate::geometry::{
    lemma_product_bound, Direction, MovementSpeed, Vec2, Vector, Viewport, DIRECTION_UNIT,
};
use crate::wrap::{lemma_visible_stays, wrap_position, wrapped_position, REACH_LIMIT};

verus! {

/// Lives of the ship at the start of a round.
pub const NUM_LIVES_ON_STARTUP: u32 = 4;

/// Half the side of the ship's sprite, in pixels at full scale.
pub const SPACESHIP_HALF_SIZE: i32 = 64;

/// The scale at which the ship is drawn, in quarters: one half.
pub const SPACESHIP_SCALE: u8 = 2;

/// The grace time after a spawn: two seconds.
pub const SPAWN_INVINCIBLE_TIMER: u64 = 2_000_000_000;

/// The time between two shots: a quarter of a second.
pub const SNOWBALL_COOLDOWN: u64 = 250_000_000;

/// The speed of a snowball, in quarter pixels per second: 500 pixels.
pub const SNOWBALL_SPEED: i32 = 2000;

/// The radius by which a snowball is wrapped, in units: 8 pixels.
pub const SNOWBALL_SIZE: i32 = 32_000;

/// The time after which a snowball melts: a second and a half.
pub const SNOWBALL_MAX_LIFE_TIME: u64 = 1_500_000_000;

/// Tells that the ship was destroyed, with the lives it had left before.
#[derive(Clone, Copy, Debug, PartialEq, Eq, Structural)]
pub struct SpaceShipDestroyedEvent {
    pub lives_left_before_destroy: u32,
}

#[derive(Clone, Copy, Debug, PartialEq, Eq, Structural)]
pub enum SpaceShipState {
    Normal,
    /// Spared from collisions for the time given.
    Invincible(u64),
    Destroyed,
}

impl SpaceShipState {
    /// Whether a collision destroys a ship in this state.
    pub open spec fn vulnerable(self) -> bool {
        self is Normal
    }

    /// The state after a frame of `delta`: the grace time runs down, and
    /// ends as it reaches zero.
    pub open spec fn after_tick(self, delta: u64) -> SpaceShipState {
        match self {
            SpaceShipState::Invincible(left) => if delta >= left {
                SpaceShipState::Normal
            } else {
                SpaceShipState::Invincible((left - delta) as u64)
            },
            other => other,
        }
    }

    /// The state after the frames `deltas`, in their order.
    pub open spec fn after_ticks(self, deltas: Seq<u64>) -> SpaceShipState
        decreases deltas.len(),
    {
        if deltas.len() == 0 {
            self
        } else {
            self.after_ticks(deltas.drop_last()).after_tick(deltas.last())
        }
    }
}

/// The time that the frames `deltas` take together.
pub open spec fn total_time(deltas: Seq<u64>) -> int
    decreases deltas.len(),
{
    if deltas.len() == 0 {
        0
    } else {
        total_time(deltas.drop_last()) + deltas.last()
    }
}

#[derive(Clone, Copy, Debug, PartialEq, Eq, Structural)]
pub struct SpaceShip {
    pub state: SpaceShipState,
    pub lives_left: u32,
}

/// Where an entity is, which way it faces, and its scale in quarters.
#[derive(Clone, Copy, Debug, PartialEq, Eq, Structural)]
pub struct Transform {
    pub position: Vec2,
    pub forward: Direction,
    pub scale: u8,
}

impl Transform {
    pub open spec fn wf(self) -> bool {
        self.position.in_field() && self.forward.wf()
    }

    pub fn is_wf(&self) -> (ok: bool)
        ensures
            ok == self.wf(),
    {
        self.position.is_in_field() && self.forward.is_wf()
    }
}

/// The time until the next shot may be fired.
#[derive(Clone, Copy, Debug, PartialEq, Eq, Structural)]
pub struct SnowballShootingCooldown(pub u64);

#[derive(Clone, Copy, Debug, PartialEq, Eq, Structural)]
pub struct Snowball {
    pub spawn_time: u64,
    pub position: Vec2,
    pub movement: MovementSpeed,
}

impl Snowball {
    /// Whether the snowball has lived longer than `SNOWBALL_MAX_LIFE_TIME`
    /// at the time `now`.
    pub open spec fn expired(self, now: u64) -> bool {
        now - self.spawn_time > SNOWBALL_MAX_LIFE_TIME
    }
}

/// All that a ship is spawned with.
#[derive(Clone, Copy, Debug, PartialEq, Eq, Structural)]
pub struct SpaceShipBundle {
    pub spaceship: SpaceShip,
    pub cooldown: SnowballShootingCooldown,
    pub movement: MovementSpeed,
    pub transform: Transform,
}

pub open spec fn min3(a: int, b: int, c: int) -> int {
    if a <= b && a <= c {
        a
    } else if b <= c {
        b
    } else {
        c
    }
}

pub open spec fn max3(a: int, b: int, c: int) -> int {
    if a >= b && a >= c {
        a
    } else if b >= c {
        b
    } else {
        c
    }
}

fn smallest(a: i32, b: i32, c: i32) -> (m: i32)
    ensures
        m == min3(a as int, b as int, c as int),
{
    if a <= b && a <= c {
        a
    } else if b <= c {
        b
    } else {
        c
    }
}

fn largest(a: i32, b: i32, c: i32) -> (m: i32)
    ensures
        m == max3(a as int, b as int, c as int),
{
    if a >= b && a >= c {
        a
    } else if b >= c {
        b
    } else {
        c
    }
}

impl SpaceShip {
    /// How far the tip of a ship at the given scale lies from its position,
    /// in quarter pixels.
    pub open spec fn reach(scale: u8) -> int {
        SPACESHIP_HALF_SIZE * scale
    }

    /// The triangle by which a ship is hit: its tip ahead of the position
    /// and the two rear corners behind it, to the right and to the left.
    pub open spec fn triangle(transform: Transform) -> (Vector, Vector, Vector) {
        let forward = transform.forward@;
        let side = forward.turned_right();
        let reach = Self::reach(transform.scale);
        (
            transform.position@.plus(forward.times(reach)),
            transform.position@.minus(forward.minus(side).times(reach)),
            transform.position@.minus(forward.plus(side).times(reach)),
        )
    }

    /// How far the triangle reaches from the position towards lower
    /// coordinates.
    pub open spec fn reach_low(transform: Transform) -> Vector {
        let (a, b, c) = Self::triangle(transform);
        Vector {
            x: transform.position.x - min3(a.x, b.x, c.x),
            y: transform.position.y - min3(a.y, b.y, c.y),
        }
    }

    /// How far the triangle reaches from the position towards higher
    /// coordinates.
    pub open spec fn reach_high(transform: Transform) -> Vector {
        let (a, b, c) = Self::triangle(transform);
        Vector {
            x: max3(a.x, b.x, c.x) - transform.position.x,
            y: max3(a.y, b.y, c.y) - transform.position.y,
        }
    }

    /// The triangle by which the ship is hit, from its transform as it is
    /// now.
    pub fn bounding_triangle(transform: &Transform) -> (tri: (Vec2, Vec2, Vec2))
        requires
            transform.wf(),
        ensures
            (tri.0@, tri.1@, tri.2@) == Self::triangle(*transform),
            0 <= Self::reach_low(*transform).x <= REACH_LIMIT,
            0 <= Self::reach_low(*transform).y <= REACH_LIMIT,
            0 <= Self::reach_high(*transform).x <= REACH_LIMIT,
            0 <= Self::reach_high(*transform).y <= REACH_LIMIT,
    {
        let position = transform.position;
        let forward = transform.forward;
        let side = forward.right();
        let reach: i32 = SPACESHIP_HALF_SIZE * (transform.scale as i32);
        proof {
            let r = reach as int;
            assert(r == Self::reach(transform.scale));
            lemma_product_bound(forward.x as int, r, DIRECTION_UNIT as int);
            lemma_product_bound(forward.y as int, r, DIRECTION_UNIT as int);
            lemma_product_bound(side.x as int, r, DIRECTION_UNIT as int);
            lemma_product_bound(side.y as int, r, DIRECTION_UNIT as int);
            lemma_spread(forward.x as int, side.x as int, r);
            lemma_spread(forward.y as int, side.y as int, r);
        }
        let a = Vec2 { x: position.x + forward.x * reach, y: position.y + forward.y * reach };
        let b = Vec2 {
            x: position.x - (forward.x - side.x) * reach,
            y: position.y - (forward.y - side.y) * reach,
        };
        let c = Vec2 {
            x: position.x - (forward.x + side.x) * reach,
            y: position.y - (forward.y + side.y) * reach,
        };
        proof {
            let r = reach as int;
            assert(-1000 * r <= forward.x * r <= 1000 * r);
            assert(-1000 * r <= forward.y * r <= 1000 * r);
            assert(-1000 * r <= side.x * r <= 1000 * r);
            assert(-1000 * r <= side.y * r <= 1000 * r);
        }
        (a, b, c)
    }
}

/// A difference and a sum times a factor, spread out.
proof fn lemma_spread(f: int, s: int, r: int)
    by (nonlinear_arith)
    ensures
        (f - s) * r == f * r - s * r,
        (f + s) * r == f * r + s * r,
{
}

/// The ship as it is spawned with `lives_left` lives: spared for the grace
/// time, at rest in the middle of the field, facing up, ready to shoot.
pub fn spawn_spaceship(lives_left: u32) -> (bundle: SpaceShipBundle)
    ensures
        bundle.spaceship.state == SpaceShipState::Invincible(SPAWN_INVINCIBLE_TIMER),
        bundle.spaceship.lives_left == lives_left,
        bundle.cooldown.0 == 0,
        bundle.movement.0@ == (Vector { x: 0, y: 0 }),
        bundle.transform.position@ == (Vector { x: 0, y: 0 }),
        bundle.transform.forward@ == (Vector { x: 0, y: DIRECTION_UNIT as int }),
        bundle.transform.scale == SPACESHIP_SCALE,
        bundle.transform.wf(),
{
    SpaceShipBundle {
        spaceship: SpaceShip {
            state: SpaceShipState::Invincible(SPAWN_INVINCIBLE_TIMER),
            lives_left,
        },
        cooldown: SnowballShootingCooldown(0),
        movement: MovementSpeed(Vec2 { x: 0, y: 0 }),
        transform: Transform {
            position: Vec2 { x: 0, y: 0 },
            forward: Direction::up(),
            scale: SPACESHIP_SCALE,
        },
    }
}

/// Wraps the ship by its triangle.
pub fn screen_wrap_space_ship(transform: &mut Transform, camera: &Viewport)
    requires
        old(transform).wf(),
        camera.wf(),
    ensures
        final(transform).position@ == wrapped_position(
            *camera,
            old(transform).position@,
            SpaceShip::reach_low(*old(transform)),
            SpaceShip::reach_high(*old(transform)),
        ),
        final(transform).forward == old(transform).forward,
        final(transform).scale == old(transform).scale,
        final(transform).wf(),
{
    let (tri_a, tri_b, tri_c) = SpaceShip::bounding_triangle(transform);
    let position = transform.position;
    let max_x: i32 = largest(tri_a.x, tri_b.x, tri_c.x);
    let min_x: i32 = smallest(tri_a.x, tri_b.x, tri_c.x);
    let max_y: i32 = largest(tri_a.y, tri_b.y, tri_c.y);
    let min_y: i32 = smallest(tri_a.y, tri_b.y, tri_c.y);
    let reach_low = Vec2 { x: position.x - min_x, y: position.y - min_y };
    let reach_high = Vec2 { x: max_x - position.x, y: max_y - position.y };
    transform.position = wrap_position(camera, position, reach_low, reach_high);
}

/// The cooldown after a frame of `delta`: it runs down and stops at zero.
pub open spec fn cooled_down(cooldown: u64, delta: u64) -> u64 {
    if cooldown > delta {
        (cooldown - delta) as u64
    } else {
        0
    }
}

/// Whether a shot is fired in a frame of `delta`: the fire key went down in
/// it and the cooldown has run out by it.
pub open spec fn shot_fired(cooldown: u64, delta: u64, fire: bool) -> bool {
    fire && cooled_down(cooldown, delta) == 0
}

/// One frame of the ship's gun.  `fire` tells whether the fire key went
/// down in this frame, `delta` how long the frame took, `now` the time at
/// its end.  A shot starts the cooldown anew and gives a snowball at the
/// tip of the ship, flying the way the ship faces.
pub fn snowballs_shoot(
    cooldown: &mut SnowballShootingCooldown,
    transform: &Transform,
    delta: u64,
    fire: bool,
    now: u64,
) -> (shot: Option<Snowball>)
    requires
        transform.wf(),
    ensures
        shot.is_some() == shot_fired(old(cooldown).0, delta, fire),
        final(cooldown).0 == if shot_fired(old(cooldown).0, delta, fire) {
            SNOWBALL_COOLDOWN
        } else {
            cooled_down(old(cooldown).0, delta)
        },
        shot matches Some(snowball) ==> {
            &&& snowball.spawn_time == now
            &&& snowball.position@ == SpaceShip::triangle(*transform).0
            &&& snowball.movement.0@ == transform.forward@.times(SNOWBALL_SPEED as int)
        },
{
    let cooled: u64 = if cooldown.0 > delta {
        cooldown.0 - delta
    } else {
        0
    };
    if cooled > 0 || !fire {
        cooldown.0 = cooled;
        return None;
    }
    let (tri_a, _, _) = SpaceShip::bounding_triangle(transform);
    cooldown.0 = SNOWBALL_COOLDOWN;
    Some(
        Snowball {
            spawn_time: now,
            position: tri_a,
            movement: MovementSpeed(transform.forward.scaled(SNOWBALL_SPEED)),
        },
    )
}

/// Where the wrap puts a snowball: it is wrapped as a disc of radius
/// `SNOWBALL_SIZE`.
pub open spec fn wrapped_snowball(camera: Viewport, snowball: Snowball) -> Snowball {
    let radius = Vector { x: SNOWBALL_SIZE as int, y: SNOWBALL_SIZE as int };
    let wrapped = wrapped_position(camera, snowball.position@, radius, radius);
    Snowball {
        spawn_time: snowball.spawn_time,
        position: Vec2 { x: wrapped.x as i32, y: wrapped.y as i32 },
        movement: snowball.movement,
    }
}

/// Wraps every snowball.
pub fn snowballs_screen_wrap(camera: &Viewport, snowballs: &mut Vec<Snowball>)
    requires
        camera.wf(),
    ensures
        final(snowballs)@.len() == old(snowballs)@.len(),
        forall|i: int|
            0 <= i < old(snowballs)@.len() ==> #[trigger] final(snowballs)@[i] == wrapped_snowball(
                *camera,
                old(snowballs)@[i],
            ),
{
    let radius = Vec2 { x: SNOWBALL_SIZE, y: SNOWBALL_SIZE };
    let count: usize = snowballs.len();
    let mut i: usize = 0;
    while i < count
        invariant
            camera.wf(),
            radius.x == SNOWBALL_SIZE,
            radius.y == SNOWBALL_SIZE,
            i <= count,
            count == snowballs@.len(),
            snowballs@.len() == old(snowballs)@.len(),
            forall|k: int|
                0 <= k < i ==> #[trigger] snowballs@[k] == wrapped_snowball(
                    *camera,
                    old(snowballs)@[k],
                ),
            forall|k: int| i <= k < count ==> #[trigger] snowballs@[k] == old(snowballs)@[k],
        decreases count - i,
    {
        let mut snowball = snowballs[i];
        snowball.position = wrap_position(camera, snowball.position, radius, radius);
        snowballs.set(i, snowball);
        i = i + 1;
    }
}

/// The snowballs that have melted by the time `now`, by their places in
/// `snowballs`, in rising order.
pub fn snowballs_timeout(now: u64, snowballs: &Vec<Snowball>) -> (melted: Vec<usize>)
    ensures
        forall|k: int|
            0 <= k < melted@.len() ==> #[trigger] melted@[k] < snowballs@.len()
                && snowballs@[melted@[k] as int].expired(now),
        forall|j: int, k: int| 0 <= j < k < melted@.len() ==> melted@[j] < melted@[k],
        forall|i: int|
            0 <= i < snowballs@.len() && (#[trigger] snowballs@[i]).expired(now)
                ==> melted@.contains(i as usize),
{
    let min_snowball_time: u64 = if now > SNOWBALL_MAX_LIFE_TIME {
        now - SNOWBALL_MAX_LIFE_TIME
    } else {
        0
    };
    let mut melted: Vec<usize> = Vec::new();
    let mut i: usize = 0;
    while i < snowballs.len()
        invariant
            i <= snowballs@.len(),
            min_snowball_time == if now > SNOWBALL_MAX_LIFE_TIME {
                now - SNOWBALL_MAX_LIFE_TIME
            } else {
                0
            },
            forall|k: int|
                0 <= k < melted@.len() ==> #[trigger] melted@[k] < i
                    && snowballs@[melted@[k] as int].expired(now),
            forall|j: int, k: int| 0 <= j < k < melted@.len() ==> melted@[j] < melted@[k],
            forall|n: int|
                0 <= n < i && (#[trigger] snowballs@[n]).expired(now) ==> melted@.contains(
                    n as usize,
                ),
        decreases snowballs@.len() - i,
    {
        if snowballs[i].spawn_time < min_snowball_time {
            let ghost before = melted@;
            melted.push(i);
            proof {
                assert(melted@[before.len() as int] == i);
                assert forall|n: int|
                    0 <= n < i + 1 && (#[trigger] snowballs@[n]).expired(now) implies melted@.contains(
                    n as usize,
                ) by {
                    if n < i {
                        let k = choose|k: int| 0 <= k < before.len() && before[k] == n as usize;
                        assert(melted@[k] == n as usize);
                    }
                }
            }
        }
        i = i + 1;
    }
    melted
}

/// One frame of the grace time.
pub fn invincibility(ship: &mut SpaceShip, delta: u64)
    ensures
        final(ship).state == old(ship).state.after_tick(delta),
        final(ship).lives_left == old(ship).lives_left,
{
    if let SpaceShipState::Invincible(invincibility_time_left) = ship.state {
        if delta >= invincibility_time_left {
            ship.state = SpaceShipState::Normal;
        } else {
            ship.state = SpaceShipState::Invincible(invincibility_time_left - delta);
        }
    }
}

/// What follows the destruction of the ship: while it had lives left, a new
/// ship with one life less; none after the last.
pub fn on_space_ship_destroy(destroyed_event: &SpaceShipDestroyedEvent) -> (respawn: Option<
    SpaceShipBundle,
>)
    ensures
        respawn.is_some() == (destroyed_event.lives_left_before_destroy > 0),
        respawn matches Some(bundle) ==> {
            &&& bundle.spaceship.state == SpaceShipState::Invincible(SPAWN_INVINCIBLE_TIMER)
            &&& bundle.spaceship.lives_left == destroyed_event.lives_left_before_destroy - 1
            &&& bundle.cooldown.0 == 0
            &&& bundle.movement.0@ == (Vector { x: 0, y: 0 })
            &&& bundle.transform.position@ == (Vector { x: 0, y: 0 })
            &&& bundle.transform.forward@ == (Vector { x: 0, y: DIRECTION_UNIT as int })
            &&& bundle.transform.scale == SPACESHIP_SCALE
        },
{
    if destroyed_event.lives_left_before_destroy > 0 {
        Some(spawn_spaceship(destroyed_event.lives_left_before_destroy - 1))
    } else {
        None
    }
}

/// A snowball of which some part is in the viewport's range on each axis is
/// left where it is by the wrap.
pub proof fn lemma_snowball_in_view_stays(camera: Viewport, snowball: Snowball)
    requires
        snowball.position.x + SNOWBALL_SIZE >= camera.left,
        snowball.position.x - SNOWBALL_SIZE <= camera.right,
        snowball.position.y + SNOWBALL_SIZE >= camera.bottom,
        snowball.position.y - SNOWBALL_SIZE <= camera.top,
    ensures
        wrapped_snowball(camera, snowball) == snowball,
{
    let radius = Vector { x: SNOWBALL_SIZE as int, y: SNOWBALL_SIZE as int };
    lemma_visible_stays(camera, snowball.position@, radius, radius);
}

/// A ship of whose triangle some part is in the viewport's range on each
/// axis is left where it is by the wrap.
pub proof fn lemma_ship_in_view_stays(camera: Viewport, transform: Transform)
    requires
        ({
            let (a, b, c) = SpaceShip::triangle(transform);
            &&& max3(a.x, b.x, c.x) >= camera.left
            &&& min3(a.x, b.x, c.x) <= camera.right
            &&& max3(a.y, b.y, c.y) >= camera.bottom
            &&& min3(a.y, b.y, c.y) <= camera.top
        }),
    ensures
        wrapped_position(
            camera,
            transform.position@,
            SpaceShip::reach_low(transform),
            SpaceShip::reach_high(transform),
        ) == transform.position@,
{
    lemma_visible_stays(
        camera,
        transform.position@,
        SpaceShip::reach_low(transform),
        SpaceShip::reach_high(transform),
    );
}

/// A ship that is spawned with a grace time is spared while the frames
/// since its spawn have taken less than the grace time together, and can be
/// hit from then on.  (A grace time of zero ends with the first frame.)
pub proof fn lemma_grace_window(grace: u64, deltas: Seq<u64>)
    requires
        grace > 0 || deltas.len() > 0,
    ensures
        total_time(deltas) < grace ==> SpaceShipState::Invincible(grace).after_ticks(deltas)
            == SpaceShipState::Invincible((grace - total_time(deltas)) as u64),
        total_time(deltas) >= grace ==> SpaceShipState::Invincible(grace).after_ticks(deltas)
            == SpaceShipState::Normal,
        SpaceShipState::Invincible(grace).after_ticks(deltas).vulnerable() <==> total_time(deltas)
            >= grace,
{
    lemma_grace_runs_down(grace, deltas);
}

/// The state of a ship that was spawned with a grace time, after any
/// number of frames.
proof fn lemma_grace_runs_down(grace: u64, deltas: Seq<u64>)
    ensures
        0 <= total_time(deltas),
        SpaceShipState::Invincible(grace).after_ticks(deltas) == if total_time(deltas) < grace {
            SpaceShipState::Invincible((grace - total_time(deltas)) as u64)
        } else if deltas.len() == 0 {
            SpaceShipState::Invincible(grace)
        } else {
            SpaceShipState::Normal
        },
    decreases deltas.len(),
{
    if deltas.len() > 0 {
        lemma_grace_runs_down(grace, deltas.drop_last());
    }
}

} // verus!
