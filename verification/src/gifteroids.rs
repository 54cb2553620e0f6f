//! Gifteroids: how they are spawned, how a snowball splits them, how they
//! destroy the spaceship, and when the field is cleared.
use vstd::prelude::*;
use crate::collision::{line_line_test, point_in_obb, segments_cross};
use crate::entities::{despawn, without};
use crate::game_state::GameState;
use crate::geometry::{Direction, MovementSpeed, OrientedBox, Vec2, Vector, Viewport};
use crate::random::{
    sign_from_word, span_from_word, stream_word, word_fraction, word_is_negative, word_span,
    Heading, SeededRng,
};
use crate::spaceship::{
    Snowball, SpaceShip, SpaceShipDestroyedEvent, SpaceShipState, Transform,
};
use crate::wrap::{lemma_visible_stays, wrap_position, wrapped_position};

verus! {

/// Gifteroids on the field at the start of a round.
pub const GIFTEROIDS_SPAWN_COUNT: usize = 7;

/// How far from the middle of the field, on each axis, a round's first
/// gifteroids keep: 80 pixels, in units.
pub const GIFTEROIDS_SPAWN_PLAYER_CLEARANCE: i32 = 320_000;

/// The seed of the round's first gifteroids, the same for every round.
pub const GIFTEROIDS_SPAWN_SEED: u64 = 123;

/// The speed of a large gifteroid, in quarter pixels per second: 60 pixels.
pub const GIFTEROIDS_BASE_SPEED: i32 = 240;

/// Half the width of the gift sprite, in pixels at full scale.
pub const GIFTSPRITE_HALF_EXTENT_X: i32 = 46;

/// Half the height of the gift sprite, in pixels at full scale.
pub const GIFTSPRITE_HALF_EXTENT_Y: i32 = 64;

/// Tells that a gifteroid was destroyed.
#[derive(Clone, Copy, Debug, PartialEq, Eq, Structural)]
pub struct GifteroidDestroyedEvent {
    /// Set where the gifteroid was of the last size, `Small`, of which
    /// nothing is left; clear where two smaller ones took its place.
    pub split_in_two: bool,
}

/// The sizes of a gifteroid, from the first to the last.
#[derive(Clone, Copy, Debug, PartialEq, Eq, Structural)]
pub enum GifteroidSize {
    Large,
    Medium,
    Small,
}

impl GifteroidSize {
    /// The place of the size in their order, from 0 for `Large`.
    pub open spec fn index(self) -> int {
        match self {
            GifteroidSize::Large => 0,
            GifteroidSize::Medium => 1,
            GifteroidSize::Small => 2,
        }
    }

    /// The size of the two gifteroids that one of this size splits into;
    /// none for the last size.
    pub open spec fn next(self) -> Option<GifteroidSize> {
        match self {
            GifteroidSize::Large => Some(GifteroidSize::Medium),
            GifteroidSize::Medium => Some(GifteroidSize::Small),
            GifteroidSize::Small => None,
        }
    }

    /// The scale in quarters: one, a half, a quarter.
    pub open spec fn scale(self) -> int {
        match self {
            GifteroidSize::Large => 4,
            GifteroidSize::Medium => 2,
            GifteroidSize::Small => 1,
        }
    }

    /// The speed in quarter pixels per second: the base speed times one
    /// more than the index.
    pub open spec fn speed(self) -> int {
        GIFTEROIDS_BASE_SPEED * (self.index() + 1)
    }

    pub fn tier_index(&self) -> (index: u8)
        ensures
            index == self.index(),
    {
        match self {
            GifteroidSize::Large => 0,
            GifteroidSize::Medium => 1,
            GifteroidSize::Small => 2,
        }
    }

    pub fn smaller(&self) -> (size: Option<GifteroidSize>)
        ensures
            size == self.next(),
    {
        match self {
            GifteroidSize::Large => Some(GifteroidSize::Medium),
            GifteroidSize::Medium => Some(GifteroidSize::Small),
            GifteroidSize::Small => None,
        }
    }

    pub fn scale_quarters(&self) -> (scale: u8)
        ensures
            scale == self.scale(),
    {
        match self {
            GifteroidSize::Large => 4,
            GifteroidSize::Medium => 2,
            GifteroidSize::Small => 1,
        }
    }

    pub fn movement_speed(&self) -> (speed: i32)
        ensures
            speed == self.speed(),
    {
        GIFTEROIDS_BASE_SPEED * (self.tier_index() as i32 + 1)
    }
}

/// With each step down in size the scale halves and the speed grows by the
/// base speed.
pub proof fn lemma_size_step(size: GifteroidSize)
    requires
        size.next().is_some(),
    ensures
        2 * size.next().unwrap().scale() == size.scale(),
        size.next().unwrap().speed() == size.speed() + GIFTEROIDS_BASE_SPEED,
        size.next().unwrap().index() == size.index() + 1,
{
}

/// A gifteroid on the field.
#[derive(Clone, Copy, Debug, PartialEq, Eq, Structural)]
pub struct Gifteroid {
    pub size: GifteroidSize,
    pub position: Vec2,
    pub movement: MovementSpeed,
    pub obb: OrientedBox,
}

impl Gifteroid {
    pub open spec fn wf(self) -> bool {
        self.position.in_field() && self.obb.wf()
    }

    /// Whether the snowball is inside the gifteroid's box.  A snowball
    /// counts as the point at its position.
    pub open spec fn hit_by(self, snowball: Snowball) -> bool {
        self.obb.contains(snowball.position@, self.position@)
    }

    pub open spec fn hit_by_any(self, snowballs: Seq<Snowball>) -> bool {
        exists|j: int| 0 <= j < snowballs.len() && self.hit_by(#[trigger] snowballs[j])
    }

    /// Whether `j` is the place of the first snowball that hits.
    pub open spec fn first_hit_is(self, snowballs: Seq<Snowball>, j: int) -> bool {
        &&& 0 <= j < snowballs.len()
        &&& self.hit_by(snowballs[j])
        &&& forall|k: int| 0 <= k < j ==> !self.hit_by(#[trigger] snowballs[k])
    }

    /// Whether an edge of the triangle crosses an edge of the gifteroid's
    /// box.
    pub open spec fn touches(self, triangle: (Vector, Vector, Vector)) -> bool {
        outlines_cross(triangle, self.obb.corners(self.position@))
    }

    pub fn is_wf(&self) -> (ok: bool)
        ensures
            ok == self.wf(),
    {
        self.position.is_in_field() && self.obb.is_wf()
    }
}

/// Whether the segment from `start` to `end` crosses one of the four edges
/// of the box with the given corners.
pub open spec fn edge_crosses_box(
    start: Vector,
    end: Vector,
    corners: (Vector, Vector, Vector, Vector),
) -> bool {
    ||| segments_cross(start, end, corners.0, corners.1)
    ||| segments_cross(start, end, corners.1, corners.2)
    ||| segments_cross(start, end, corners.2, corners.3)
    ||| segments_cross(start, end, corners.3, corners.0)
}

/// Whether one of the three edges of the triangle crosses one of the four
/// edges of the box with the given corners.
pub open spec fn outlines_cross(
    triangle: (Vector, Vector, Vector),
    corners: (Vector, Vector, Vector, Vector),
) -> bool {
    ||| edge_crosses_box(triangle.0, triangle.1, corners)
    ||| edge_crosses_box(triangle.1, triangle.2, corners)
    ||| edge_crosses_box(triangle.2, triangle.0, corners)
}

/// A gifteroid that is to be spawned, with its headings as they were
/// drawn.  The headings become directions outside this library, which has
/// no trigonometry; `place` then makes the gifteroid.
#[derive(Clone, Copy, Debug, PartialEq, Eq, Structural)]
pub struct GifteroidSpawn {
    pub size: GifteroidSize,
    pub position: Vec2,
    /// The way the gifteroid moves.
    pub movement_heading: Heading,
    /// The way the first axis of its box points.
    pub sprite_heading: Heading,
}

impl GifteroidSpawn {
    pub open spec fn wf(self) -> bool {
        self.movement_heading.wf() && self.sprite_heading.wf()
    }

    /// The request that two words of the generator stand for.
    pub open spec fn of_words(
        position: Vec2,
        size: GifteroidSize,
        movement_word: u32,
        sprite_word: u32,
    ) -> GifteroidSpawn {
        GifteroidSpawn {
            size,
            position,
            movement_heading: Heading { fraction: word_fraction(movement_word) as u32 },
            sprite_heading: Heading { fraction: word_fraction(sprite_word) as u32 },
        }
    }

    /// The request that two words of the generator stand for.
    pub fn from_words(
        position: Vec2,
        size: GifteroidSize,
        movement_word: u32,
        sprite_word: u32,
    ) -> (spawn: GifteroidSpawn)
        ensures
            spawn == Self::of_words(position, size, movement_word, sprite_word),
            spawn.wf(),
    {
        GifteroidSpawn {
            size,
            position,
            movement_heading: Heading::from_word(movement_word),
            sprite_heading: Heading::from_word(sprite_word),
        }
    }

    /// The gifteroid of this request, given its two headings as
    /// directions: it moves along `movement` at the speed of its size, and
    /// its box has the sprite's half-extents at the scale of its size, turned
    /// to `sprite`.
    pub fn place(&self, movement: Direction, sprite: Direction) -> (gifteroid: Gifteroid)
        requires
            movement.wf(),
            sprite.wf(),
        ensures
            gifteroid.size == self.size,
            gifteroid.position == self.position,
            gifteroid.movement.0@ == movement@.times(self.size.speed()),
            gifteroid.obb.axis0@ == sprite@.times(GIFTSPRITE_HALF_EXTENT_X * self.size.scale()),
            gifteroid.obb.axis1@ == sprite@.turned_left().times(
                GIFTSPRITE_HALF_EXTENT_Y * self.size.scale(),
            ),
            gifteroid.obb.wf(),
            self.position.in_field() ==> gifteroid.wf(),
    {
        let scale: i32 = self.size.scale_quarters() as i32;
        Gifteroid {
            size: self.size,
            position: self.position,
            movement: MovementSpeed(movement.scaled(self.size.movement_speed())),
            obb: OrientedBox::new(
                GIFTSPRITE_HALF_EXTENT_X * scale,
                GIFTSPRITE_HALF_EXTENT_Y * scale,
                sprite,
            ),
        }
    }
}

/// Requests a gifteroid of the given size at `position`.  Its two headings
/// are the next two words of `rand`, the movement heading first.
pub fn spawn_gifteroid(position: Vec2, rand: &mut SeededRng, size: GifteroidSize) -> (spawn:
    GifteroidSpawn)
    ensures
        spawn == GifteroidSpawn::of_words(
            position,
            size,
            old(rand).upcoming(0),
            old(rand).upcoming(1),
        ),
        spawn.wf(),
        final(rand).follows(*old(rand), 2),
{
    let movement_word: u32 = rand.next_word();
    let sprite_word: u32 = rand.next_word();
    GifteroidSpawn::from_words(position, size, movement_word, sprite_word)
}

/// The coordinate that two words of the generator stand for: the first
/// gives the distance from the middle, between the clearance and `half`,
/// the second the side.
pub open spec fn start_coordinate(half: int, span_word: u32, sign_word: u32) -> int {
    let distance = word_span(GIFTEROIDS_SPAWN_PLAYER_CLEARANCE as int, half, span_word);
    if word_is_negative(sign_word) {
        -distance
    } else {
        distance
    }
}

/// Whether a coordinate keeps clear of the middle of a field that reaches
/// `half` to either side.
pub open spec fn keeps_clear(coordinate: int, half: int) -> bool {
    ||| GIFTEROIDS_SPAWN_PLAYER_CLEARANCE <= coordinate < half
    ||| -half < coordinate <= -GIFTEROIDS_SPAWN_PLAYER_CLEARANCE
}

/// The coordinate that two words of the generator stand for.
pub fn start_coordinate_from_words(half: i32, span_word: u32, sign_word: u32) -> (coordinate: i32)
    requires
        GIFTEROIDS_SPAWN_PLAYER_CLEARANCE < half,
    ensures
        coordinate == start_coordinate(half as int, span_word, sign_word),
        keeps_clear(coordinate as int, half as int),
{
    let distance: i32 = span_from_word(GIFTEROIDS_SPAWN_PLAYER_CLEARANCE, half, span_word);
    if sign_from_word(sign_word) {
        -distance
    } else {
        distance
    }
}

/// Draws a coordinate of a round's first gifteroids: the next two words of
/// `rand`, the distance first.
fn draw_start_coordinate(half: i32, rand: &mut SeededRng) -> (coordinate: i32)
    requires
        GIFTEROIDS_SPAWN_PLAYER_CLEARANCE < half,
    ensures
        coordinate == start_coordinate(
            half as int,
            old(rand).upcoming(0),
            old(rand).upcoming(1),
        ),
        keeps_clear(coordinate as int, half as int),
        final(rand).follows(*old(rand), 2),
{
    let span_word: u32 = rand.next_word();
    let sign_word: u32 = rand.next_word();
    start_coordinate_from_words(half, span_word, sign_word)
}

/// The request at the place `place` among the gifteroids of the start of a
/// round, on a field that reaches `half_screen_size` from its middle.  Each
/// takes six words of the stream of `GIFTEROIDS_SPAWN_SEED`: for x and then
/// for y the distance and the side, then the movement heading and the
/// sprite heading.
pub open spec fn start_spawn(half_screen_size: Vec2, place: nat) -> GifteroidSpawn {
    GifteroidSpawn::of_words(
        Vec2 {
            x: start_coordinate(
                half_screen_size.x as int,
                stream_word(GIFTEROIDS_SPAWN_SEED, 6 * place),
                stream_word(GIFTEROIDS_SPAWN_SEED, 6 * place + 1),
            ) as i32,
            y: start_coordinate(
                half_screen_size.y as int,
                stream_word(GIFTEROIDS_SPAWN_SEED, 6 * place + 2),
                stream_word(GIFTEROIDS_SPAWN_SEED, 6 * place + 3),
            ) as i32,
        },
        GifteroidSize::Large,
        stream_word(GIFTEROIDS_SPAWN_SEED, 6 * place + 4),
        stream_word(GIFTEROIDS_SPAWN_SEED, 6 * place + 5),
    )
}

/// Requests the gifteroids of the start of a round on a field that reaches
/// `half_screen_size` from its middle: `GIFTEROIDS_SPAWN_COUNT` large ones,
/// each clear of the middle on both axes.  They are drawn from a generator
/// that is seeded with `GIFTEROIDS_SPAWN_SEED`, so every round on a field of
/// one size starts alike.
pub fn spawn_gifteroids(half_screen_size: Vec2) -> (spawns: Vec<GifteroidSpawn>)
    requires
        GIFTEROIDS_SPAWN_PLAYER_CLEARANCE < half_screen_size.x,
        GIFTEROIDS_SPAWN_PLAYER_CLEARANCE < half_screen_size.y,
    ensures
        spawns@.len() == GIFTEROIDS_SPAWN_COUNT,
        forall|i: int|
            0 <= i < spawns@.len() ==> #[trigger] spawns@[i] == start_spawn(
                half_screen_size,
                i as nat,
            ),
        forall|i: int|
            0 <= i < spawns@.len() ==> {
                &&& (#[trigger] spawns@[i]).size == GifteroidSize::Large
                &&& spawns@[i].wf()
                &&& keeps_clear(spawns@[i].position.x as int, half_screen_size.x as int)
                &&& keeps_clear(spawns@[i].position.y as int, half_screen_size.y as int)
            },
{
    let mut rng = SeededRng::seeded(GIFTEROIDS_SPAWN_SEED);
    let mut spawns: Vec<GifteroidSpawn> = Vec::new();
    while spawns.len() < GIFTEROIDS_SPAWN_COUNT
        invariant
            GIFTEROIDS_SPAWN_PLAYER_CLEARANCE < half_screen_size.x,
            GIFTEROIDS_SPAWN_PLAYER_CLEARANCE < half_screen_size.y,
            spawns@.len() <= GIFTEROIDS_SPAWN_COUNT,
            rng.seed() == GIFTEROIDS_SPAWN_SEED,
            rng.drawn() == 6 * spawns@.len(),
            forall|i: int|
                0 <= i < spawns@.len() ==> #[trigger] spawns@[i] == start_spawn(
                    half_screen_size,
                    i as nat,
                ),
            forall|i: int|
                0 <= i < spawns@.len() ==> {
                    &&& (#[trigger] spawns@[i]).size == GifteroidSize::Large
                    &&& spawns@[i].wf()
                    &&& keeps_clear(spawns@[i].position.x as int, half_screen_size.x as int)
                    &&& keeps_clear(spawns@[i].position.y as int, half_screen_size.y as int)
                },
        decreases GIFTEROIDS_SPAWN_COUNT - spawns@.len(),
    {
        let x: i32 = draw_start_coordinate(half_screen_size.x, &mut rng);
        let y: i32 = draw_start_coordinate(half_screen_size.y, &mut rng);
        let spawn = spawn_gifteroid(Vec2 { x, y }, &mut rng, GifteroidSize::Large);
        spawns.push(spawn);
    }
    spawns
}

/// Where the wrap puts a gifteroid: it is wrapped by the reach of its box.
pub open spec fn wrapped_gifteroid(camera: Viewport, gifteroid: Gifteroid) -> Gifteroid {
    let reach = gifteroid.obb.reach();
    let wrapped = wrapped_position(camera, gifteroid.position@, reach, reach);
    Gifteroid {
        size: gifteroid.size,
        position: Vec2 { x: wrapped.x as i32, y: wrapped.y as i32 },
        movement: gifteroid.movement,
        obb: gifteroid.obb,
    }
}

/// Wraps every gifteroid.
pub fn screen_wrap_obb_entities(camera: &Viewport, gifteroids: &mut Vec<Gifteroid>)
    requires
        camera.wf(),
        forall|i: int| 0 <= i < old(gifteroids)@.len() ==> (#[trigger] old(gifteroids)@[i]).obb.wf(),
    ensures
        final(gifteroids)@.len() == old(gifteroids)@.len(),
        forall|i: int|
            0 <= i < old(gifteroids)@.len() ==> #[trigger] final(gifteroids)@[i]
                == wrapped_gifteroid(*camera, old(gifteroids)@[i]),
        forall|i: int|
            0 <= i < old(gifteroids)@.len() && (#[trigger] old(gifteroids)@[i]).wf()
                ==> final(gifteroids)@[i].wf(),
{
    let count: usize = gifteroids.len();
    let mut i: usize = 0;
    while i < count
        invariant
            camera.wf(),
            i <= count,
            count == gifteroids@.len(),
            gifteroids@.len() == old(gifteroids)@.len(),
            forall|k: int|
                0 <= k < old(gifteroids)@.len() ==> (#[trigger] old(gifteroids)@[k]).obb.wf(),
            forall|k: int|
                0 <= k < i ==> #[trigger] gifteroids@[k] == wrapped_gifteroid(
                    *camera,
                    old(gifteroids)@[k],
                ),
            forall|k: int|
                0 <= k < i && (#[trigger] old(gifteroids)@[k]).wf() ==> gifteroids@[k].wf(),
            forall|k: int| i <= k < count ==> #[trigger] gifteroids@[k] == old(gifteroids)@[k],
        decreases count - i,
    {
        let mut gifteroid = gifteroids[i];
        assert(gifteroid == old(gifteroids)@[i as int]);
        let max_axis_step = gifteroid.obb.half_extent();
        gifteroid.position = wrap_position(
            camera,
            gifteroid.position,
            max_axis_step,
            max_axis_step,
        );
        gifteroids.set(i, gifteroid);
        i = i + 1;
    }
}

/// A gifteroid that a snowball destroyed: the places of both in their
/// lists, the event, and the two gifteroids that take its place, if any.
#[derive(Clone, Copy, Debug, PartialEq, Eq)]
pub struct SnowballHit {
    pub gifteroid: usize,
    pub snowball: usize,
    pub event: GifteroidDestroyedEvent,
    pub children: Option<(GifteroidSpawn, GifteroidSpawn)>,
}

impl SnowballHit {
    /// The two requests that take the place of `parent` as it splits into
    /// gifteroids of the size `size`, in a frame that began with `live`
    /// gifteroids: both start where the parent was, and their headings are
    /// the first four words of the stream of `live`, for each the movement
    /// heading first.
    pub open spec fn split(parent: Gifteroid, size: GifteroidSize, live: nat) -> (
        GifteroidSpawn,
        GifteroidSpawn,
    ) {
        (
            GifteroidSpawn::of_words(
                parent.position,
                size,
                stream_word(live as u64, 0),
                stream_word(live as u64, 1),
            ),
            GifteroidSpawn::of_words(
                parent.position,
                size,
                stream_word(live as u64, 2),
                stream_word(live as u64, 3),
            ),
        )
    }

    /// Whether this is the record of a hit among the given gifteroids and
    /// snowballs: the gifteroid is hit, by this snowball before any other;
    /// the event tells whether it was of the last size; and unless it was,
    /// it has the two children of its split.
    pub open spec fn records(self, gifteroids: Seq<Gifteroid>, snowballs: Seq<Snowball>) -> bool {
        &&& self.gifteroid < gifteroids.len()
        &&& gifteroids[self.gifteroid as int].first_hit_is(snowballs, self.snowball as int)
        &&& self.event.split_in_two == (gifteroids[self.gifteroid as int].size
            == GifteroidSize::Small)
        &&& self.children == match gifteroids[self.gifteroid as int].size.next() {
            Some(size) => Some(
                Self::split(gifteroids[self.gifteroid as int], size, gifteroids.len()),
            ),
            None => None,
        }
    }
}

/// What a hit leaves behind goes by the size of the gifteroid: a large one
/// leaves two medium ones and a medium one two small ones, where it was,
/// each at half its scale and faster by the base speed; a small one leaves
/// nothing, and only its event is marked as the last.
pub proof fn lemma_split_by_size(
    hit: SnowballHit,
    gifteroids: Seq<Gifteroid>,
    snowballs: Seq<Snowball>,
)
    requires
        hit.records(gifteroids, snowballs),
    ensures
        ({
            let parent = gifteroids[hit.gifteroid as int];
            match parent.size {
                GifteroidSize::Small => hit.children.is_none() && hit.event.split_in_two,
                size => {
                    &&& !hit.event.split_in_two
                    &&& hit.children matches Some((first, second))
                    &&& first.size == second.size
                    &&& first.size.index() == size.index() + 1
                    &&& 2 * first.size.scale() == size.scale()
                    &&& first.size.speed() == size.speed() + GIFTEROIDS_BASE_SPEED
                    &&& first.position == parent.position
                    &&& second.position == parent.position
                },
            }
        }),
{
    let parent = gifteroids[hit.gifteroid as int];
    if parent.size != GifteroidSize::Small {
        lemma_size_step(parent.size);
    }
}

/// A gifteroid of which some part is in the viewport's range on each axis
/// is left where it is by the wrap.
pub proof fn lemma_gifteroid_in_view_stays(camera: Viewport, gifteroid: Gifteroid)
    requires
        gifteroid.position.x + gifteroid.obb.reach().x >= camera.left,
        gifteroid.position.x - gifteroid.obb.reach().x <= camera.right,
        gifteroid.position.y + gifteroid.obb.reach().y >= camera.bottom,
        gifteroid.position.y - gifteroid.obb.reach().y <= camera.top,
    ensures
        wrapped_gifteroid(camera, gifteroid) == gifteroid,
{
    lemma_visible_stays(
        camera,
        gifteroid.position@,
        gifteroid.obb.reach(),
        gifteroid.obb.reach(),
    );
}

/// The places of the gifteroids of the given hits.
pub open spec fn hit_gifteroids(hits: Seq<SnowballHit>) -> Seq<usize> {
    Seq::new(hits.len(), |k: int| hits[k].gifteroid)
}

/// The places of the snowballs of the given hits.
pub open spec fn hit_snowballs(hits: Seq<SnowballHit>) -> Seq<usize> {
    Seq::new(hits.len(), |k: int| hits[k].snowball)
}

/// The seed from which the children of the gifteroids that are destroyed
/// in one frame are drawn: the number of gifteroids on the field as the
/// frame begins.
pub fn split_seed(live_gifteroids: usize) -> (seed: u64)
    ensures
        seed == live_gifteroids,
{
    live_gifteroids as u64
}

/// The place of the first snowball inside the gifteroid's box, if there is
/// one.
pub fn first_snowball_inside(gifteroid: &Gifteroid, snowballs: &Vec<Snowball>) -> (found: Option<
    usize,
>)
    ensures
        match found {
            Some(j) => gifteroid.first_hit_is(snowballs@, j as int),
            None => !gifteroid.hit_by_any(snowballs@),
        },
{
    let mut j: usize = 0;
    while j < snowballs.len()
        invariant
            j <= snowballs@.len(),
            forall|k: int| 0 <= k < j ==> !gifteroid.hit_by(#[trigger] snowballs@[k]),
        decreases snowballs@.len() - j,
    {
        if point_in_obb(&gifteroid.obb, snowballs[j].position, gifteroid.position) {
            return Some(j);
        }
        j = j + 1;
    }
    None
}

/// Whether `hits` is what the pass of the snowballs over the gifteroids
/// tells: each is the record of a hit, they come in the order of the
/// gifteroids, and no gifteroid that is hit is left out.
pub open spec fn tells_the_hits(
    hits: Seq<SnowballHit>,
    gifteroids: Seq<Gifteroid>,
    snowballs: Seq<Snowball>,
) -> bool {
    &&& forall|k: int| 0 <= k < hits.len() ==> (#[trigger] hits[k]).records(gifteroids, snowballs)
    &&& forall|j: int, k: int|
        #![trigger hits[j], hits[k]]
        0 <= j < k < hits.len() ==> hits[j].gifteroid < hits[k].gifteroid
    &&& forall|i: int|
        0 <= i < gifteroids.len() && (#[trigger] gifteroids[i]).hit_by_any(snowballs)
            ==> hit_gifteroids(hits).contains(i as usize)
}

/// Two records of a hit on one gifteroid are the same record: the snowball,
/// the event and the children are all decided by the lists.
pub proof fn lemma_record_is_decided(
    first: SnowballHit,
    second: SnowballHit,
    gifteroids: Seq<Gifteroid>,
    snowballs: Seq<Snowball>,
)
    requires
        first.records(gifteroids, snowballs),
        second.records(gifteroids, snowballs),
        first.gifteroid == second.gifteroid,
    ensures
        first == second,
{
    let parent = gifteroids[first.gifteroid as int];
    if first.snowball < second.snowball {
        assert(!parent.hit_by(snowballs[first.snowball as int]));
    }
    if second.snowball < first.snowball {
        assert(!parent.hit_by(snowballs[second.snowball as int]));
    }
}

/// Of two lists that tell the hits of one pass, the second is at least as
/// long as any start of the first, and holds the same gifteroids there.
proof fn lemma_same_places(
    first: Seq<SnowballHit>,
    second: Seq<SnowballHit>,
    gifteroids: Seq<Gifteroid>,
    snowballs: Seq<Snowball>,
    count: nat,
)
    requires
        tells_the_hits(first, gifteroids, snowballs),
        tells_the_hits(second, gifteroids, snowballs),
        count <= first.len(),
    ensures
        count <= second.len(),
        forall|j: int| 0 <= j < count ==> (#[trigger] first[j]).gifteroid == second[j].gifteroid,
    decreases count,
{
    if count > 0 {
        lemma_same_places(first, second, gifteroids, snowballs, (count - 1) as nat);
        let last = count - 1;
        let place = first[last].gifteroid;
        assert(first[last].records(gifteroids, snowballs));
        assert(gifteroids[place as int].hit_by(snowballs[first[last].snowball as int]));
        assert(gifteroids[place as int].hit_by_any(snowballs));
        assert(hit_gifteroids(second).contains(place));
        let m = choose|m: int|
            0 <= m < hit_gifteroids(second).len() && hit_gifteroids(second)[m] == place;
        assert(second[m].gifteroid == place);
        if m < last {
            assert(first[m].gifteroid == second[m].gifteroid);
            assert(first[m].gifteroid < first[last].gifteroid);
        }
        assert(last <= m);
        if last < m {
            let other = second[last].gifteroid;
            assert(second[last].gifteroid < second[m].gifteroid);
            assert(second[last].records(gifteroids, snowballs));
            assert(gifteroids[other as int].hit_by(snowballs[second[last].snowball as int]));
            assert(gifteroids[other as int].hit_by_any(snowballs));
            assert(hit_gifteroids(first).contains(other));
            let n = choose|n: int|
                0 <= n < hit_gifteroids(first).len() && hit_gifteroids(first)[n] == other;
            assert(first[n].gifteroid == other);
            if n < last {
                assert(first[n].gifteroid == second[n].gifteroid);
                assert(second[n].gifteroid < second[last].gifteroid);
            } else if n > last {
                assert(first[last].gifteroid < first[n].gifteroid);
            }
        }
    }
}

/// The pass is decided by the lists: two lists that tell the hits of the
/// same gifteroids and snowballs are the same list, children and all.  So
/// a pass that is made again on the same lists hits, destroys and spawns
/// the same.
pub proof fn lemma_pass_is_decided(
    first: Seq<SnowballHit>,
    second: Seq<SnowballHit>,
    gifteroids: Seq<Gifteroid>,
    snowballs: Seq<Snowball>,
)
    requires
        tells_the_hits(first, gifteroids, snowballs),
        tells_the_hits(second, gifteroids, snowballs),
    ensures
        first == second,
{
    lemma_same_places(first, second, gifteroids, snowballs, first.len());
    lemma_same_places(second, first, gifteroids, snowballs, second.len());
    assert forall|k: int| 0 <= k < first.len() implies first[k] == second[k] by {
        assert(first[k].gifteroid == second[k].gifteroid);
        lemma_record_is_decided(first[k], second[k], gifteroids, snowballs);
    }
    assert(first =~= second);
}

/// The pass of the snowballs over the gifteroids.  It changes nothing and
/// tells what was hit: one record for each gifteroid that has a snowball in
/// its box, in the order of the gifteroids.  A gifteroid is destroyed by
/// the first such snowball and is not tested against the others.  Two
/// children take the place of one that is not of the last size; their
/// headings are drawn from a generator that is seeded afresh for each pair
/// with the number of gifteroids given, so all pairs of one frame are
/// headed alike.
pub fn gifteroid_snowball_collision(gifteroids: &Vec<Gifteroid>, snowballs: &Vec<Snowball>) -> (hits:
    Vec<SnowballHit>)
    ensures
        tells_the_hits(hits@, gifteroids@, snowballs@),
{
    let seed: u64 = split_seed(gifteroids.len());
    let mut hits: Vec<SnowballHit> = Vec::new();
    let mut i: usize = 0;
    while i < gifteroids.len()
        invariant
            i <= gifteroids@.len(),
            seed == gifteroids@.len() as u64,
            forall|k: int|
                0 <= k < hits@.len() ==> (#[trigger] hits@[k]).records(gifteroids@, snowballs@)
                    && hits@[k].gifteroid < i,
            forall|j: int, k: int|
                0 <= j < k < hits@.len() ==> hits@[j].gifteroid < hits@[k].gifteroid,
            forall|n: int|
                0 <= n < i && (#[trigger] gifteroids@[n]).hit_by_any(snowballs@) ==> hit_gifteroids(
                    hits@,
                ).contains(n as usize),
        decreases gifteroids@.len() - i,
    {
        let gifteroid = gifteroids[i];
        if let Some(j) = first_snowball_inside(&gifteroid, snowballs) {
            let children = match gifteroid.size.smaller() {
                Some(new_size) => {
                    let mut rng = SeededRng::seeded(seed);
                    let first = spawn_gifteroid(gifteroid.position, &mut rng, new_size);
                    let second = spawn_gifteroid(gifteroid.position, &mut rng, new_size);
                    Some((first, second))
                },
                None => None,
            };
            let hit = SnowballHit {
                gifteroid: i,
                snowball: j,
                event: GifteroidDestroyedEvent {
                    split_in_two: matches!(gifteroid.size, GifteroidSize::Small),
                },
                children,
            };
            let ghost before = hits@;
            hits.push(hit);
            proof {
                assert(hits@[before.len() as int] == hit);
                assert forall|n: int|
                    0 <= n < i + 1 && (#[trigger] gifteroids@[n]).hit_by_any(
                        snowballs@,
                    ) implies hit_gifteroids(hits@).contains(n as usize) by {
                    if n < i {
                        let k = choose|k: int|
                            0 <= k < hit_gifteroids(before).len() && hit_gifteroids(before)[k]
                                == n as usize;
                        assert(hit_gifteroids(hits@)[k] == n as usize);
                    } else {
                        assert(hit_gifteroids(hits@)[before.len() as int] == n as usize);
                    }
                }
            }
        }
        i = i + 1;
    }
    hits
}

/// The second pass: takes the gifteroids and the snowballs of the given
/// hits off their lists.  The others keep their order.  The children of
/// the hits are not put on the list; they are placed by the caller.
pub fn apply_snowball_hits(
    gifteroids: &mut Vec<Gifteroid>,
    snowballs: &mut Vec<Snowball>,
    hits: &Vec<SnowballHit>,
)
    ensures
        final(gifteroids)@ == without(old(gifteroids)@, hit_gifteroids(hits@)),
        final(snowballs)@ == without(old(snowballs)@, hit_snowballs(hits@)),
{
    let mut gone_gifteroids: Vec<usize> = Vec::new();
    let mut gone_snowballs: Vec<usize> = Vec::new();
    let mut k: usize = 0;
    while k < hits.len()
        invariant
            k <= hits@.len(),
            gone_gifteroids@ == hit_gifteroids(hits@.subrange(0, k as int)),
            gone_snowballs@ == hit_snowballs(hits@.subrange(0, k as int)),
        decreases hits@.len() - k,
    {
        gone_gifteroids.push(hits[k].gifteroid);
        gone_snowballs.push(hits[k].snowball);
        proof {
            assert(gone_gifteroids@ =~= hit_gifteroids(hits@.subrange(0, k + 1)));
            assert(gone_snowballs@ =~= hit_snowballs(hits@.subrange(0, k + 1)));
        }
        k = k + 1;
    }
    assert(hits@.subrange(0, hits@.len() as int) == hits@);
    let left_gifteroids = despawn(gifteroids, &gone_gifteroids);
    let left_snowballs = despawn(snowballs, &gone_snowballs);
    *gifteroids = left_gifteroids;
    *snowballs = left_snowballs;
}

/// Whether the segment from `start` to `end` crosses an edge of the box
/// with the given corners.
fn edge_hits_box(start: Vec2, end: Vec2, corners: &(Vec2, Vec2, Vec2, Vec2)) -> (crossing: bool)
    ensures
        crossing == edge_crosses_box(
            start@,
            end@,
            (corners.0@, corners.1@, corners.2@, corners.3@),
        ),
{
    line_line_test(start, end, corners.0, corners.1) || line_line_test(
        start,
        end,
        corners.1,
        corners.2,
    ) || line_line_test(start, end, corners.2, corners.3) || line_line_test(
        start,
        end,
        corners.3,
        corners.0,
    )
}

/// Whether a gifteroid among `gifteroids` touches the ship's triangle.
pub open spec fn ship_touched(gifteroids: Seq<Gifteroid>, transform: Transform) -> bool {
    exists|i: int|
        0 <= i < gifteroids.len() && (#[trigger] gifteroids[i]).touches(
            SpaceShip::triangle(transform),
        )
}

/// The pass of the gifteroids over the ship.  A ship in the state `Normal`
/// whose triangle is touched by a gifteroid is destroyed: its state becomes
/// `Destroyed`, and the event tells the lives it had left.  A ship that is
/// spared or already destroyed is not tested, and nothing changes.
pub fn gifteroid_spaceship_collision(
    gifteroids: &Vec<Gifteroid>,
    transform: &Transform,
    spaceship: &mut SpaceShip,
) -> (destroyed: Option<SpaceShipDestroyedEvent>)
    requires
        transform.wf(),
        forall|i: int| 0 <= i < gifteroids@.len() ==> (#[trigger] gifteroids@[i]).wf(),
    ensures
        destroyed.is_some() == (old(spaceship).state.vulnerable() && ship_touched(
            gifteroids@,
            *transform,
        )),
        destroyed matches Some(event) ==> event.lives_left_before_destroy
            == old(spaceship).lives_left,
        final(spaceship).state == if destroyed.is_some() {
            SpaceShipState::Destroyed
        } else {
            old(spaceship).state
        },
        final(spaceship).lives_left == old(spaceship).lives_left,
{
    match spaceship.state {
        SpaceShipState::Invincible(_) | SpaceShipState::Destroyed => {
            return None;
        },
        SpaceShipState::Normal => {},
    }
    let (tri_a, tri_b, tri_c) = SpaceShip::bounding_triangle(transform);
    let mut i: usize = 0;
    while i < gifteroids.len()
        invariant
            i <= gifteroids@.len(),
            transform.wf(),
            (tri_a@, tri_b@, tri_c@) == SpaceShip::triangle(*transform),
            forall|k: int| 0 <= k < gifteroids@.len() ==> (#[trigger] gifteroids@[k]).wf(),
            forall|k: int|
                0 <= k < i ==> !(#[trigger] gifteroids@[k]).touches(SpaceShip::triangle(*transform)),
            *spaceship == *old(spaceship),
            spaceship.state.vulnerable(),
        decreases gifteroids@.len() - i,
    {
        let gifteroid = gifteroids[i];
        let corners = gifteroid.obb.corners_at(gifteroid.position);
        if edge_hits_box(tri_a, tri_b, &corners) || edge_hits_box(tri_b, tri_c, &corners)
            || edge_hits_box(tri_c, tri_a, &corners) {
            assert(gifteroids@[i as int].touches(SpaceShip::triangle(*transform)));
            let lives_left_before_destroy: u32 = spaceship.lives_left;
            spaceship.state = SpaceShipState::Destroyed;
            return Some(SpaceShipDestroyedEvent { lives_left_before_destroy });
        }
        i = i + 1;
    }
    None
}

/// The state that follows once no gifteroid is left: the round is won.
pub fn check_win_condition(gifteroids: &Vec<Gifteroid>) -> (next: Option<GameState>)
    ensures
        next == if gifteroids@.len() == 0 {
            Some(GameState::Highscore)
        } else {
            None
        },
{
    if gifteroids.len() == 0 {
        Some(GameState::Highscore)
    } else {
        None
    }
}

} // verus!
