//! Santas: they cross the field from one side to the other, drop
//! gifteroids on their way, and can be shot down.
use vstd::prelude::*;
use crate::geometry::{MovementSpeed, Vec2};
use crate::gifteroids::{spawn_gifteroid, GifteroidSize, GifteroidSpawn};
use crate::random::{
    sign_from_word, span_from_word, stream_word, word_fraction, word_is_negative, word_span,
    SeededRng,
};
use crate::spaceship::Snowball;

verus! {

/// The side of the santa sprite, in units: 128 pixels.
pub const SANTA_SPRITE_SIZE: i32 = 512_000;

/// Half the width of the box by which a santa is hit: half the sprite.
pub const SANTA_HALF_WIDTH: i32 = 256_000;

/// Half the height of the box by which a santa is hit: an eighth of the
/// sprite.
pub const SANTA_HALF_HEIGHT: i32 = 64_000;

/// The speed of a santa, in units per second: 300 pixels.
pub const SANTA_SPEED: i32 = 1_200_000;

/// The time between two santas: eight seconds.
pub const SECONDS_BETWEEN_SPAWNS: u64 = 8_000_000_000;

/// The time between two gifteroids of one santa: eight tenths of a second.
pub const SECONDS_BETWEEN_GIFTEROID_SPAWN: u64 = 800_000_000;

/// What is added to the number of a santa to seed its spawn.
pub const SANTA_SEED_OFFSET: u64 = 12345;

/// Largest screen size, on each axis, that santas are spawned on.
pub const SCREEN_LIMIT: i32 = 0x4000_0000;

/// Tells that a santa was destroyed.
#[derive(Clone, Copy, Debug, PartialEq, Eq, Structural)]
pub struct SantaDestroyedEvent;

/// When the last santa was spawned, and how many there were.
#[derive(Clone, Copy, Debug, PartialEq, Eq, Structural)]
pub struct SantaSpawner {
    pub last_spawn: u64,
    pub gen_number: u64,
}

#[derive(Clone, Copy, Debug, PartialEq, Eq, Structural)]
pub struct Santa {
    pub last_gifteroid_spawn: u64,
    /// The seed of the santa's last gifteroid; it grows by one with each.
    pub gen_number: u64,
    pub position: Vec2,
    pub movement: MovementSpeed,
    /// Whether the santa came in from the left and faces right.
    pub from_left: bool,
}

impl Santa {
    /// Whether the snowball is inside the santa's box, its edges counted.
    pub open spec fn hit_by(self, snowball: Snowball) -> bool {
        &&& self.position.x - SANTA_HALF_WIDTH <= snowball.position.x <= self.position.x
            + SANTA_HALF_WIDTH
        &&& self.position.y - SANTA_HALF_HEIGHT <= snowball.position.y <= self.position.y
            + SANTA_HALF_HEIGHT
    }

    /// Whether the santa has left a screen of the given width by more than
    /// its sprite.
    pub open spec fn gone(self, screen_width: int) -> bool {
        let half = screen_width / 2;
        self.position.x > half + SANTA_SPRITE_SIZE || self.position.x < -half - SANTA_SPRITE_SIZE
    }

    /// The santa with the number `gen_number` that enters a screen of the
    /// given size at the time `now`: it starts half a sprite outside the
    /// screen, on the left if `left`, and flies across; `height` is where
    /// between the top and the bottom.
    pub open spec fn entering(
        screen_size: Vec2,
        now: u64,
        gen_number: u64,
        left: bool,
        height: int,
    ) -> Santa {
        let x_pos = (screen_size.x + SANTA_SPRITE_SIZE) / 2;
        Santa {
            last_gifteroid_spawn: now,
            gen_number: (gen_number * 10) as u64,
            position: Vec2 { x: (if left { -x_pos } else { x_pos }) as i32, y: height as i32 },
            movement: MovementSpeed(
                Vec2 { x: if left { SANTA_SPEED } else { (-SANTA_SPEED) as i32 }, y: 0 },
            ),
            from_left: left,
        }
    }
}

impl Santa {
    /// The santa that two words of the generator stand for: the first
    /// gives the side, the second the height within the reach.
    pub open spec fn of_words(
        screen_size: Vec2,
        now: u64,
        gen_number: u64,
        side_word: u32,
        height_word: u32,
    ) -> Santa {
        Santa::entering(
            screen_size,
            now,
            gen_number,
            word_is_negative(side_word),
            word_span(
                -entry_reach(screen_size.y as int),
                entry_reach(screen_size.y as int),
                height_word,
            ),
        )
    }
}

/// How far from the middle a santa may enter a screen of the given height:
/// it keeps half a sprite from the top and from the bottom.
pub open spec fn entry_reach(screen_height: int) -> int {
    (screen_height - SANTA_SPRITE_SIZE) / 2
}

/// The spawner at the start of a round.
pub fn santa_reset_timer(now: u64) -> (spawner: SantaSpawner)
    ensures
        spawner.last_spawn == now,
        spawner.gen_number == 0,
{
    SantaSpawner { last_spawn: now, gen_number: 0 }
}

/// Whether a santa is due at the time `now`.
pub open spec fn santa_due(spawner: SantaSpawner, now: u64) -> bool {
    now - spawner.last_spawn >= SECONDS_BETWEEN_SPAWNS
}

/// The santa that two words of the generator stand for: the first gives
/// the side, the second the height.
pub fn santa_from_words(
    screen_size: Vec2,
    now: u64,
    gen_number: u64,
    side_word: u32,
    height_word: u32,
) -> (santa: Santa)
    requires
        SANTA_SPRITE_SIZE < screen_size.y <= SCREEN_LIMIT,
        0 <= screen_size.x <= SCREEN_LIMIT,
        gen_number <= u64::MAX / 10,
    ensures
        santa == Santa::of_words(screen_size, now, gen_number, side_word, height_word),
{
    let left = sign_from_word(side_word);
    let reach: i32 = (screen_size.y - SANTA_SPRITE_SIZE) / 2;
    let height: i32 = if reach > 0 {
        span_from_word(-reach, reach, height_word)
    } else {
        proof {
            lemma_empty_span(height_word);
        }
        0
    };
    enter(screen_size, now, gen_number, left, height)
}

/// A span from zero to zero is zero.
proof fn lemma_empty_span(word: u32)
    ensures
        word_span(0, 0, word) == 0,
{
    assert(0 * word_fraction(word) == 0);
}

fn enter(screen_size: Vec2, now: u64, gen_number: u64, left: bool, height: i32) -> (santa: Santa)
    requires
        0 <= screen_size.x <= SCREEN_LIMIT,
        gen_number <= u64::MAX / 10,
    ensures
        santa == Santa::entering(screen_size, now, gen_number, left, height as int),
{
    let x_pos: i32 = (screen_size.x + SANTA_SPRITE_SIZE) / 2;
    Santa {
        last_gifteroid_spawn: now,
        gen_number: gen_number * 10,
        position: Vec2 { x: if left { -x_pos } else { x_pos }, y: height },
        movement: MovementSpeed(Vec2 { x: if left { SANTA_SPEED } else { -SANTA_SPEED }, y: 0 }),
        from_left: left,
    }
}

/// The seed of the santa with the number `gen_number`.
pub open spec fn santa_seed(gen_number: u64) -> u64 {
    (SANTA_SEED_OFFSET + gen_number) as u64
}

/// One frame of the spawner.  Once `SECONDS_BETWEEN_SPAWNS` have passed
/// since the last santa, the next one enters, on a side and at a height
/// that are the first two words of the stream of its seed: the side first.
pub fn santa_spawn(spawn_timer: &mut SantaSpawner, now: u64, screen_size: Vec2) -> (spawned: Option<
    Santa,
>)
    requires
        old(spawn_timer).last_spawn <= now,
        old(spawn_timer).gen_number < u64::MAX / 10,
        SANTA_SPRITE_SIZE < screen_size.y <= SCREEN_LIMIT,
        0 <= screen_size.x <= SCREEN_LIMIT,
    ensures
        spawned.is_some() == santa_due(*old(spawn_timer), now),
        *final(spawn_timer) == if santa_due(*old(spawn_timer), now) {
            SantaSpawner { last_spawn: now, gen_number: (old(spawn_timer).gen_number + 1) as u64 }
        } else {
            *old(spawn_timer)
        },
        spawned == if santa_due(*old(spawn_timer), now) {
            Some(
                Santa::of_words(
                    screen_size,
                    now,
                    final(spawn_timer).gen_number,
                    stream_word(santa_seed(final(spawn_timer).gen_number), 0),
                    stream_word(santa_seed(final(spawn_timer).gen_number), 1),
                ),
            )
        } else {
            None
        },
{
    if now - spawn_timer.last_spawn < SECONDS_BETWEEN_SPAWNS {
        return None;
    }
    spawn_timer.last_spawn = now;
    spawn_timer.gen_number = spawn_timer.gen_number + 1;
    let mut rng = SeededRng::seeded(SANTA_SEED_OFFSET + spawn_timer.gen_number);
    let side_word: u32 = rng.next_word();
    let height_word: u32 = rng.next_word();
    Some(santa_from_words(screen_size, now, spawn_timer.gen_number, side_word, height_word))
}

/// Whether the santa drops a gifteroid at the time `now`.
pub open spec fn gifteroid_due(santa: Santa, now: u64) -> bool {
    now - santa.last_gifteroid_spawn > SECONDS_BETWEEN_GIFTEROID_SPAWN
}

/// One frame of a santa.  Once more than `SECONDS_BETWEEN_GIFTEROID_SPAWN`
/// have passed since its last gifteroid, it drops a medium one where it is.
/// The santa's number grows by one, and the headings are the first two
/// words of the stream of that number.
pub fn santa_shoot(santa: &mut Santa, now: u64) -> (dropped: Option<GifteroidSpawn>)
    requires
        old(santa).last_gifteroid_spawn <= now,
        old(santa).gen_number < u64::MAX,
    ensures
        dropped.is_some() == gifteroid_due(*old(santa), now),
        *final(santa) == if gifteroid_due(*old(santa), now) {
            Santa {
                last_gifteroid_spawn: now,
                gen_number: (old(santa).gen_number + 1) as u64,
                ..*old(santa)
            }
        } else {
            *old(santa)
        },
        dropped == if gifteroid_due(*old(santa), now) {
            Some(
                GifteroidSpawn::of_words(
                    old(santa).position,
                    GifteroidSize::Medium,
                    stream_word(final(santa).gen_number, 0),
                    stream_word(final(santa).gen_number, 1),
                ),
            )
        } else {
            None
        },
        dropped matches Some(spawn) ==> spawn.wf(),
{
    if now - santa.last_gifteroid_spawn > SECONDS_BETWEEN_GIFTEROID_SPAWN {
        santa.last_gifteroid_spawn = now;
        santa.gen_number = santa.gen_number + 1;
        let mut rng = SeededRng::seeded(santa.gen_number);
        Some(spawn_gifteroid(santa.position, &mut rng, GifteroidSize::Medium))
    } else {
        None
    }
}

/// A snowball inside the box of a santa, by the places of both in their
/// lists.
#[derive(Clone, Copy, Debug, PartialEq, Eq, Structural)]
pub struct SantaHit {
    pub santa: usize,
    pub snowball: usize,
}

impl SantaHit {
    /// Whether this hit comes before `other`: by the santa, then by the
    /// snowball.
    pub open spec fn before(self, other: SantaHit) -> bool {
        self.santa < other.santa || (self.santa == other.santa && self.snowball < other.snowball)
    }
}

/// The pass of the snowballs over the santas.  It changes nothing and
/// tells what was hit: every pair of a santa and a snowball inside its
/// box, santa by santa.  Each pair removes both and stands for one
/// `SantaDestroyedEvent`.
pub fn santa_snowball_collision(santas: &Vec<Santa>, snowballs: &Vec<Snowball>) -> (hits: Vec<
    SantaHit,
>)
    ensures
        forall|k: int|
            0 <= k < hits@.len() ==> {
                &&& (#[trigger] hits@[k]).santa < santas@.len()
                &&& hits@[k].snowball < snowballs@.len()
                &&& santas@[hits@[k].santa as int].hit_by(snowballs@[hits@[k].snowball as int])
            },
        forall|j: int, k: int| 0 <= j < k < hits@.len() ==> hits@[j].before(hits@[k]),
        forall|i: int, j: int|
            0 <= i < santas@.len() && 0 <= j < snowballs@.len() && (#[trigger] santas@[i]).hit_by(
                #[trigger] snowballs@[j],
            ) ==> hits@.contains(SantaHit { santa: i as usize, snowball: j as usize }),
{
    let mut hits: Vec<SantaHit> = Vec::new();
    let mut i: usize = 0;
    while i < santas.len()
        invariant
            i <= santas@.len(),
            forall|k: int|
                0 <= k < hits@.len() ==> {
                    &&& (#[trigger] hits@[k]).santa < i
                    &&& hits@[k].snowball < snowballs@.len()
                    &&& santas@[hits@[k].santa as int].hit_by(snowballs@[hits@[k].snowball as int])
                },
            forall|j: int, k: int| 0 <= j < k < hits@.len() ==> hits@[j].before(hits@[k]),
            forall|n: int, j: int|
                0 <= n < i && 0 <= j < snowballs@.len() && (#[trigger] santas@[n]).hit_by(
                    #[trigger] snowballs@[j],
                ) ==> hits@.contains(SantaHit { santa: n as usize, snowball: j as usize }),
        decreases santas@.len() - i,
    {
        let santa = santas[i];
        let mut j: usize = 0;
        while j < snowballs.len()
            invariant
                i < santas@.len(),
                santa == santas@[i as int],
                j <= snowballs@.len(),
                forall|k: int|
                    0 <= k < hits@.len() ==> {
                        &&& (#[trigger] hits@[k]).santa <= i
                        &&& hits@[k].santa == i ==> hits@[k].snowball < j
                        &&& hits@[k].snowball < snowballs@.len()
                        &&& santas@[hits@[k].santa as int].hit_by(
                            snowballs@[hits@[k].snowball as int],
                        )
                    },
                forall|a: int, b: int| 0 <= a < b < hits@.len() ==> hits@[a].before(hits@[b]),
                forall|n: int, m: int|
                    0 <= n < i && 0 <= m < snowballs@.len() && (#[trigger] santas@[n]).hit_by(
                        #[trigger] snowballs@[m],
                    ) ==> hits@.contains(SantaHit { santa: n as usize, snowball: m as usize }),
                forall|m: int|
                    0 <= m < j && santa.hit_by(#[trigger] snowballs@[m]) ==> hits@.contains(
                        SantaHit { santa: i, snowball: m as usize },
                    ),
            decreases snowballs@.len() - j,
        {
            if inside_santa(&santa, &snowballs[j]) {
                let ghost earlier = hits@;
                let hit = SantaHit { santa: i, snowball: j };
                hits.push(hit);
                proof {
                    assert(hits@[earlier.len() as int] == hit);
                    assert forall|n: int, m: int|
                        0 <= n < i && 0 <= m < snowballs@.len() && (#[trigger] santas@[n]).hit_by(
                            #[trigger] snowballs@[m],
                        ) implies hits@.contains(
                        SantaHit { santa: n as usize, snowball: m as usize },
                    ) by {
                        let wanted = SantaHit { santa: n as usize, snowball: m as usize };
                        let k = choose|k: int| 0 <= k < earlier.len() && earlier[k] == wanted;
                        assert(hits@[k] == wanted);
                    }
                    assert forall|m: int|
                        0 <= m < j + 1 && santa.hit_by(
                            #[trigger] snowballs@[m],
                        ) implies hits@.contains(SantaHit { santa: i, snowball: m as usize }) by {
                        let wanted = SantaHit { santa: i, snowball: m as usize };
                        if m < j {
                            let k = choose|k: int| 0 <= k < earlier.len() && earlier[k] == wanted;
                            assert(hits@[k] == wanted);
                        } else {
                            assert(hits@[earlier.len() as int] == wanted);
                        }
                    }
                }
            }
            j = j + 1;
        }
        i = i + 1;
    }
    hits
}

/// Whether the snowball is inside the santa's box.
fn inside_santa(santa: &Santa, snowball: &Snowball) -> (inside: bool)
    ensures
        inside == santa.hit_by(*snowball),
{
    let dx: i64 = snowball.position.x as i64 - santa.position.x as i64;
    let dy: i64 = snowball.position.y as i64 - santa.position.y as i64;
    -(SANTA_HALF_WIDTH as i64) <= dx && dx <= SANTA_HALF_WIDTH as i64 && -(SANTA_HALF_HEIGHT as i64)
        <= dy && dy <= SANTA_HALF_HEIGHT as i64
}

/// The santas that have left a screen of the given width, by their places
/// in `santas`, in rising order.
pub fn santa_despawn(santas: &Vec<Santa>, screen_width: i32) -> (left: Vec<usize>)
    requires
        0 <= screen_width,
    ensures
        forall|k: int|
            0 <= k < left@.len() ==> #[trigger] left@[k] < santas@.len() && santas@[left@[k] as int].gone(
                screen_width as int,
            ),
        forall|j: int, k: int| 0 <= j < k < left@.len() ==> left@[j] < left@[k],
        forall|i: int|
            0 <= i < santas@.len() && (#[trigger] santas@[i]).gone(screen_width as int)
                ==> left@.contains(i as usize),
{
    let half: i64 = (screen_width / 2) as i64;
    let mut left: Vec<usize> = Vec::new();
    let mut i: usize = 0;
    while i < santas.len()
        invariant
            i <= santas@.len(),
            half == screen_width as int / 2,
            forall|k: int|
                0 <= k < left@.len() ==> #[trigger] left@[k] < i && santas@[left@[k] as int].gone(
                    screen_width as int,
                ),
            forall|j: int, k: int| 0 <= j < k < left@.len() ==> left@[j] < left@[k],
            forall|n: int|
                0 <= n < i && (#[trigger] santas@[n]).gone(screen_width as int) ==> left@.contains(
                    n as usize,
                ),
        decreases santas@.len() - i,
    {
        let x: i64 = santas[i].position.x as i64;
        if x > half + SANTA_SPRITE_SIZE as i64 || x < -half - SANTA_SPRITE_SIZE as i64 {
            let ghost earlier = left@;
            left.push(i);
            proof {
                assert(left@[earlier.len() as int] == i);
                assert forall|n: int|
                    0 <= n < i + 1 && (#[trigger] santas@[n]).gone(
                        screen_width as int,
                    ) implies left@.contains(n as usize) by {
                    if n < i {
                        let k = choose|k: int| 0 <= k < earlier.len() && earlier[k] == n as usize;
                        assert(left@[k] == n as usize);
                    }
                }
            }
        }
        i = i + 1;
    }
    left
}

} // verus!
