use gifteroids::geometry::{Direction, MovementSpeed, Vec2, Viewport};
use gifteroids::spaceship::{
    invincibility, on_space_ship_destroy, screen_wrap_space_ship, snowballs_screen_wrap,
    snowballs_shoot, snowballs_timeout, spawn_spaceship, Snowball, SnowballShootingCooldown,
    SpaceShip, SpaceShipDestroyedEvent, SpaceShipState, Transform, NUM_LIVES_ON_STARTUP,
    SNOWBALL_COOLDOWN, SNOWBALL_MAX_LIFE_TIME, SPAWN_INVINCIBLE_TIMER,
};

fn camera() -> Viewport {
    Viewport { left: -2_560_000, right: 2_560_000, top: 1_440_000, bottom: -1_440_000 }
}

fn ship_at(x: i32, y: i32, forward: (i32, i32)) -> Transform {
    Transform {
        position: Vec2 { x, y },
        forward: Direction::new(forward.0, forward.1).unwrap(),
        scale: 2,
    }
}

fn snowball_at(x: i32, y: i32, spawn_time: u64) -> Snowball {
    Snowball {
        spawn_time,
        position: Vec2 { x, y },
        movement: MovementSpeed(Vec2 { x: 0, y: 2_000_000 }),
    }
}

#[test]
fn ship_spawns_spared() {
    let bundle = spawn_spaceship(NUM_LIVES_ON_STARTUP);
    assert_eq!(bundle.spaceship.lives_left, 4);
    assert_eq!(bundle.spaceship.state, SpaceShipState::Invincible(2_000_000_000));
    assert_eq!(SPAWN_INVINCIBLE_TIMER, 2_000_000_000);
    assert_eq!(bundle.cooldown, SnowballShootingCooldown(0));
    assert_eq!(bundle.movement, MovementSpeed(Vec2 { x: 0, y: 0 }));
    assert_eq!(bundle.transform.position, Vec2 { x: 0, y: 0 });
    assert_eq!(bundle.transform.forward, Direction { x: 0, y: 1000 });
    assert_eq!(bundle.transform.scale, 2);
}

#[test]
fn triangle_of_a_ship_that_faces_up() {
    let (a, b, c) = SpaceShip::bounding_triangle(&ship_at(0, 0, (0, 1000)));
    // 32 pixels ahead, and 32 pixels behind to either side.
    assert_eq!(a, Vec2 { x: 0, y: 128_000 });
    assert_eq!(b, Vec2 { x: 128_000, y: -128_000 });
    assert_eq!(c, Vec2 { x: -128_000, y: -128_000 });
}

#[test]
fn triangle_follows_position_heading_and_scale() {
    let mut transform = ship_at(1000, -2000, (1000, 0));
    let (a, b, c) = SpaceShip::bounding_triangle(&transform);
    assert_eq!(a, Vec2 { x: 129_000, y: -2000 });
    assert_eq!(b, Vec2 { x: -127_000, y: -130_000 });
    assert_eq!(c, Vec2 { x: -127_000, y: 126_000 });
    transform.scale = 4;
    transform.forward = Direction::new(600, 800).unwrap();
    let (a, b, c) = SpaceShip::bounding_triangle(&transform);
    assert_eq!(a, Vec2 { x: 1000 + 600 * 256, y: -2000 + 800 * 256 });
    assert_eq!(b, Vec2 { x: 1000 - (600 - 800) * 256, y: -2000 - (800 + 600) * 256 });
    assert_eq!(c, Vec2 { x: 1000 - (600 + 800) * 256, y: -2000 - (800 - 600) * 256 });
}

#[test]
fn direction_must_be_of_unit_length() {
    assert!(Direction::new(1000, 0).is_some());
    assert!(Direction::new(600, 800).is_some());
    assert!(Direction::new(707, 707).is_some());
    assert!(Direction::new(-1, 1000).is_some());
    assert!(Direction::new(0, 0).is_none());
    assert!(Direction::new(1000, 1000).is_none());
    assert!(Direction::new(1001, 0).is_none());
    assert!(Direction::new(999, 0).is_none());
    assert!(Direction::new(i32::MIN, i32::MAX).is_none());
    assert_eq!(Direction::new(0, 1000), Some(Direction::up()));
    assert_eq!(Direction::up().right(), Direction { x: 1000, y: 0 });
}

#[test]
fn ship_is_spared_until_the_grace_time_is_over() {
    let mut ship = spawn_spaceship(4).spaceship;
    invincibility(&mut ship, 1_999_999_999);
    assert_eq!(ship.state, SpaceShipState::Invincible(1));
    invincibility(&mut ship, 0);
    assert_eq!(ship.state, SpaceShipState::Invincible(1));
    invincibility(&mut ship, 1);
    assert_eq!(ship.state, SpaceShipState::Normal);
    assert_eq!(ship.lives_left, 4);
}

#[test]
fn grace_time_runs_down_frame_by_frame() {
    let mut ship = spawn_spaceship(2).spaceship;
    let mut elapsed: u64 = 0;
    while elapsed + 16_000_000 < SPAWN_INVINCIBLE_TIMER {
        invincibility(&mut ship, 16_000_000);
        elapsed += 16_000_000;
        assert_eq!(ship.state, SpaceShipState::Invincible(SPAWN_INVINCIBLE_TIMER - elapsed));
    }
    invincibility(&mut ship, 16_000_000);
    assert_eq!(ship.state, SpaceShipState::Normal);
    invincibility(&mut ship, 16_000_000);
    assert_eq!(ship.state, SpaceShipState::Normal);
}

#[test]
fn a_long_frame_ends_the_grace_time() {
    let mut ship = SpaceShip { state: SpaceShipState::Invincible(5), lives_left: 1 };
    invincibility(&mut ship, u64::MAX);
    assert_eq!(ship.state, SpaceShipState::Normal);
    let mut destroyed = SpaceShip { state: SpaceShipState::Destroyed, lives_left: 1 };
    invincibility(&mut destroyed, 1_000);
    assert_eq!(destroyed.state, SpaceShipState::Destroyed);
}

#[test]
fn destroyed_ship_comes_back_with_one_life_less() {
    let respawn =
        on_space_ship_destroy(&SpaceShipDestroyedEvent { lives_left_before_destroy: 3 }).unwrap();
    assert_eq!(respawn, spawn_spaceship(2));
    let last =
        on_space_ship_destroy(&SpaceShipDestroyedEvent { lives_left_before_destroy: 1 }).unwrap();
    assert_eq!(last.spaceship.lives_left, 0);
    assert_eq!(last.spaceship.state, SpaceShipState::Invincible(SPAWN_INVINCIBLE_TIMER));
    assert_eq!(
        on_space_ship_destroy(&SpaceShipDestroyedEvent { lives_left_before_destroy: 0 }),
        None
    );
}

#[test]
fn shot_leaves_from_the_tip_and_starts_the_cooldown() {
    let mut cooldown = SnowballShootingCooldown(0);
    let transform = ship_at(4000, 8000, (0, 1000));
    let shot = snowballs_shoot(&mut cooldown, &transform, 16_000_000, true, 77).unwrap();
    assert_eq!(shot.spawn_time, 77);
    assert_eq!(shot.position, Vec2 { x: 4000, y: 8000 + 128_000 });
    // 500 pixels per second.
    assert_eq!(shot.movement, MovementSpeed(Vec2 { x: 0, y: 2_000_000 }));
    assert_eq!(cooldown, SnowballShootingCooldown(SNOWBALL_COOLDOWN));
    assert_eq!(SNOWBALL_COOLDOWN, 250_000_000);
}

#[test]
fn no_shot_while_the_gun_cools_down() {
    let mut cooldown = SnowballShootingCooldown(SNOWBALL_COOLDOWN);
    let transform = ship_at(0, 0, (600, -800));
    assert_eq!(snowballs_shoot(&mut cooldown, &transform, 100_000_000, true, 1), None);
    assert_eq!(cooldown.0, 150_000_000);
    assert_eq!(snowballs_shoot(&mut cooldown, &transform, 149_999_999, true, 2), None);
    assert_eq!(cooldown.0, 1);
    let shot = snowballs_shoot(&mut cooldown, &transform, 1, true, 3).unwrap();
    assert_eq!(shot.spawn_time, 3);
    assert_eq!(shot.position, Vec2 { x: 600 * 128, y: -800 * 128 });
    assert_eq!(shot.movement, MovementSpeed(Vec2 { x: 1_200_000, y: -1_600_000 }));
    assert_eq!(cooldown.0, SNOWBALL_COOLDOWN);
}

#[test]
fn no_shot_without_the_key() {
    let mut cooldown = SnowballShootingCooldown(10);
    let transform = ship_at(0, 0, (0, 1000));
    assert_eq!(snowballs_shoot(&mut cooldown, &transform, 4, false, 1), None);
    assert_eq!(cooldown.0, 6);
    assert_eq!(snowballs_shoot(&mut cooldown, &transform, 40, false, 2), None);
    assert_eq!(cooldown.0, 0);
    assert_eq!(snowballs_shoot(&mut cooldown, &transform, 40, false, 3), None);
    assert_eq!(cooldown.0, 0);
    assert!(snowballs_shoot(&mut cooldown, &transform, 0, true, 4).is_some());
}

#[test]
fn snowballs_melt_after_their_life_time() {
    assert_eq!(SNOWBALL_MAX_LIFE_TIME, 1_500_000_000);
    let snowballs = vec![
        snowball_at(0, 0, 499_999_999),
        snowball_at(0, 0, 500_000_000),
        snowball_at(0, 0, 0),
        snowball_at(0, 0, 2_000_000_000),
        snowball_at(0, 0, 3_000_000_000),
    ];
    assert_eq!(snowballs_timeout(2_000_000_000, &snowballs), vec![0, 2]);
    assert_eq!(snowballs_timeout(1_500_000_000, &snowballs), Vec::<usize>::new());
    assert_eq!(snowballs_timeout(1_500_000_001, &snowballs), vec![2]);
    assert_eq!(snowballs_timeout(u64::MAX, &snowballs), vec![0, 1, 2, 3, 4]);
    assert_eq!(snowballs_timeout(5, &Vec::new()), Vec::<usize>::new());
}

#[test]
fn snowballs_wrap_as_discs() {
    let mut snowballs = vec![
        snowball_at(0, 0, 1),
        snowball_at(2_560_000 + 32_000, 0, 2),
        snowball_at(2_560_000 + 32_001, 0, 3),
        snowball_at(-2_592_001, 1_472_001, 4),
        snowball_at(17, -1_472_001, 5),
    ];
    let before = snowballs.clone();
    snowballs_screen_wrap(&camera(), &mut snowballs);
    assert_eq!(snowballs.len(), 5);
    assert_eq!(snowballs[0], before[0]);
    assert_eq!(snowballs[1], before[1]);
    assert_eq!(snowballs[2].position, Vec2 { x: -2_560_000 - 32_000 + 400, y: 0 });
    assert_eq!(
        snowballs[3].position,
        Vec2 { x: 2_560_000 + 32_000 - 400, y: -1_440_000 - 32_000 + 400 }
    );
    assert_eq!(snowballs[4].position, Vec2 { x: 17, y: 1_440_000 + 32_000 - 400 });
    for (after, before) in snowballs.iter().zip(before.iter()) {
        assert_eq!(after.spawn_time, before.spawn_time);
        assert_eq!(after.movement, before.movement);
    }
}

#[test]
fn ship_in_view_is_not_wrapped() {
    for (x, y) in [(0, 0), (2_560_000, 1_440_000), (-2_687_999, 0), (0, 1_567_999)] {
        let mut transform = ship_at(x, y, (0, 1000));
        let before = transform;
        screen_wrap_space_ship(&mut transform, &camera());
        assert_eq!(transform, before);
    }
}

#[test]
fn ship_wraps_by_its_triangle() {
    // Facing up, the triangle reaches 32 pixels to every side.
    let mut above = ship_at(0, 1_440_000 + 128_001, (0, 1000));
    screen_wrap_space_ship(&mut above, &camera());
    assert_eq!(above.position, Vec2 { x: 0, y: -1_440_000 - 128_000 + 400 });
    assert_eq!(above.forward, Direction { x: 0, y: 1000 });
    assert_eq!(above.scale, 2);

    let mut left = ship_at(-2_560_000 - 128_001, 5, (0, 1000));
    screen_wrap_space_ship(&mut left, &camera());
    assert_eq!(left.position, Vec2 { x: 2_560_000 + 128_000 - 400, y: 5 });

    // Facing right, the tip is 32 pixels ahead and the rear 32 pixels behind.
    let mut right = ship_at(2_560_000 + 128_001, 0, (1000, 0));
    screen_wrap_space_ship(&mut right, &camera());
    assert_eq!(right.position, Vec2 { x: -2_560_000 - 128_000 + 400, y: 0 });
}

#[test]
fn ship_that_faces_a_slant_wraps_by_its_own_reach() {
    // Forward (600, 800): tip at +(76800, 102400), rear corners at
    // -(−25600, 179200) and -(179200, 25600) from the position.
    let transform = ship_at(0, 0, (600, 800));
    let (a, b, c) = SpaceShip::bounding_triangle(&transform);
    assert_eq!(a, Vec2 { x: 76_800, y: 102_400 });
    assert_eq!(b, Vec2 { x: 25_600, y: -179_200 });
    assert_eq!(c, Vec2 { x: -179_200, y: -25_600 });
    // Wholly below the viewport: the highest point is the tip.
    let mut below = ship_at(0, -1_440_000 - 102_401, (600, 800));
    screen_wrap_space_ship(&mut below, &camera());
    // It reaches 179200 down from its position.
    assert_eq!(below.position, Vec2 { x: 0, y: 1_440_000 + 179_200 - 400 });
    // Wholly above: the lowest point is 179200 below the position.
    let mut over = ship_at(0, 1_440_000 + 179_201, (600, 800));
    screen_wrap_space_ship(&mut over, &camera());
    assert_eq!(over.position, Vec2 { x: 0, y: -1_440_000 - 102_400 + 400 });
}
