use gifteroids::entities::despawn;
use gifteroids::game_state::{state_after_ship_destroyed, DespawnOnStateEnter, GameState};
use gifteroids::gifteroids::GifteroidDestroyedEvent;
use gifteroids::score::{
    on_asteroid_destroyed, on_santa_destroyed, on_spaceship_destroyed, reduce_score, setup,
    Score,
};
use gifteroids::santa::SantaDestroyedEvent;
use gifteroids::spaceship::SpaceShipDestroyedEvent;

#[test]
fn score_starts_at_a_thousand() {
    assert_eq!(setup(), Score(1000));
}

#[test]
fn score_runs_down_to_zero() {
    let mut score = Score(25);
    reduce_score(&mut score);
    assert_eq!(score, Score(15));
    reduce_score(&mut score);
    assert_eq!(score, Score(5));
    reduce_score(&mut score);
    assert_eq!(score, Score(0));
    reduce_score(&mut score);
    assert_eq!(score, Score(0));
}

#[test]
fn destroyed_gifteroids_and_santas_count() {
    let mut score = setup();
    let events = vec![
        GifteroidDestroyedEvent { split_in_two: false },
        GifteroidDestroyedEvent { split_in_two: true },
        GifteroidDestroyedEvent { split_in_two: false },
    ];
    on_asteroid_destroyed(&events, &mut score);
    assert_eq!(score, Score(1030));
    on_asteroid_destroyed(&Vec::new(), &mut score);
    assert_eq!(score, Score(1030));
    on_santa_destroyed(&vec![SantaDestroyedEvent, SantaDestroyedEvent], &mut score);
    assert_eq!(score, Score(1330));
}

#[test]
fn lost_lives_cost() {
    let mut score = Score(250);
    on_spaceship_destroyed(&vec![SpaceShipDestroyedEvent { lives_left_before_destroy: 4 }], &mut score);
    assert_eq!(score, Score(150));
    let two = vec![
        SpaceShipDestroyedEvent { lives_left_before_destroy: 3 },
        SpaceShipDestroyedEvent { lives_left_before_destroy: 2 },
    ];
    on_spaceship_destroyed(&two, &mut score);
    assert_eq!(score, Score(0));
    on_spaceship_destroyed(&two, &mut score);
    assert_eq!(score, Score(0));
}

#[test]
fn round_is_over_with_the_last_ship() {
    assert_eq!(state_after_ship_destroyed(0), Some(GameState::GameOver));
    assert_eq!(state_after_ship_destroyed(1), None);
    assert_eq!(state_after_ship_destroyed(4), None);
}

#[test]
fn entities_leave_as_their_state_is_entered() {
    let in_game = DespawnOnStateEnter(GameState::Game);
    assert!(in_game.despawn_on_enter(GameState::Game));
    assert!(!in_game.despawn_on_enter(GameState::GameOver));
    assert!(!in_game.despawn_on_enter(GameState::Highscore));
    let always = DespawnOnStateEnter(GameState::Any);
    assert!(always.despawn_on_enter(GameState::Game));
    assert!(always.despawn_on_enter(GameState::GameOver));
    assert!(always.despawn_on_enter(GameState::Highscore));
}

#[test]
fn despawn_keeps_the_order_of_the_rest() {
    let items = vec![10, 20, 30, 40, 50];
    assert_eq!(despawn(&items, &vec![1, 3]), vec![10, 30, 50]);
    assert_eq!(despawn(&items, &vec![3, 1, 3, 3]), vec![10, 30, 50]);
    assert_eq!(despawn(&items, &vec![5, 99, usize::MAX]), items);
    assert_eq!(despawn(&items, &Vec::new()), items);
    assert_eq!(despawn(&items, &vec![4, 3, 2, 1, 0]), Vec::<i32>::new());
    assert_eq!(despawn(&Vec::<i32>::new(), &vec![0]), Vec::<i32>::new());
}
