//! The states of a round, and which entities leave the field as a state is
//! entered.
use vstd::prelude::*;

verus! {

#[derive(Clone, Copy, Debug, PartialEq, Eq, Hash, Structural)]
pub enum GameState {
    Game,
    GameOver,
    Highscore,
    /// Never a state of the round; as a mark on an entity it stands for
    /// every state.
    Any,
}

/// Marks an entity that is removed when the given state is entered.
#[derive(Clone, Copy, Debug, PartialEq, Eq, Structural)]
pub struct DespawnOnStateEnter(pub GameState);

impl DespawnOnStateEnter {
    /// Whether the entity is removed as `state` is entered.
    pub open spec fn applies(self, state: GameState) -> bool {
        self.0 == state || self.0 == GameState::Any
    }

    /// Whether the entity is removed as `state` is entered.
    pub fn despawn_on_enter(&self, state: GameState) -> (removed: bool)
        ensures
            removed == self.applies(state),
    {
        self.0 == state || self.0 == GameState::Any
    }
}

/// The state that follows the destruction of a ship that had
/// `lives_left_before_destroy` lives left: the round is over with the ship
/// that had none.
pub fn state_after_ship_destroyed(lives_left_before_destroy: u32) -> (next: Option<GameState>)
    ensures
        next == if lives_left_before_destroy == 0 {
            Some(GameState::GameOver)
        } else {
            None
        },
{
    if lives_left_before_destroy == 0 {
        Some(GameState::GameOver)
    } else {
        None
    }
}

} // verus!
