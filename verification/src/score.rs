//! The score of a round: it starts high, runs down with time, and moves
//! with what is destroyed.
use vstd::prelude::*;
use crate::gifteroids::GifteroidDestroyedEvent;
use crate::santa::SantaDestroyedEvent;
use crate::spaceship::SpaceShipDestroyedEvent;

verus! {

pub const START_SCORE: u32 = 1000;

/// What each second of a round costs.
pub const SCORE_REDUCTION: u32 = 10;

pub const SCORE_PER_GIFTEROID: u32 = 10;

pub const SCORE_PER_SANTA: u32 = 150;

pub const SCORE_LOSS_PER_LIFE_LOST: u32 = 100;

#[derive(Clone, Copy, Debug, PartialEq, Eq, Structural)]
pub struct Score(pub u32);

/// `score` less `loss`, but not below zero.
pub open spec fn reduced(score: int, loss: int) -> int {
    if score > loss {
        score - loss
    } else {
        0
    }
}

/// The score at the start of a round.
pub fn setup() -> (score: Score)
    ensures
        score.0 == START_SCORE,
{
    Score(START_SCORE)
}

/// The cost of a second of the round; the score stops at zero.
pub fn reduce_score(score: &mut Score)
    ensures
        final(score).0 == reduced(old(score).0 as int, SCORE_REDUCTION as int),
{
    score.0 = score.0.saturating_sub(SCORE_REDUCTION);
}

/// Counts the gifteroids that were destroyed: each is worth the same,
/// whether or not it split.
pub fn on_asteroid_destroyed(events: &Vec<GifteroidDestroyedEvent>, score: &mut Score)
    requires
        old(score).0 + SCORE_PER_GIFTEROID * events@.len() <= u32::MAX,
    ensures
        final(score).0 == old(score).0 + SCORE_PER_GIFTEROID * events@.len(),
{
    let mut i: usize = 0;
    while i < events.len()
        invariant
            i <= events@.len(),
            old(score).0 + SCORE_PER_GIFTEROID * events@.len() <= u32::MAX,
            score.0 == old(score).0 + SCORE_PER_GIFTEROID * i,
        decreases events@.len() - i,
    {
        score.0 = score.0 + SCORE_PER_GIFTEROID;
        i = i + 1;
    }
}

/// Counts the santas that were destroyed.
pub fn on_santa_destroyed(events: &Vec<SantaDestroyedEvent>, score: &mut Score)
    requires
        old(score).0 + SCORE_PER_SANTA * events@.len() <= u32::MAX,
    ensures
        final(score).0 == old(score).0 + SCORE_PER_SANTA * events@.len(),
{
    let mut i: usize = 0;
    while i < events.len()
        invariant
            i <= events@.len(),
            old(score).0 + SCORE_PER_SANTA * events@.len() <= u32::MAX,
            score.0 == old(score).0 + SCORE_PER_SANTA * i,
        decreases events@.len() - i,
    {
        score.0 = score.0 + SCORE_PER_SANTA;
        i = i + 1;
    }
}

/// Counts the lives that were lost; the score stops at zero.
pub fn on_spaceship_destroyed(events: &Vec<SpaceShipDestroyedEvent>, score: &mut Score)
    ensures
        final(score).0 == reduced(
            old(score).0 as int,
            SCORE_LOSS_PER_LIFE_LOST * events@.len(),
        ),
{
    let mut i: usize = 0;
    while i < events.len()
        invariant
            i <= events@.len(),
            score.0 == reduced(old(score).0 as int, SCORE_LOSS_PER_LIFE_LOST * i),
        decreases events@.len() - i,
    {
        score.0 = score.0.saturating_sub(SCORE_LOSS_PER_LIFE_LOST);
        i = i + 1;
    }
}

} // verus!
