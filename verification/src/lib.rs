//! The collision core of an arcade shooter on a wrapping playing field:
//! oriented boxes, segment crossings, screen wrap, and the rules by which
//! gifteroids split, snowballs fly and expire, and the spaceship is hit and
//! spared.  Everything is integer arithmetic on a fixed-point grid.
pub mod collision;
pub mod entities;
pub mod game_state;
pub mod geometry;
pub mod gifteroids;
pub mod random;
pub mod santa;
pub mod score;
pub mod spaceship;
pub mod wrap;
