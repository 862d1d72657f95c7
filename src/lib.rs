//! Simulation rules of a side-scrolling avoider game: the repeating timer that
//! schedules pillar pairs, the score kept while the run lasts, the latch that ends
//! the run, and the guard on jump input.

use vstd::prelude::*;

pub mod collision;
pub mod pillar;
pub mod player_movement;
pub mod score;

verus! {

/// Role tag of the one body the player steers.
#[derive(Clone, Copy, Debug, PartialEq, Eq)]
pub struct Player;

/// Role tag of the sink that shows the score text.
#[derive(Clone, Copy, Debug, PartialEq, Eq)]
pub struct ScoreDisplay;

/// Pillar pairs spawned while the run lasted.
#[derive(Clone, Copy, Debug, PartialEq, Eq)]
pub struct Score(pub u16);

/// Set once the run is over; never cleared within a session.
#[derive(Clone, Copy, Debug, PartialEq, Eq)]
pub struct IsGameEnded(pub bool);

} // verus!
