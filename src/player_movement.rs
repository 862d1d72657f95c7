//! The guard on jump input.

use vstd::prelude::*;
use crate::IsGameEnded;

verus! {

/// A jump is taken on the frame the jump control goes down, unless the run is over.
pub fn check_jump(jump_just_pressed: bool, is_game_ended: &IsGameEnded) -> (r: bool)
    ensures
        r == (jump_just_pressed && !is_game_ended.0),
{
    jump_just_pressed && !is_game_ended.0
}

} // verus!
