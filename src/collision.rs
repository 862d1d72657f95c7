//! The latch that ends the run on contact with a pillar or on leaving the field.

use vstd::prelude::*;
use crate::IsGameEnded;

verus! {

/// Whether one examined pillar ends the run: the player's box overlaps it, or the
/// player is out of bounds.
pub open spec fn ends_run(player_in_bounds: bool, hits_pillar: bool) -> bool {
    !player_in_bounds || hits_pillar
}

/// Whether the run is over after a collision pass over the pillars, one entry of
/// `pillar_hits` each: it was over before, or some examined pillar ends it.
pub open spec fn ended_after_pass(was_ended: bool, player_in_bounds: bool, pillar_hits: Seq<bool>) -> bool {
    was_ended || exists|i: int| 0 <= i < pillar_hits.len() && ends_run(player_in_bounds, #[trigger] pillar_hits[i])
}

/// Runs one collision pass. Each pillar is examined in turn; when the player's box
/// overlaps it, or the player is out of bounds, the run ends. With no pillar to
/// examine nothing changes. The flag is never cleared.
pub fn end_game_on_contact(is_game_ended: &mut IsGameEnded, player_in_bounds: bool, pillar_hits: &Vec<bool>)
    ensures
        final(is_game_ended).0 == ended_after_pass(old(is_game_ended).0, player_in_bounds, pillar_hits@),
        old(is_game_ended).0 ==> final(is_game_ended).0,
{
    let n: usize = pillar_hits.len();
    let mut i: usize = 0;
    while i < n
        invariant
            n == pillar_hits.len(),
            0 <= i <= n,
            is_game_ended.0 == ended_after_pass(old(is_game_ended).0, player_in_bounds, pillar_hits@.take(i as int)),
        decreases n - i,
    {
        let ghost prev = pillar_hits@.take(i as int);
        let ghost next = pillar_hits@.take(i as int + 1);
        if !player_in_bounds || pillar_hits[i] {
            is_game_ended.0 = true;
        }
        assert(forall|j: int| 0 <= j < i ==> next[j] == prev[j]);
        assert(next[i as int] == pillar_hits@[i as int]);
        i = i + 1;
    }
    assert(pillar_hits@.take(n as int) == pillar_hits@);
}

} // verus!
