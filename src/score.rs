//! The score: one point per spawned pillar pair while the run lasts, and its text.

use vstd::prelude::*;
use crate::{IsGameEnded, Score};

verus! {

/// The score after one spawn, given the game-ended flag as read when it fired.
pub open spec fn next_score(score: nat, ended: bool) -> nat {
    if ended { score } else { score + 1 }
}

/// The score after a run of spawns, each given with the flag as read when it fired.
pub open spec fn score_after_spawns(start: nat, ended_at_spawn: Seq<bool>) -> nat
    decreases ended_at_spawn.len(),
{
    if ended_at_spawn.len() == 0 {
        start
    } else {
        next_score(score_after_spawns(start, ended_at_spawn.drop_last()), ended_at_spawn.last())
    }
}

proof fn lemma_prefix_step(start: nat, ended_at_spawn: Seq<bool>, j: int)
    requires
        0 <= j < ended_at_spawn.len(),
    ensures
        score_after_spawns(start, ended_at_spawn.take(j + 1)) == next_score(
            score_after_spawns(start, ended_at_spawn.take(j)),
            ended_at_spawn[j],
        ),
{
    assert(ended_at_spawn.take(j + 1).drop_last() == ended_at_spawn.take(j));
}

/// Each spawn adds one point while the run lasts and none once it is over, so the
/// score never goes down from one spawn to the next.
pub proof fn score_step(start: nat, ended_at_spawn: Seq<bool>, j: int)
    requires
        0 <= j < ended_at_spawn.len(),
    ensures
        !ended_at_spawn[j] ==> score_after_spawns(start, ended_at_spawn.take(j + 1))
            == score_after_spawns(start, ended_at_spawn.take(j)) + 1,
        ended_at_spawn[j] ==> score_after_spawns(start, ended_at_spawn.take(j + 1))
            == score_after_spawns(start, ended_at_spawn.take(j)),
        score_after_spawns(start, ended_at_spawn.take(j)) <= score_after_spawns(
            start,
            ended_at_spawn.take(j + 1),
        ),
{
    lemma_prefix_step(start, ended_at_spawn, j);
}

/// Once the run has ended the score is frozen: when the flag is set at every spawn
/// from the `k`-th on, the score after any later spawn is the score after the first
/// `k` spawns, though pillars go on spawning.
pub proof fn score_frozen_after_end(start: nat, ended_at_spawn: Seq<bool>, k: int, j: int)
    requires
        0 <= k <= j <= ended_at_spawn.len(),
        forall|i: int| k <= i < ended_at_spawn.len() ==> ended_at_spawn[i],
    ensures
        score_after_spawns(start, ended_at_spawn.take(j)) == score_after_spawns(start, ended_at_spawn.take(k)),
    decreases j - k,
{
    if j > k {
        lemma_prefix_step(start, ended_at_spawn, j - 1);
        score_frozen_after_end(start, ended_at_spawn, k, j - 1);
    }
}

proof fn lemma_running(start: nat, ended_at_spawn: Seq<bool>, j: int)
    requires
        0 <= j <= ended_at_spawn.len(),
        forall|i: int| 0 <= i < j ==> !ended_at_spawn[i],
    ensures
        score_after_spawns(start, ended_at_spawn.take(j)) == start + j,
    decreases j,
{
    if j > 0 {
        lemma_prefix_step(start, ended_at_spawn, j - 1);
        lemma_running(start, ended_at_spawn, j - 1);
    } else {
        assert(ended_at_spawn.take(0).len() == 0);
    }
}

/// Over a session whose flag, once set, stays set: the final score is the starting
/// score plus the number of spawns that fired before the run ended.
pub proof fn session_score(start: nat, ended_at_spawn: Seq<bool>, k: int)
    requires
        0 <= k <= ended_at_spawn.len(),
        forall|i: int| 0 <= i < k ==> !ended_at_spawn[i],
        forall|i: int| k <= i < ended_at_spawn.len() ==> ended_at_spawn[i],
    ensures
        score_after_spawns(start, ended_at_spawn) == start + k,
{
    lemma_running(start, ended_at_spawn, k);
    score_frozen_after_end(start, ended_at_spawn, k, ended_at_spawn.len() as int);
    assert(ended_at_spawn.take(ended_at_spawn.len() as int) == ended_at_spawn);
}

/// The decimal digit character of `d`.
pub open spec fn digit_char(d: nat) -> char {
    seq!['0', '1', '2', '3', '4', '5', '6', '7', '8', '9'][d as int]
}

/// The decimal digits of `n`, most significant first, without leading zeros.
pub open spec fn decimal(n: nat) -> Seq<char>
    decreases n,
{
    if n < 10 {
        seq![digit_char(n)]
    } else {
        decimal(n / 10).push(digit_char(n % 10))
    }
}

/// The text shown for a score: `Score: ` and its decimal digits.
pub open spec fn score_text_of(score: nat) -> Seq<char> {
    seq!['S', 'c', 'o', 'r', 'e', ':', ' '] + decimal(score)
}

/// Relies on std's `format!` with `{}` on a `u16`: its decimal digits, after the prefix.
#[verifier::external_body]
fn format_score(score: u16) -> (r: String)
    ensures
        r@ == score_text_of(score as nat),
{
    format!("Score: {}", score)
}

/// The text the score display shows for `score`.
pub fn score_text(score: &Score) -> (r: String)
    ensures
        r@ == score_text_of(score.0 as nat),
{
    format_score(score.0)
}

/// Scores one spawn of a pillar pair: one more point unless the run is over.
/// Returns the refreshed display text, written whether or not the score moved.
pub fn update_score(score: &mut Score, is_game_ended: &IsGameEnded) -> (text: String)
    requires
        is_game_ended.0 || old(score).0 < u16::MAX,
    ensures
        final(score).0 as nat == next_score(old(score).0 as nat, is_game_ended.0),
        text@ == score_text_of(final(score).0 as nat),
{
    if !is_game_ended.0 {
        score.0 = score.0 + 1;
    }
    score_text(score)
}

} // verus!
