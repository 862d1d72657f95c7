use flappydof::collision::end_game_on_contact;
use flappydof::pillar::{increment_pillar_timer, pillar_timer, Pillar, PillarTimer};
use flappydof::player_movement::check_jump;
use flappydof::score::{score_text, update_score};
use flappydof::{IsGameEnded, Player, Score, ScoreDisplay};

const TWO_SECONDS_NS: u64 = 2_000_000_000;
const FIXED_TICK_NS: u64 = 15_625_000;

#[test]
fn fresh_timer_has_not_fired() {
    let timer = PillarTimer::new(TWO_SECONDS_NS);
    assert_eq!(timer.duration_ns, TWO_SECONDS_NS);
    assert_eq!(timer.elapsed_ns, 0);
    assert!(!pillar_timer(&timer));
}

#[test]
fn timer_fires_when_elapsed_reaches_interval() {
    let mut timer = PillarTimer::new(TWO_SECONDS_NS);
    increment_pillar_timer(&mut timer, TWO_SECONDS_NS - 1);
    assert!(!pillar_timer(&timer));
    assert_eq!(timer.elapsed_ns, TWO_SECONDS_NS - 1);
    increment_pillar_timer(&mut timer, 1);
    assert!(pillar_timer(&timer));
    assert_eq!(timer.elapsed_ns, 0);
    increment_pillar_timer(&mut timer, 1);
    assert!(!pillar_timer(&timer));
    assert_eq!(timer.elapsed_ns, 1);
}

#[test]
fn timer_fires_once_on_overdue_tick() {
    let mut timer = PillarTimer::new(TWO_SECONDS_NS);
    increment_pillar_timer(&mut timer, 5_000_000_000);
    assert!(pillar_timer(&timer));
    assert_eq!(timer.elapsed_ns, 1_000_000_000);
    assert_eq!(timer.duration_ns, TWO_SECONDS_NS);
}

#[test]
fn timer_at_fixed_rate_fires_every_128_ticks() {
    let mut timer = PillarTimer::new(TWO_SECONDS_NS);
    let mut fired_at = Vec::new();
    for tick in 1..=256u32 {
        increment_pillar_timer(&mut timer, FIXED_TICK_NS);
        if pillar_timer(&timer) {
            fired_at.push(tick);
        }
    }
    assert_eq!(fired_at, vec![128, 256]);
}

#[test]
fn zero_duration_timer_fires_every_tick() {
    let mut timer = PillarTimer::new(0);
    increment_pillar_timer(&mut timer, 7);
    assert!(pillar_timer(&timer));
    assert_eq!(timer.elapsed_ns, 0);
    increment_pillar_timer(&mut timer, 0);
    assert!(pillar_timer(&timer));
}

#[test]
fn score_grows_while_running() {
    let mut score = Score(0);
    let text = update_score(&mut score, &IsGameEnded(false));
    assert_eq!(score, Score(1));
    assert_eq!(text, "Score: 1");
}

#[test]
fn score_frozen_once_ended_but_text_refreshed() {
    let mut score = Score(5);
    let text = update_score(&mut score, &IsGameEnded(true));
    assert_eq!(score, Score(5));
    assert_eq!(text, "Score: 5");
}

#[test]
fn score_session_stops_at_game_end() {
    let mut score = Score(0);
    let mut ended = IsGameEnded(false);
    let mut seen = Vec::new();
    for spawn in 0..5u32 {
        if spawn == 2 {
            end_game_on_contact(&mut ended, true, &vec![false, true]);
        }
        update_score(&mut score, &ended);
        seen.push(score.0);
    }
    assert_eq!(seen, vec![1, 2, 2, 2, 2]);
}

#[test]
fn score_text_digits() {
    assert_eq!(score_text(&Score(0)), "Score: 0");
    assert_eq!(score_text(&Score(42)), "Score: 42");
    assert_eq!(score_text(&Score(65535)), "Score: 65535");
}

#[test]
fn highest_score_reached_from_one_below() {
    let mut score = Score(65534);
    let text = update_score(&mut score, &IsGameEnded(false));
    assert_eq!(score, Score(65535));
    assert_eq!(text, "Score: 65535");
    let text = update_score(&mut score, &IsGameEnded(true));
    assert_eq!(score, Score(65535));
    assert_eq!(text, "Score: 65535");
}

#[test]
fn jump_taken_on_press_while_running() {
    assert!(check_jump(true, &IsGameEnded(false)));
    assert!(!check_jump(false, &IsGameEnded(false)));
    assert!(!check_jump(true, &IsGameEnded(true)));
    assert!(!check_jump(false, &IsGameEnded(true)));
}

#[test]
fn contact_with_a_pillar_ends_run() {
    let mut ended = IsGameEnded(false);
    end_game_on_contact(&mut ended, true, &vec![false, false, true]);
    assert_eq!(ended, IsGameEnded(true));
}

#[test]
fn clear_pass_keeps_run_going() {
    let mut ended = IsGameEnded(false);
    end_game_on_contact(&mut ended, true, &vec![false, false]);
    assert_eq!(ended, IsGameEnded(false));
}

#[test]
fn out_of_bounds_ends_run_when_pillars_examined() {
    let mut ended = IsGameEnded(false);
    end_game_on_contact(&mut ended, false, &vec![false]);
    assert_eq!(ended, IsGameEnded(true));
}

#[test]
fn out_of_bounds_with_no_pillar_changes_nothing() {
    let mut ended = IsGameEnded(false);
    end_game_on_contact(&mut ended, false, &Vec::new());
    assert_eq!(ended, IsGameEnded(false));
}

#[test]
fn ended_run_is_never_cleared() {
    let mut ended = IsGameEnded(true);
    end_game_on_contact(&mut ended, true, &vec![false, false]);
    assert_eq!(ended, IsGameEnded(true));
    end_game_on_contact(&mut ended, true, &Vec::new());
    assert_eq!(ended, IsGameEnded(true));
}

#[test]
fn role_tags_are_distinct_markers() {
    assert_eq!(Pillar, Pillar);
    assert_eq!(Player, Player);
    assert_eq!(ScoreDisplay, ScoreDisplay);
}
