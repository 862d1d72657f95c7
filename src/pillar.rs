//! Pillars and the repeating timer that schedules their spawning.

use vstd::prelude::*;

verus! {

/// Role tag of an obstacle body; pillars are spawned in pairs.
#[derive(Clone, Copy, Debug, PartialEq, Eq)]
pub struct Pillar;

/// What a repeating timer holds after one tick: the elapsed time and whether it fired.
///
/// The elapsed time grows by `delta`; once it reaches the duration the timer fires
/// and keeps only the remainder (nothing, for a zero duration), so one tick fires
/// at most once however many intervals it covered.
pub open spec fn repeating_tick(duration: nat, elapsed: nat, delta: nat) -> (nat, bool) {
    let total = elapsed + delta;
    if total >= duration {
        (if duration == 0 { 0 } else { total % duration }, true)
    } else {
        (total, false)
    }
}

/// Relies on bevy's `Timer::tick` for a repeating, unpaused timer: the elapsed time
/// grows by `delta`, the timer is finished when it reaches the duration, and it then
/// keeps the remainder of the elapsed time by the duration (zero for a zero duration).
#[verifier::external_body]
fn bevy_repeating_tick(duration_ns: u64, elapsed_ns: u64, delta_ns: u64) -> (r: (u64, bool))
    requires
        elapsed_ns + delta_ns <= u64::MAX,
    ensures
        (r.0 as nat, r.1) == repeating_tick(duration_ns as nat, elapsed_ns as nat, delta_ns as nat),
{
    let mut timer = bevy::time::Timer::new(
        std::time::Duration::from_nanos(duration_ns),
        bevy::time::TimerMode::Repeating,
    );
    timer.set_elapsed(std::time::Duration::from_nanos(elapsed_ns));
    timer.tick(std::time::Duration::from_nanos(delta_ns));
    (timer.elapsed().as_nanos() as u64, timer.finished())
}

/// The repeating timer that schedules pillar spawns, in nanoseconds.
#[derive(Clone, Copy, Debug, PartialEq, Eq)]
pub struct PillarTimer {
    pub duration_ns: u64,
    pub elapsed_ns: u64,
    pub finished: bool,
}

impl PillarTimer {
    /// The elapsed time stays below the duration (and at zero for a zero duration).
    pub open spec fn wf(&self) -> bool {
        self.elapsed_ns == 0 || self.elapsed_ns < self.duration_ns
    }

    /// A fresh timer: nothing elapsed, not finished.
    pub fn new(duration_ns: u64) -> (r: PillarTimer)
        ensures
            r.wf(),
            r.duration_ns == duration_ns,
            r.elapsed_ns == 0,
            !r.finished,
    {
        PillarTimer { duration_ns, elapsed_ns: 0, finished: false }
    }
}

/// Advances the spawn timer by one fixed tick of `delta_ns` nanoseconds.
pub fn increment_pillar_timer(timer: &mut PillarTimer, delta_ns: u64)
    requires
        old(timer).wf(),
        old(timer).elapsed_ns + delta_ns <= u64::MAX,
    ensures
        final(timer).wf(),
        final(timer).duration_ns == old(timer).duration_ns,
        (final(timer).elapsed_ns as nat, final(timer).finished) == repeating_tick(
            old(timer).duration_ns as nat,
            old(timer).elapsed_ns as nat,
            delta_ns as nat,
        ),
{
    let (elapsed_ns, finished) = bevy_repeating_tick(timer.duration_ns, timer.elapsed_ns, delta_ns);
    timer.elapsed_ns = elapsed_ns;
    timer.finished = finished;
}

/// Whether the spawn timer fired on its last tick, which is when a pillar pair spawns.
pub fn pillar_timer(timer: &PillarTimer) -> (r: bool)
    ensures
        r == timer.finished,
{
    timer.finished
}

} // verus!
