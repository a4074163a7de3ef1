//! What an animation clock shows over a whole run of calls.
//!
//! A run is the sequence of calls that one clock receives, each with its
//! wall-clock reading and its animation flag. The theorems of this module say
//! that the clock is a stopwatch: its time advances with the wall clock after
//! an enabled call, stands still after a disabled one, and never jumps.

use vstd::prelude::*;
use crate::clock::ClockState;
use crate::renderer::Frame;
use crate::renderer::RendererState;

verus! {

/// One call to a clock: the wall-clock time elapsed at the call, in
/// nanoseconds, and whether animation was enabled.
pub struct Tick {
    pub elapsed: nat,
    pub animation_enabled: bool,
}

/// The readings of a wall clock never decrease from one call to the next.
pub open spec fn never_runs_backwards(ticks: Seq<Tick>) -> bool {
    forall|i: int, j: int|
        0 <= i <= j < ticks.len() ==> (#[trigger] ticks[i]).elapsed <= (#[trigger] ticks[j]).elapsed
}

/// All calls from the `first` up to, but not including, the `end` have the
/// given animation flag.
pub open spec fn flags_are(ticks: Seq<Tick>, first: int, end: int, animation_enabled: bool) -> bool {
    forall|k: int| first <= k < end ==> (#[trigger] ticks[k]).animation_enabled == animation_enabled
}

/// The state of a new clock after it has received all of `ticks` in order.
pub open spec fn state_after(ticks: Seq<Tick>) -> ClockState
    decreases ticks.len(),
{
    if ticks.len() == 0 {
        ClockState::fresh()
    } else {
        state_after(ticks.drop_last()).advance(ticks.last().elapsed, ticks.last().animation_enabled)
    }
}

/// The effective time that the `i`-th call of a run reports.
pub open spec fn effective_time_at(ticks: Seq<Tick>, i: int) -> nat
    recommends
        0 <= i < ticks.len(),
{
    state_after(ticks.take(i)).effective_time(ticks[i].elapsed, ticks[i].animation_enabled)
}

/// Neither the frozen time nor the paused duration of `state` lies after the
/// wall-clock reading `elapsed`, so that a call at `elapsed` or later
/// subtracts without reaching zero early. This holds of every state that a
/// clock reaches on a wall clock that has come as far as `elapsed`.
pub open spec fn reached_by(state: ClockState, elapsed: nat) -> bool {
    &&& state.total_paused_duration <= elapsed
    &&& state.frozen_time matches Some(frozen) ==> frozen <= elapsed
}

/// Between two successive calls the effective time advances by the wall-clock
/// time that passed if the first call had animation enabled, and not at all
/// if it had not; the flag of the second call makes no difference.
pub proof fn lemma_next_call(
    state: ClockState,
    elapsed: nat,
    animation_enabled: bool,
    next_elapsed: nat,
    next_enabled: bool,
)
    requires
        reached_by(state, elapsed),
        elapsed <= next_elapsed,
    ensures
        reached_by(state.advance(elapsed, animation_enabled), next_elapsed),
        state.advance(elapsed, animation_enabled).effective_time(next_elapsed, next_enabled)
            == state.effective_time(elapsed, animation_enabled) + (if animation_enabled {
            next_elapsed - elapsed
        } else {
            0
        }),
{
}

/// Receiving one more call is one step of the clock.
pub proof fn lemma_state_after_step(ticks: Seq<Tick>, i: int)
    requires
        0 <= i < ticks.len(),
    ensures
        state_after(ticks.take(i + 1)) == state_after(ticks.take(i)).advance(
            ticks[i].elapsed,
            ticks[i].animation_enabled,
        ),
{
    assert(ticks.take(i + 1).drop_last() =~= ticks.take(i));
    assert(ticks.take(i + 1).last() == ticks[i]);
}

/// On a wall clock that never runs backwards, the state that the `i`-th call
/// finds holds no time that lies after that call's reading.
pub proof fn lemma_state_reached(ticks: Seq<Tick>, i: int)
    requires
        never_runs_backwards(ticks),
        0 <= i < ticks.len(),
    ensures
        reached_by(state_after(ticks.take(i)), ticks[i].elapsed),
    decreases i,
{
    if i == 0 {
        assert(ticks.take(0).len() == 0);
    } else {
        lemma_state_reached(ticks, i - 1);
        lemma_state_after_step(ticks, i - 1);
        assert(ticks[i - 1].elapsed <= ticks[i].elapsed);
        lemma_next_call(
            state_after(ticks.take(i - 1)),
            ticks[i - 1].elapsed,
            ticks[i - 1].animation_enabled,
            ticks[i].elapsed,
            ticks[i].animation_enabled,
        );
    }
}

/// The stopwatch law. On a wall clock that never runs backwards, the
/// effective time of a call is that of the call before it, plus the
/// wall-clock time that passed between the two if the call before it had
/// animation enabled.
pub proof fn lemma_stopwatch(ticks: Seq<Tick>, i: int)
    requires
        never_runs_backwards(ticks),
        0 <= i,
        i + 1 < ticks.len(),
    ensures
        effective_time_at(ticks, i + 1) == effective_time_at(ticks, i) + (if ticks[i].animation_enabled {
            ticks[i + 1].elapsed - ticks[i].elapsed
        } else {
            0
        }),
{
    lemma_state_reached(ticks, i);
    lemma_state_after_step(ticks, i);
    assert(ticks[i].elapsed <= ticks[i + 1].elapsed);
    lemma_next_call(
        state_after(ticks.take(i)),
        ticks[i].elapsed,
        ticks[i].animation_enabled,
        ticks[i + 1].elapsed,
        ticks[i + 1].animation_enabled,
    );
}

/// The first call of a run reports the wall-clock time itself, whether
/// animation is enabled or not.
pub proof fn lemma_first_call(ticks: Seq<Tick>)
    requires
        0 < ticks.len(),
    ensures
        effective_time_at(ticks, 0) == ticks[0].elapsed,
{
    assert(ticks.take(0).len() == 0);
}

/// While animation stays enabled the effective time follows the wall clock:
/// over any stretch of calls that all have animation enabled, it advances by
/// exactly the wall-clock time that passed. So it never decreases, and it
/// stays equal only where no wall-clock time has passed at all.
pub proof fn lemma_enabled_time_follows_wall_clock(ticks: Seq<Tick>, i: int, j: int)
    requires
        never_runs_backwards(ticks),
        0 <= i <= j < ticks.len(),
        flags_are(ticks, i, j + 1, true),
    ensures
        effective_time_at(ticks, j) - effective_time_at(ticks, i) == ticks[j].elapsed - ticks[i].elapsed,
        effective_time_at(ticks, i) <= effective_time_at(ticks, j),
        effective_time_at(ticks, i) == effective_time_at(ticks, j) <==> ticks[i].elapsed == ticks[j].elapsed,
    decreases j - i,
{
    assert(ticks[i].elapsed <= ticks[j].elapsed);
    if i < j {
        lemma_enabled_time_follows_wall_clock(ticks, i, j - 1);
        assert(ticks[j - 1].animation_enabled);
        lemma_stopwatch(ticks, j - 1);
    }
}

/// While animation stays disabled the effective time does not change,
/// however much wall-clock time passes between the calls and whatever the
/// wall clock does.
pub proof fn lemma_disabled_time_is_constant(ticks: Seq<Tick>, i: int, j: int)
    requires
        0 <= i <= j < ticks.len(),
        flags_are(ticks, i, j + 1, false),
    ensures
        effective_time_at(ticks, j) == effective_time_at(ticks, i),
    decreases j - i,
{
    if i < j {
        lemma_disabled_time_is_constant(ticks, i, j - 1);
        lemma_state_after_step(ticks, j - 1);
        assert(!ticks[j - 1].animation_enabled);
        assert(!ticks[j].animation_enabled);
    }
}

/// Resuming is continuous. Where the calls from the `i`-th on have animation
/// disabled and the `j`-th enables it again, the `j`-th call reports the
/// effective time at which the `i`-th froze the clock, however long the pause
/// lasted.
pub proof fn lemma_resume_is_continuous(ticks: Seq<Tick>, i: int, j: int)
    requires
        never_runs_backwards(ticks),
        0 <= i < j < ticks.len(),
        flags_are(ticks, i, j, false),
        ticks[j].animation_enabled,
    ensures
        effective_time_at(ticks, j) == effective_time_at(ticks, i),
{
    lemma_disabled_time_is_constant(ticks, i, j - 1);
    assert(!ticks[j - 1].animation_enabled);
    lemma_stopwatch(ticks, j - 1);
}

/// Calling a clock again with the same animation flag leaves its state as
/// the first of the two calls left it: a clock is frozen once per pause and
/// re-anchored once per resume, at whatever times the calls are made.
pub proof fn lemma_same_flag_keeps_state(
    state: ClockState,
    elapsed: nat,
    next_elapsed: nat,
    animation_enabled: bool,
)
    ensures
        state.advance(elapsed, animation_enabled).advance(next_elapsed, animation_enabled)
            == state.advance(elapsed, animation_enabled),
{
}

/// `states` and `frames` record the life of one renderer whose calls were
/// `ticks`: it was created in `states[0]`, and its `k`-th call took it from
/// `states[k]` to `states[k + 1]` and produced `frames[k]`.
pub open spec fn is_run(ticks: Seq<Tick>, states: Seq<RendererState>, frames: Seq<Frame>) -> bool {
    &&& states.len() == ticks.len() + 1
    &&& frames.len() == ticks.len()
    &&& states[0].clock == ClockState::fresh()
    &&& forall|k: int|
        0 <= k < ticks.len() ==> states[k].renders(
            ticks[k].elapsed,
            ticks[k].animation_enabled,
            states[k + 1],
            #[trigger] frames[k],
        )
}

/// The frames of a renderer carry the effective times of its run, and the
/// renderer keeps the program and the start time that it was created with.
/// So every theorem of this module about the effective times of a run holds
/// of the frames that a renderer produces.
pub proof fn lemma_run_follows_timeline(
    ticks: Seq<Tick>,
    states: Seq<RendererState>,
    frames: Seq<Frame>,
    k: int,
)
    requires
        is_run(ticks, states, frames),
        0 <= k < ticks.len(),
    ensures
        states[k].clock == state_after(ticks.take(k)),
        states[k + 1].clock == state_after(ticks.take(k + 1)),
        frames[k].effective_time as nat == effective_time_at(ticks, k),
        states[k + 1].program == states[0].program,
        states[k + 1].start_time == states[0].start_time,
    decreases k,
{
    let frame = frames[k];
    if k == 0 {
        assert(ticks.take(0).len() == 0);
    } else {
        lemma_run_follows_timeline(ticks, states, frames, k - 1);
    }
    lemma_state_after_step(ticks, k);
}

} // verus!
