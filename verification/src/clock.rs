//! The animation clock: a stopwatch with pause and resume.
//!
//! All times are whole nanoseconds. `elapsed` is always the wall-clock time
//! that has passed since the clock's owner was created.

use vstd::prelude::*;

verus! {

/// `later - earlier`, or zero where `earlier` lies after `later`.
///
/// On a wall clock that never runs backwards this is plain subtraction.
pub open spec fn span(later: nat, earlier: nat) -> nat {
    if later >= earlier {
        (later - earlier) as nat
    } else {
        0
    }
}

/// What an [`AnimationClock`] remembers between two calls.
pub struct ClockState {
    /// The effective time at which animation was paused; `None` while it runs.
    pub frozen_time: Option<nat>,
    /// The wall-clock time that has been spent paused so far.
    pub total_paused_duration: nat,
}

impl ClockState {
    /// The state of a clock that has never been advanced.
    pub open spec fn fresh() -> ClockState {
        ClockState { frozen_time: None, total_paused_duration: 0 }
    }

    /// The state after a call at wall-clock time `elapsed`.
    ///
    /// An enabled call that finds the clock frozen re-anchors the paused
    /// duration so that the effective time goes on from the frozen value; a
    /// disabled call that finds it running freezes the current effective time.
    /// Every other call leaves the state as it is.
    pub open spec fn advance(self, elapsed: nat, animation_enabled: bool) -> ClockState {
        if animation_enabled {
            ClockState {
                frozen_time: None,
                total_paused_duration: match self.frozen_time {
                    Some(frozen) => span(elapsed, frozen),
                    None => self.total_paused_duration,
                },
            }
        } else {
            ClockState {
                frozen_time: Some(
                    match self.frozen_time {
                        Some(frozen) => frozen,
                        None => span(elapsed, self.total_paused_duration),
                    },
                ),
                total_paused_duration: self.total_paused_duration,
            }
        }
    }

    /// The effective animation time that a call at wall-clock time `elapsed`
    /// reports: wall-clock time less the time spent paused while animation is
    /// enabled, the frozen time while it is disabled.
    pub open spec fn effective_time(self, elapsed: nat, animation_enabled: bool) -> nat {
        let next = self.advance(elapsed, animation_enabled);
        match next.frozen_time {
            Some(frozen) => frozen,
            None => span(elapsed, next.total_paused_duration),
        }
    }
}

/// The pause/resume state of one effect's time base.
#[derive(Clone, Copy, Debug)]
pub struct AnimationClock {
    frozen_time: Option<u64>,
    total_paused_duration: u64,
}

impl View for AnimationClock {
    type V = ClockState;

    closed spec fn view(&self) -> ClockState {
        ClockState {
            frozen_time: match self.frozen_time {
                Some(frozen) => Some(frozen as nat),
                None => None,
            },
            total_paused_duration: self.total_paused_duration as nat,
        }
    }
}

impl AnimationClock {
    /// A clock that is running and has never been paused.
    pub fn new() -> (clock: AnimationClock)
        ensures
            clock@ == ClockState::fresh(),
    {
        AnimationClock { frozen_time: None, total_paused_duration: 0 }
    }

    /// Advances the clock to wall-clock time `elapsed` and returns the
    /// effective animation time of this call.
    pub fn advance(&mut self, elapsed: u64, animation_enabled: bool) -> (effective_time: u64)
        ensures
            final(self)@ == old(self)@.advance(elapsed as nat, animation_enabled),
            effective_time as nat == old(self)@.effective_time(elapsed as nat, animation_enabled),
    {
        if animation_enabled {
            if let Some(frozen) = self.frozen_time.take() {
                self.total_paused_duration = elapsed.saturating_sub(frozen);
            }
            elapsed.saturating_sub(self.total_paused_duration)
        } else {
            match self.frozen_time {
                Some(frozen) => frozen,
                None => {
                    let current: u64 = elapsed.saturating_sub(self.total_paused_duration);
                    self.frozen_time = Some(current);
                    current
                },
            }
        }
    }

    /// The effective time at which the clock stands still, if it is paused.
    pub fn frozen_time(&self) -> (frozen: Option<u64>)
        ensures
            match frozen {
                Some(time) => self@.frozen_time == Some(time as nat),
                None => self@.frozen_time.is_none(),
            },
    {
        self.frozen_time
    }

    /// The wall-clock time that the clock has spent paused, as of the last
    /// call that resumed it.
    pub fn total_paused_duration(&self) -> (paused: u64)
        ensures
            paused as nat == self@.total_paused_duration,
    {
        self.total_paused_duration
    }
}

} // verus!
