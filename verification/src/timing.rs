//! Frame timing: when the last frame was, and how long before it the one
//! before was. Time is counted in whole microseconds on a clock of the
//! caller's choosing.

use vstd::prelude::*;

verus! {

/// Microseconds in a second.
pub const MICROS_PER_SECOND: u64 = 1_000_000;

/// The time step that stands for the one before the first frame: a sixtieth
/// of a second.
pub const NOMINAL_STEP_MICROS: u64 = 16_667;

/// The time of the last frame and the time that passed between it and the
/// frame before.
#[derive(Clone, Copy, PartialEq, Eq, Debug, Structural)]
pub struct FrameTiming {
    /// When the last frame was; `None` before the first one.
    pub last_micros: Option<u64>,
    /// Time from the frame before the last to the last. Never negative, and
    /// zero for the first frame.
    pub delta_micros: u64,
}

impl FrameTiming {
    /// The timing before any frame.
    pub open spec fn initial() -> FrameTiming {
        FrameTiming { last_micros: None, delta_micros: 0 }
    }

    /// The timing after a frame at `now`.
    ///
    /// The first frame has a delta of zero. After that the delta is the time
    /// since the last frame. A clock that has gone back gives a delta of
    /// zero, and the time of the last frame stays where it was, so that this
    /// time never decreases.
    pub open spec fn advanced(self, now: u64) -> FrameTiming {
        match self.last_micros {
            None => FrameTiming { last_micros: Some(now), delta_micros: 0 },
            Some(last) => if now >= last {
                FrameTiming { last_micros: Some(now), delta_micros: (now - last) as u64 }
            } else {
                FrameTiming { last_micros: Some(last), delta_micros: 0 }
            },
        }
    }

    /// The timing before any frame.
    pub fn new() -> (timing: FrameTiming)
        ensures
            timing == FrameTiming::initial(),
    {
        FrameTiming { last_micros: None, delta_micros: 0 }
    }

    /// Records a frame at `now_micros`.
    pub fn advance(&mut self, now_micros: u64)
        ensures
            *final(self) == old(self).advanced(now_micros),
    {
        match self.last_micros {
            None => {
                self.last_micros = Some(now_micros);
                self.delta_micros = 0;
            },
            Some(last) => {
                if now_micros >= last {
                    self.last_micros = Some(now_micros);
                    self.delta_micros = now_micros - last;
                } else {
                    self.delta_micros = 0;
                }
            },
        }
    }

    /// The time step of the frame, for a user interface that cannot stand
    /// still: the delta where time has passed, and `previous`, the step of
    /// the frame before, where it has not.
    pub open spec fn step_of(self, previous: u64) -> u64 {
        if self.delta_micros > 0 {
            self.delta_micros
        } else {
            previous
        }
    }

    /// The time step of the frame.
    pub fn step_micros(&self, previous: u64) -> (step: u64)
        ensures
            step == self.step_of(previous),
    {
        if self.delta_micros > 0 {
            self.delta_micros
        } else {
            previous
        }
    }
}

/// The time of the last frame never goes back, whatever the clock does, and
/// once a frame has been there is always a time of the last frame.
pub proof fn law_last_frame_time_is_monotonic(timing: FrameTiming, now: u64)
    ensures
        timing.advanced(now).last_micros is Some,
        timing.last_micros matches Some(last) ==> timing.advanced(now).last_micros->0 >= last,
        timing.advanced(now).last_micros->0 >= now,
{
}

/// On a clock that does not go back, the delta of a frame is the time since
/// the frame before, and the deltas of two frames in a row add up to the
/// time between the first and the third.
pub proof fn law_delta_is_elapsed_time(timing: FrameTiming, first: u64, second: u64)
    requires
        timing.last_micros matches Some(last) ==> last <= first,
        first <= second,
    ensures
        timing.last_micros matches Some(last) ==> timing.advanced(first).delta_micros == first
            - last,
        timing.last_micros is None ==> timing.advanced(first).delta_micros == 0,
        timing.advanced(first).advanced(second).delta_micros == second - first,
        timing.advanced(first).advanced(second).last_micros == Some(second),
{
}

/// A time step is above zero wherever the step before was, so that a user
/// interface that starts from [`NOMINAL_STEP_MICROS`] never stands still;
/// and where time has passed, the step is the time that has passed.
pub proof fn law_step_is_never_zero(timing: FrameTiming, previous: u64)
    ensures
        previous > 0 ==> timing.step_of(previous) > 0,
        timing.delta_micros > 0 ==> timing.step_of(previous) == timing.delta_micros,
        timing.delta_micros == 0 ==> timing.step_of(previous) == previous,
        NOMINAL_STEP_MICROS > 0,
{
}

} // verus!
