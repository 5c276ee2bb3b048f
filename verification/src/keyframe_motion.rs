//! Keyframe motions that play out over a fixed duration: the sit-down
//! and wide-stance primitives advance an interpolator while they are
//! selected and report a safe exit once it has finished.
//!
//! The joint-space keyframe values themselves are loaded at startup by
//! the runtime around the core; the library tracks the time base that
//! decides when the motion has completed.

use vstd::prelude::*;
use crate::motion::{MotionSafeExits, MotionSelection, MotionType};

verus! {

/// The time base of a keyframe motion: how long it takes and how far
/// it has played.
#[derive(Clone, Copy, Debug, PartialEq, Eq, Structural)]
pub struct MotionInterpolator {
    pub total_duration_ms: u64,
    pub elapsed_ms: u64,
}

/// A played position never exceeds the motion's length.
pub open spec fn interpolator_wf(i: MotionInterpolator) -> bool {
    i.elapsed_ms <= i.total_duration_ms
}

impl MotionInterpolator {
    /// A fresh interpolator at the start of its motion.
    pub fn new(total_duration_ms: u64) -> (r: MotionInterpolator)
        ensures
            r.total_duration_ms == total_duration_ms,
            r.elapsed_ms == 0,
            interpolator_wf(r),
    {
        MotionInterpolator { total_duration_ms, elapsed_ms: 0 }
    }

    /// Advances play time, saturating at the end of the motion.
    pub fn advance_by(&mut self, duration_ms: u64)
        requires
            interpolator_wf(*old(self)),
        ensures
            interpolator_wf(*final(self)),
            final(self).total_duration_ms == old(self).total_duration_ms,
            final(self).elapsed_ms == (if old(self).elapsed_ms + duration_ms > old(self).total_duration_ms {
                old(self).total_duration_ms as int
            } else {
                old(self).elapsed_ms + duration_ms
            }),
    {
        if duration_ms > self.total_duration_ms - self.elapsed_ms {
            self.elapsed_ms = self.total_duration_ms;
        } else {
            self.elapsed_ms = self.elapsed_ms + duration_ms;
        }
    }

    /// Rewinds to the start.
    pub fn reset(&mut self)
        ensures
            final(self).total_duration_ms == old(self).total_duration_ms,
            final(self).elapsed_ms == 0,
            interpolator_wf(*final(self)),
    {
        self.elapsed_ms = 0;
    }

    /// Whether the motion has played to its end.
    pub fn is_finished(&self) -> (r: bool)
        ensures
            r == (self.elapsed_ms >= self.total_duration_ms),
    {
        self.elapsed_ms >= self.total_duration_ms
    }

    /// How much play time is left.
    pub fn estimated_remaining_duration(&self) -> (r: u64)
        requires
            interpolator_wf(*self),
        ensures
            r == self.total_duration_ms - self.elapsed_ms,
    {
        self.total_duration_ms - self.elapsed_ms
    }

    /// How far the motion has played, in thousandths.
    pub fn progress_milli(&self) -> (r: u64)
        requires
            interpolator_wf(*self),
            self.total_duration_ms >= 1,
            self.total_duration_ms <= 1_000_000,
        ensures
            r == (self.elapsed_ms * 1000) as int / (self.total_duration_ms as int),
            r <= 1000,
    {
        proof {
            assert((self.elapsed_ms * 1000) as int / (self.total_duration_ms as int) <= 1000) by (
            nonlinear_arith)
                requires
                    self.elapsed_ms <= self.total_duration_ms,
                    1 <= self.total_duration_ms <= 1_000_000,
            ;
        }
        self.elapsed_ms * 1000 / self.total_duration_ms
    }
}

/// The sit-down primitive: plays its keyframes while selected and
/// opens its safe exit when done.
#[derive(Clone, Copy, Debug, PartialEq, Eq, Structural)]
pub struct SitDown {
    pub interpolator: MotionInterpolator,
}

impl SitDown {
    /// A sit-down motion of the given length.
    pub fn new(total_duration_ms: u64) -> (r: SitDown)
        ensures
            r.interpolator.total_duration_ms == total_duration_ms,
            r.interpolator.elapsed_ms == 0,
    {
        SitDown { interpolator: MotionInterpolator::new(total_duration_ms) }
    }

    /// One cycle: the interpolator advances while the sit-down is the
    /// current motion and rewinds otherwise, and the safe-exit flag
    /// reports whether the motion has finished.
    pub fn cycle(
        &mut self,
        motion_selection: &MotionSelection,
        last_cycle_duration_ms: u64,
        motion_safe_exits: &mut MotionSafeExits,
    )
        requires
            interpolator_wf(old(self).interpolator),
        ensures
            interpolator_wf(final(self).interpolator),
            motion_selection.current_motion == MotionType::SitDown ==> final(self).interpolator.elapsed_ms == (if old(self).interpolator.elapsed_ms
                + last_cycle_duration_ms > old(self).interpolator.total_duration_ms {
                old(self).interpolator.total_duration_ms as int
            } else {
                old(self).interpolator.elapsed_ms + last_cycle_duration_ms
            }),
            motion_selection.current_motion != MotionType::SitDown ==> final(self).interpolator.elapsed_ms == 0,
            *final(motion_safe_exits) == old(motion_safe_exits).spec_set(
                MotionType::SitDown,
                final(self).interpolator.elapsed_ms >= final(self).interpolator.total_duration_ms,
            ),
    {
        if motion_selection.current_motion == MotionType::SitDown {
            self.interpolator.advance_by(last_cycle_duration_ms);
        } else {
            self.interpolator.reset();
        }
        let finished: bool = self.interpolator.is_finished();
        motion_safe_exits.set(MotionType::SitDown, finished);
    }
}

/// The wide-stance primitive, with the same play-and-rewind cycle.
#[derive(Clone, Copy, Debug, PartialEq, Eq, Structural)]
pub struct WideStance {
    pub interpolator: MotionInterpolator,
}

impl WideStance {
    /// A wide-stance motion of the given length.
    pub fn new(total_duration_ms: u64) -> (r: WideStance)
        ensures
            r.interpolator.total_duration_ms == total_duration_ms,
            r.interpolator.elapsed_ms == 0,
    {
        WideStance { interpolator: MotionInterpolator::new(total_duration_ms) }
    }

    /// One cycle: advances while selected, rewinds otherwise, opens
    /// the safe exit when finished, and reports the remaining play
    /// time while the motion runs.
    pub fn cycle(
        &mut self,
        motion_selection: &MotionSelection,
        last_cycle_duration_ms: u64,
        motion_safe_exits: &mut MotionSafeExits,
    ) -> (r: Option<u64>)
        requires
            interpolator_wf(old(self).interpolator),
        ensures
            interpolator_wf(final(self).interpolator),
            motion_selection.current_motion == MotionType::WideStance ==> (final(self).interpolator.elapsed_ms == (if old(self).interpolator.elapsed_ms
                + last_cycle_duration_ms > old(self).interpolator.total_duration_ms {
                old(self).interpolator.total_duration_ms as int
            } else {
                old(self).interpolator.elapsed_ms + last_cycle_duration_ms
            }) && r == Some(
                (final(self).interpolator.total_duration_ms - final(self).interpolator.elapsed_ms) as u64,
            )),
            motion_selection.current_motion != MotionType::WideStance ==> (final(self).interpolator.elapsed_ms == 0 && r is None),
            *final(motion_safe_exits) == old(motion_safe_exits).spec_set(
                MotionType::WideStance,
                final(self).interpolator.elapsed_ms >= final(self).interpolator.total_duration_ms,
            ),
    {
        let remaining: Option<u64> = if motion_selection.current_motion == MotionType::WideStance {
            self.interpolator.advance_by(last_cycle_duration_ms);
            Some(self.interpolator.estimated_remaining_duration())
        } else {
            self.interpolator.reset();
            None
        };
        let finished: bool = self.interpolator.is_finished();
        motion_safe_exits.set(MotionType::WideStance, finished);
        remaining
    }
}

} // verus!
