//! The in-walk kick overlay: tracks progress through a kick's
//! sub-steps and computes the time-interpolated joint overrides.

use vstd::prelude::*;
use crate::command::{KickVariant, Side};
use crate::fixed::{mul_div_tz, SCALE};
use crate::geometry::Point2;

verus! {

/// One keyframe of a joint override: when it applies and the value it
/// interpolates toward, in milliradians.
#[derive(Clone, Copy, Debug, PartialEq, Eq, Structural)]
pub struct JointOverride {
    pub timepoint_ms: u64,
    pub value_milli: i64,
}

/// One sub-step of a kick: optional hip-pitch and ankle-pitch
/// override tracks.
#[derive(Clone, Debug)]
pub struct KickStep {
    pub hip_pitch_overrides: Option<Vec<JointOverride>>,
    pub ankle_pitch_overrides: Option<Vec<JointOverride>>,
}

/// The configured sub-step sequences of every kick variant.
#[derive(Clone, Debug)]
pub struct KickSteps {
    pub forward: Vec<KickStep>,
    pub turn: Vec<KickStep>,
    pub side: Vec<KickStep>,
    pub instant_forward: Vec<KickStep>,
}

impl KickSteps {
    /// The sub-step sequence of one variant, as a specification value.
    pub open spec fn spec_steps(self, variant: KickVariant) -> Seq<KickStep> {
        match variant {
            KickVariant::Forward => self.forward@,
            KickVariant::Turn => self.turn@,
            KickVariant::Side => self.side@,
            KickVariant::InstantForward => self.instant_forward@,
        }
    }

    /// How many sub-steps the variant has.
    pub fn num_steps(&self, variant: KickVariant) -> (r: usize)
        ensures
            r == self.spec_steps(variant).len(),
    {
        match variant {
            KickVariant::Forward => self.forward.len(),
            KickVariant::Turn => self.turn.len(),
            KickVariant::Side => self.side.len(),
            KickVariant::InstantForward => self.instant_forward.len(),
        }
    }

    /// The sub-step at the given index of the variant's sequence.
    pub fn get_step_at(&self, variant: KickVariant, index: usize) -> (r: &KickStep)
        requires
            index < self.spec_steps(variant).len(),
        ensures
            *r == self.spec_steps(variant)[index as int],
    {
        match variant {
            KickVariant::Forward => &self.forward[index],
            KickVariant::Turn => &self.turn[index],
            KickVariant::Side => &self.side[index],
            KickVariant::InstantForward => &self.instant_forward[index],
        }
    }
}

/// The executing kick: its variant, the foot that strikes, how far the
/// sequence has advanced, the strength in thousandths, and where the
/// ball was when the kick began.
#[derive(Clone, Copy, Debug, PartialEq, Eq, Structural)]
pub struct KickState {
    pub variant: KickVariant,
    pub side: Side,
    pub index: usize,
    pub strength_milli: i64,
    pub ball_position: Point2,
}

impl KickState {
    /// Starts a kick at the first sub-step.
    pub fn new(variant: KickVariant, side: Side, strength_milli: i64, ball_position: Point2) -> (r:
        KickState)
        ensures
            r.variant == variant,
            r.side == side,
            r.index == 0,
            r.strength_milli == strength_milli,
            r.ball_position == ball_position,
    {
        KickState { variant, side, index: 0, strength_milli, ball_position }
    }

    /// The kick after finishing one sub-step.
    pub fn advance_to_next_step(self) -> (r: KickState)
        requires
            self.index < 1_000_000,
        ensures
            r.index == self.index + 1,
            r.variant == self.variant,
            r.side == self.side,
            r.strength_milli == self.strength_milli,
            r.ball_position == self.ball_position,
    {
        KickState { index: self.index + 1, ..self }
    }

    /// Whether every sub-step of the variant has run.
    pub fn is_finished(&self, kick_steps: &KickSteps) -> (r: bool)
        ensures
            r == (self.index >= kick_steps.spec_steps(self.variant).len()),
    {
        self.index >= kick_steps.num_steps(self.variant)
    }

    /// The sub-step currently executing.
    pub fn get_step<'a>(&self, kick_steps: &'a KickSteps) -> (r: &'a KickStep)
        requires
            self.index < kick_steps.spec_steps(self.variant).len(),
        ensures
            *r == kick_steps.spec_steps(self.variant)[self.index as int],
    {
        kick_steps.get_step_at(self.variant, self.index)
    }
}

/// An override track the interpolation accepts: keyframes in strictly
/// increasing time order with bounded values.
pub open spec fn overrides_wf(s: Seq<JointOverride>) -> bool {
    &&& (forall|i: int|
        0 <= i < s.len() - 1 ==> (#[trigger] s[i]).timepoint_ms < s[i + 1].timepoint_ms)
    &&& (forall|i: int|
        0 <= i < s.len() ==> -1_000_000 <= (#[trigger] s[i]).value_milli <= 1_000_000)
    &&& (forall|i: int| 0 <= i < s.len() ==> (#[trigger] s[i]).timepoint_ms <= 1_000_000_000)
}

/// The override value at play time `t`: the first keyframe window
/// containing `t` interpolates linearly between its ends; outside
/// every window the override is zero.
pub open spec fn override_value_spec(s: Seq<JointOverride>, t: int, i: nat) -> int
    decreases s.len() - i,
{
    if i + 1 >= s.len() {
        0
    } else if s[i as int].timepoint_ms <= t < s[i as int + 1].timepoint_ms {
        let start = s[i as int];
        let end = s[i as int + 1];
        start.value_milli + mul_div_tz(
            end.value_milli - start.value_milli,
            ((t - start.timepoint_ms) * SCALE) / (end.timepoint_ms - start.timepoint_ms),
            SCALE as int,
        )
    } else {
        override_value_spec(s, t, i + 1)
    }
}

/// Computes the interpolated override at play time `t`.
pub fn compute_override(overrides: &Vec<JointOverride>, t_ms: u64) -> (r: i64)
    requires
        overrides_wf(overrides@),
        t_ms <= 1_000_000_000,
    ensures
        r == override_value_spec(overrides@, t_ms as int, 0),
        -2_000_000 <= r <= 2_000_000,
{
    let n: usize = overrides.len();
    if n < 1 {
        proof {
            reveal_with_fuel(override_value_spec, 2);
        }
        return 0;
    }
    let mut i: usize = 0;
    while i + 1 < n
        invariant
            i < n,
            n == overrides@.len(),
            n >= 1,
            overrides_wf(overrides@),
            t_ms <= 1_000_000_000,
            override_value_spec(overrides@, t_ms as int, 0) == override_value_spec(
                overrides@,
                t_ms as int,
                i as nat,
            ),
        decreases n - i,
    {
        let start: JointOverride = overrides[i];
        let end: JointOverride = overrides[i + 1];
        if start.timepoint_ms <= t_ms && t_ms < end.timepoint_ms {
            let span: u64 = end.timepoint_ms - start.timepoint_ms;
            let into: u64 = t_ms - start.timepoint_ms;
            proof {
                assert((into * SCALE) as int / (span as int) <= SCALE) by (nonlinear_arith)
                    requires
                        0 < span <= 1_000_000_000,
                        into < span,
                        SCALE == 1000,
                ;
                crate::fixed::lemma_mul_div_fraction(
                    (end.value_milli - start.value_milli) as int,
                    ((into as int) * (SCALE as int)) / (span as int),
                    SCALE as int,
                );
            }
            let linear_milli: i64 = (into * (SCALE as u64) / span) as i64;
            let delta: i64 = crate::fixed::mul_div(
                end.value_milli - start.value_milli,
                linear_milli,
                SCALE,
            );
            return start.value_milli + delta;
        }
        i = i + 1;
    }
    proof {
        reveal_with_fuel(override_value_spec, 2);
    }
    0
}

/// The hip-pitch and ankle-pitch overrides of a kick sub-step at play
/// time `t`, scaled by the kick strength.
pub fn compute_kick_overrides(kick_step: &KickStep, t_ms: u64, strength_milli: i64) -> (r: (
    i64,
    i64,
))
    requires
        (kick_step.hip_pitch_overrides matches Some(o) ==> overrides_wf(o@)),
        (kick_step.ankle_pitch_overrides matches Some(o) ==> overrides_wf(o@)),
        t_ms <= 1_000_000_000,
        0 <= strength_milli <= SCALE,
    ensures
        kick_step.hip_pitch_overrides is None ==> r.0 == 0,
        kick_step.ankle_pitch_overrides is None ==> r.1 == 0,
        kick_step.hip_pitch_overrides matches Some(o) ==> r.0 == mul_div_tz(
            strength_milli as int,
            override_value_spec(o@, t_ms as int, 0),
            SCALE as int,
        ),
        kick_step.ankle_pitch_overrides matches Some(o) ==> r.1 == mul_div_tz(
            strength_milli as int,
            override_value_spec(o@, t_ms as int, 0),
            SCALE as int,
        ),
{
    let hip: i64 = match &kick_step.hip_pitch_overrides {
        Some(overrides) => {
            let value: i64 = compute_override(overrides, t_ms);
            proof {
                crate::fixed::lemma_mul_bound(strength_milli as int, value as int, 1_000, 2_000_000);
                crate::fixed::lemma_div_tz_shrinks(
                    (strength_milli as int) * (value as int),
                    SCALE as int,
                );
            }
            crate::fixed::mul_div(strength_milli, value, SCALE)
        },
        None => 0,
    };
    let ankle: i64 = match &kick_step.ankle_pitch_overrides {
        Some(overrides) => {
            let value: i64 = compute_override(overrides, t_ms);
            proof {
                crate::fixed::lemma_mul_bound(strength_milli as int, value as int, 1_000, 2_000_000);
                crate::fixed::lemma_div_tz_shrinks(
                    (strength_milli as int) * (value as int),
                    SCALE as int,
                );
            }
            crate::fixed::mul_div(strength_milli, value, SCALE)
        },
        None => 0,
    };
    (hip, ankle)
}

} // verus!
