//! The behavior selector: folds the world state into the single motion
//! command of this cycle, by a fixed priority ladder.

use vstd::prelude::*;
use crate::command::{
    ArmMotion, FallKind, HeadMotion, KickVariant, MotionCommand, OrientationMode, PathSegment,
    Side, WalkSpeed,
};
use crate::step::Step;
use crate::world::{PrimaryState, WorldState};

verus! {

/// A pre-scored kick opportunity: which kick, with which foot, how
/// hard, and where the kicking pose lies in the upcoming-support
/// frame (millimetres and milliradians).
#[derive(Clone, Copy, Debug, PartialEq, Eq, Structural)]
pub struct KickDecision {
    pub variant: KickVariant,
    pub kicking_side: Side,
    pub strength_milli: i64,
    pub pose_x: i64,
    pub pose_y: i64,
    pub pose_turn: i64,
}

/// The selector's thresholds: how close the kicking pose must be, per
/// component, for the kick to fire.
#[derive(Clone, Copy, Debug, PartialEq, Eq, Structural)]
pub struct BehaviorParameters {
    pub kick_pose_reached_x: i64,
    pub kick_pose_reached_y: i64,
    pub kick_pose_reached_turn: i64,
}

/// Whether the kicking pose lies inside the reached bands.  The
/// containment is closed on every component, so the kick trigger is
/// deterministic on the boundary.
pub open spec fn kick_pose_reached_spec(decision: KickDecision, p: BehaviorParameters) -> bool {
    &&& -p.kick_pose_reached_x <= decision.pose_x <= p.kick_pose_reached_x
    &&& -p.kick_pose_reached_y <= decision.pose_y <= p.kick_pose_reached_y
    &&& -p.kick_pose_reached_turn <= decision.pose_turn <= p.kick_pose_reached_turn
}

/// Decides whether a kick decision has been reached.
pub fn kick_pose_reached(decision: &KickDecision, parameters: &BehaviorParameters) -> (r: bool)
    requires
        parameters.kick_pose_reached_x > i64::MIN,
        parameters.kick_pose_reached_y > i64::MIN,
        parameters.kick_pose_reached_turn > i64::MIN,
    ensures
        r == kick_pose_reached_spec(*decision, *parameters),
{
    -parameters.kick_pose_reached_x <= decision.pose_x && decision.pose_x
        <= parameters.kick_pose_reached_x && -parameters.kick_pose_reached_y <= decision.pose_y
        && decision.pose_y <= parameters.kick_pose_reached_y && -parameters.kick_pose_reached_turn
        <= decision.pose_turn && decision.pose_turn <= parameters.kick_pose_reached_turn
}

/// Selects this cycle's motion command, first match deciding: the
/// primary states that force a motion outright; fall protection;
/// standing back up; the rolling-ball kick state; a reached in-walk
/// kick; walking the planned path; and last the remote-control
/// velocity override.
#[verifier::rlimit(30)]
pub fn execute(
    world_state: &WorldState,
    fall_protection_requested: Option<FallKind>,
    lying_on_ground: Option<FallKind>,
    kick_decision: Option<KickDecision>,
    path: &Vec<PathSegment>,
    remote_control_velocity: Option<Step>,
    parameters: &BehaviorParameters,
    time_to_reach_foot_ms: u64,
    kick_strength_milli: i64,
    kick_start_threshold_ms: i64,
    kick_duration_threshold_ms: u64,
) -> (r: MotionCommand)
    requires
        time_to_reach_foot_ms <= 1_000_000_000,
        kick_duration_threshold_ms <= 1_000_000_000,
        parameters.kick_pose_reached_x > i64::MIN,
        parameters.kick_pose_reached_y > i64::MIN,
        parameters.kick_pose_reached_turn > i64::MIN,
    ensures
        world_state.robot.primary_state == PrimaryState::Unstiff ==> r == MotionCommand::Unstiff,
        world_state.robot.primary_state == PrimaryState::Penalized ==> r
            == MotionCommand::Penalized,
        world_state.robot.primary_state == PrimaryState::Initial ==> r == (
        MotionCommand::Initial { head: HeadMotion::Center }),
        (primary_permits_play(world_state.robot.primary_state)
            && fall_protection_requested is Some) ==> r == MotionCommand::FallProtection,
        (primary_permits_play(world_state.robot.primary_state) && fall_protection_requested is None)
            ==> (lying_on_ground matches Some(kind) ==> r == (MotionCommand::StandUp { kind })),
        (primary_permits_play(world_state.robot.primary_state) && fall_protection_requested is None
            && lying_on_ground is None && !(world_state.robot.primary_state
            is KickingRollingBall)) ==> (kick_decision matches Some(decision) ==> (
        kick_pose_reached_spec(decision, *parameters) ==> r == (MotionCommand::InWalkKick {
            head: HeadMotion::Center,
            kick: decision.variant,
            kicking_side: decision.kicking_side,
            strength: decision.strength_milli,
            left_arm: ArmMotion::Swing,
            right_arm: ArmMotion::Swing,
        }))),
        (primary_permits_play(world_state.robot.primary_state) && fall_protection_requested is None
            && lying_on_ground is None && !(world_state.robot.primary_state
            is KickingRollingBall) && (kick_decision matches Some(decision)
            ==> !kick_pose_reached_spec(decision, *parameters)) && path@.len() > 0) ==> (
        r matches MotionCommand::Walk { head, path: planned, orientation_mode, speed } ==> (head
            == HeadMotion::Center && planned@ == path@ && orientation_mode
            == OrientationMode::AlignWithPath && speed == WalkSpeed::Normal)) && (r
            matches MotionCommand::Walk { .. }),
        (primary_permits_play(world_state.robot.primary_state) && fall_protection_requested is None
            && lying_on_ground is None && !(world_state.robot.primary_state
            is KickingRollingBall) && (kick_decision matches Some(decision)
            ==> !kick_pose_reached_spec(decision, *parameters)) && path@.len() == 0) ==> (
        remote_control_velocity matches Some(velocity) ==> r == (MotionCommand::WalkWithVelocity {
            head: HeadMotion::Center,
            velocity,
        })),
{
    match world_state.robot.primary_state {
        PrimaryState::Unstiff => {
            return MotionCommand::Unstiff;
        },
        PrimaryState::Penalized => {
            return MotionCommand::Penalized;
        },
        PrimaryState::Initial => {
            return MotionCommand::Initial { head: HeadMotion::Center };
        },
        PrimaryState::Animation { stiff } => {
            return MotionCommand::Animation { stiff };
        },
        PrimaryState::Finished => {
            return MotionCommand::Stand { head: HeadMotion::Center };
        },
        _ => {
        },
    }
    if fall_protection_requested.is_some() {
        return MotionCommand::FallProtection;
    }
    if let Some(kind) = lying_on_ground {
        return MotionCommand::StandUp { kind };
    }
    if matches!(world_state.robot.primary_state, PrimaryState::KickingRollingBall { .. }) {
        if let Some(command) = crate::behavior::kicking_ball::execute(
            world_state,
            time_to_reach_foot_ms,
            kick_strength_milli,
            kick_start_threshold_ms,
            kick_duration_threshold_ms,
        ) {
            return command;
        }
        return MotionCommand::Stand { head: HeadMotion::Center };
    }
    if let Some(decision) = kick_decision {
        if kick_pose_reached(&decision, parameters) {
            return MotionCommand::InWalkKick {
                head: HeadMotion::Center,
                kick: decision.variant,
                kicking_side: decision.kicking_side,
                strength: decision.strength_milli,
                left_arm: ArmMotion::Swing,
                right_arm: ArmMotion::Swing,
            };
        }
    }
    if path.len() > 0 {
        let mut planned: Vec<PathSegment> = Vec::new();
        let mut i: usize = 0;
        while i < path.len()
            invariant
                i <= path@.len(),
                planned@ == path@.subrange(0, i as int),
            decreases path@.len() - i,
        {
            proof {
                assert(path@.subrange(0, i as int).push(path@[i as int]) =~= path@.subrange(
                    0,
                    i as int + 1,
                ));
            }
            planned.push(path[i]);
            i = i + 1;
        }
        proof {
            assert(planned@ =~= path@);
        }
        return MotionCommand::Walk {
            head: HeadMotion::Center,
            path: planned,
            orientation_mode: OrientationMode::AlignWithPath,
            speed: WalkSpeed::Normal,
        };
    }
    if let Some(velocity) = remote_control_velocity {
        return MotionCommand::WalkWithVelocity { head: HeadMotion::Center, velocity };
    }
    MotionCommand::Stand { head: HeadMotion::Center }
}

/// The primary states in which the play ladder below the forced
/// motions applies.
pub open spec fn primary_permits_play(state: PrimaryState) -> bool {
    match state {
        PrimaryState::Unstiff => false,
        PrimaryState::Animation { .. } => false,
        PrimaryState::Initial => false,
        PrimaryState::Penalized => false,
        PrimaryState::Finished => false,
        _ => true,
    }
}

} // verus!
