//! Behavior branch that fires an instant forward kick at a rolling
//! ball once its predicted arrival falls inside the start window.

use vstd::prelude::*;
use crate::command::{ArmMotion, HeadMotion, ImageRegion, KickVariant, MotionCommand, Side};
use crate::world::{PrimaryState, RampDirection, WorldState};

verus! {

/// Decides the rolling-ball kick: with the ball lost the head searches
/// toward the ramp; with the ball seen the head looks at it, and the
/// kick fires exactly when the time to reach the foot, less the kick
/// duration threshold, is under the start threshold, with the kicking
/// side opposite the ramp direction; otherwise the robot stands and
/// keeps watching the ball.
pub fn execute(
    world_state: &WorldState,
    time_to_reach_foot_ms: u64,
    kick_strength: i64,
    kick_start_threshold_ms: i64,
    kick_duration_threshold_ms: u64,
) -> (r: Option<MotionCommand>)
    requires
        time_to_reach_foot_ms <= 1_000_000_000,
        kick_duration_threshold_ms <= 1_000_000_000,
    ensures
        world_state.robot.primary_state !is KickingRollingBall ==> r is None,
        ({
            let fires = time_to_reach_foot_ms - kick_duration_threshold_ms
                < kick_start_threshold_ms;
            match world_state.robot.primary_state {
                PrimaryState::KickingRollingBall { ramp_direction } => {
                    let kicking_side = match ramp_direction {
                        RampDirection::Left => Side::Right,
                        RampDirection::Right => Side::Left,
                    };
                    let search_head = match ramp_direction {
                        RampDirection::Left => HeadMotion::SearchLeft,
                        RampDirection::Right => HeadMotion::SearchRight,
                    };
                    match world_state.ball {
                        None => r == Some(MotionCommand::Stand { head: search_head }),
                        Some(ball) => {
                            let watch_head = HeadMotion::LookAt {
                                target: ball.ball_in_ground,
                                image_region_target: ImageRegion::Center,
                                camera: None,
                            };
                            if fires {
                                r == Some(
                                    MotionCommand::InWalkKick {
                                        head: watch_head,
                                        kick: KickVariant::InstantForward,
                                        kicking_side,
                                        strength: kick_strength,
                                        left_arm: ArmMotion::Swing,
                                        right_arm: ArmMotion::Swing,
                                    },
                                )
                            } else {
                                r == Some(MotionCommand::Stand { head: watch_head })
                            }
                        },
                    }
                },
                _ => r is None,
            }
        }),
{
    match (world_state.robot.primary_state, world_state.ball) {
        (PrimaryState::KickingRollingBall { ramp_direction: RampDirection::Right }, None) => Some(
            MotionCommand::Stand { head: HeadMotion::SearchRight },
        ),
        (PrimaryState::KickingRollingBall { ramp_direction: RampDirection::Left }, None) => Some(
            MotionCommand::Stand { head: HeadMotion::SearchLeft },
        ),
        (PrimaryState::KickingRollingBall { ramp_direction }, Some(ball)) => {
            let kicking_side: Side = match ramp_direction {
                RampDirection::Left => Side::Right,
                RampDirection::Right => Side::Left,
            };
            let head = HeadMotion::LookAt {
                target: ball.ball_in_ground,
                image_region_target: ImageRegion::Center,
                camera: None,
            };
            let reach: i128 = time_to_reach_foot_ms as i128 - kick_duration_threshold_ms as i128;
            if reach < kick_start_threshold_ms as i128 {
                return Some(
                    MotionCommand::InWalkKick {
                        head,
                        kick: KickVariant::InstantForward,
                        kicking_side,
                        strength: kick_strength,
                        left_arm: ArmMotion::Swing,
                        right_arm: ArmMotion::Swing,
                    },
                );
            }
            Some(MotionCommand::Stand { head })
        },
        _ => None,
    }
}

} // verus!
