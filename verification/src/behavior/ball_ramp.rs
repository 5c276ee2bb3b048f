//! Behavior branch for the rolling-ball kicking state: searches for
//! the ball when it is lost, otherwise watches it.

use vstd::prelude::*;
use crate::command::{HeadMotion, ImageRegion, MotionCommand};
use crate::world::{PrimaryState, WorldState};

verus! {

/// Emits the stand-and-watch command while the robot is in the
/// rolling-ball kicking state: search to the right when the ball is
/// lost, otherwise look at it; any other primary state yields nothing.
pub fn execute(world_state: &WorldState) -> (r: Option<MotionCommand>)
    ensures
        world_state.robot.primary_state !is KickingRollingBall ==> r is None,
        (world_state.robot.primary_state is KickingRollingBall && world_state.ball is None) ==> r
            == Some(MotionCommand::Stand { head: HeadMotion::SearchRight }),
        world_state.robot.primary_state is KickingRollingBall ==> (world_state.ball matches Some(
            ball,
        ) ==> r == Some(
            MotionCommand::Stand {
                head: HeadMotion::LookAt {
                    target: ball.ball_in_ground,
                    image_region_target: ImageRegion::Center,
                    camera: None,
                },
            },
        )),
{
    match (world_state.robot.primary_state, world_state.ball) {
        (PrimaryState::KickingRollingBall { .. }, None) => Some(
            MotionCommand::Stand { head: HeadMotion::SearchRight },
        ),
        (PrimaryState::KickingRollingBall { .. }, Some(ball)) => Some(
            MotionCommand::Stand {
                head: HeadMotion::LookAt {
                    target: ball.ball_in_ground,
                    image_region_target: ImageRegion::Center,
                    camera: None,
                },
            },
        ),
        _ => None,
    }
}

} // verus!
