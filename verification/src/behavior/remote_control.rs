//! Behavior branch that translates remote-control input into a
//! velocity walk.

use vstd::prelude::*;
use crate::command::{HeadMotion, MotionCommand};
use crate::step::Step;

verus! {

/// The remote-control parameters: the commanded walk velocity.
#[derive(Clone, Copy, Debug, PartialEq, Eq, Structural)]
pub struct RemoteControlParameters {
    pub walk: Step,
}

/// Translates the joystick-style walk request into a walk-with-velocity
/// command with a centred head.
pub fn execute(remote_control_parameters: &RemoteControlParameters) -> (r: Option<MotionCommand>)
    ensures
        r == Some(
            MotionCommand::WalkWithVelocity {
                head: HeadMotion::Center,
                velocity: remote_control_parameters.walk,
            },
        ),
{
    Some(
        MotionCommand::WalkWithVelocity {
            head: HeadMotion::Center,
            velocity: remote_control_parameters.walk,
        },
    )
}

} // verus!
