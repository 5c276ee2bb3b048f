//! The world state the behavior layer decides on.

use vstd::prelude::*;
use crate::game::FilteredGameControllerState;
use crate::geometry::Point2;

verus! {

/// Which way a rolling ball approaches the robot on the ramp.
#[derive(Clone, Copy, Debug, PartialEq, Eq, Structural, Hash)]
pub enum RampDirection {
    Left,
    Right,
}

/// The robot's top-level operating state.
#[derive(Clone, Copy, Debug, PartialEq, Eq, Structural, Hash)]
pub enum PrimaryState {
    Unstiff,
    Animation { stiff: bool },
    Initial,
    Ready,
    InSet,
    Playing,
    Penalized,
    Finished,
    Calibration,
    Standby,
    KickingRollingBall { ramp_direction: RampDirection },
}

impl Default for PrimaryState {
    fn default() -> (r: Self)
        ensures
            r == PrimaryState::Unstiff,
    {
        PrimaryState::Unstiff
    }
}

/// The ball as the behavior layer sees it.
#[derive(Clone, Copy, Debug, PartialEq, Eq, Structural)]
pub struct BallState {
    pub ball_in_ground: Point2,
    pub ball_in_field: Point2,
}

/// The robot's own situation within the world state.
#[derive(Clone, Copy, Debug, PartialEq, Eq, Structural)]
pub struct RobotState {
    pub primary_state: PrimaryState,
}

/// Everything the behavior layer reads in one cycle.
#[derive(Clone, Copy, Debug, PartialEq, Eq, Structural)]
pub struct WorldState {
    pub robot: RobotState,
    pub ball: Option<BallState>,
    pub filtered_game_controller_state: Option<FilteredGameControllerState>,
}

} // verus!
