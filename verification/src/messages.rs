//! Team-message records exchanged over the lossy one-way wire.

use vstd::prelude::*;
use crate::catching::Pose2;
use crate::game::PlayerNumber;
use crate::geometry::Point2;

verus! {

/// A ball estimate as shared with teammates: its field position and
/// how old the supporting observation is.
#[derive(Clone, Copy, Debug, PartialEq, Eq, Structural)]
pub struct BallPosition {
    pub position: Point2,
    pub age_ms: u64,
}

/// The bounded team message: the sender, their pose on the field,
/// whether the referee's ready signal was seen, and optionally the
/// ball and the time to reach the kick position.
#[derive(Clone, Copy, Debug, PartialEq, Eq, Structural)]
pub struct HulkMessage {
    pub player_number: PlayerNumber,
    pub pose: Pose2,
    pub is_referee_ready_signal_detected: bool,
    pub ball_position: Option<BallPosition>,
    pub time_to_reach_kick_position_ms: Option<u64>,
}

} // verus!
