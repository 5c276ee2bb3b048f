//! Commands flowing from the behavior layer into the motion pipeline.

use vstd::prelude::*;
pub use crate::geometry::ArcPath;
use crate::geometry::{Orientation, Point2};
use crate::step::Step;

verus! {

/// The foot bearing weight, or the foot asked to kick.
#[derive(Clone, Copy, Debug, PartialEq, Eq, Structural)]
pub enum Side {
    Left,
    Right,
}

impl Side {
    pub fn opposite(self) -> (r: Side)
        ensures
            r == (match self {
                Side::Left => Side::Right,
                Side::Right => Side::Left,
            }),
    {
        match self {
            Side::Left => Side::Right,
            Side::Right => Side::Left,
        }
    }
}

/// Directions a jump motion can take.
#[derive(Clone, Copy, Debug, PartialEq, Eq, Structural)]
pub enum JumpDirection {
    Left,
    Right,
    Center,
}

/// How the robot is lying when a stand-up is requested.
#[derive(Clone, Copy, Debug, PartialEq, Eq, Structural)]
pub enum FallKind {
    FacingDown,
    FacingUp,
    Sitting,
}

/// The in-walk kick trajectory families.
#[derive(Clone, Copy, Debug, PartialEq, Eq, Structural)]
pub enum KickVariant {
    Forward,
    Turn,
    Side,
    InstantForward,
}

/// Arm posture request accompanying a walk.
#[derive(Clone, Copy, Debug, PartialEq, Eq, Structural)]
pub enum ArmMotion {
    Swing,
    PullTight,
}

/// Where in the image a look-at target should land.
#[derive(Clone, Copy, Debug, PartialEq, Eq, Structural)]
pub enum ImageRegion {
    Center,
    Bottom,
}

/// Which camera a look-at request prefers.
#[derive(Clone, Copy, Debug, PartialEq, Eq, Structural)]
pub enum CameraPosition {
    Top,
    Bottom,
}

/// Head motion requests.
#[derive(Clone, Copy, Debug, PartialEq, Eq, Structural)]
pub enum HeadMotion {
    Center,
    SearchLeft,
    SearchRight,
    LookAt { target: Point2, image_region_target: ImageRegion, camera: Option<CameraPosition> },
    Unstiff,
}

/// How the step planner should orient the robot along a walk.
#[derive(Clone, Copy, Debug, PartialEq, Eq, Structural)]
pub enum OrientationMode {
    AlignWithPath,
    Override(Orientation),
}

/// Requested walking pace.
#[derive(Clone, Copy, Debug, PartialEq, Eq, Structural)]
pub enum WalkSpeed {
    Slow,
    Normal,
    Fast,
}

/// One piece of a planned path: a straight stretch or an arc around a
/// circle, walked in the given rotational sense from the start ray to
/// the end ray.
#[derive(Clone, Copy, Debug, PartialEq, Eq, Structural)]
pub enum PathSegment {
    Line(crate::geometry::LineSegment),
    Arc(ArcPath),
}

/// The single high-level command the behavior layer emits per cycle.
#[derive(Clone, Debug)]
pub enum MotionCommand {
    ArmsUpSquat,
    ArmsUpStand { head: HeadMotion },
    FallProtection,
    Initial { head: HeadMotion },
    Jump { direction: JumpDirection },
    Penalized,
    SitDown { head: HeadMotion },
    Stand { head: HeadMotion },
    StandUp { kind: FallKind },
    KeeperMotion { direction: JumpDirection },
    Unstiff,
    Animation { stiff: bool },
    Walk {
        head: HeadMotion,
        path: Vec<PathSegment>,
        orientation_mode: OrientationMode,
        speed: WalkSpeed,
    },
    InWalkKick {
        head: HeadMotion,
        kick: KickVariant,
        kicking_side: Side,
        strength: i64,
        left_arm: ArmMotion,
        right_arm: ArmMotion,
    },
    WalkWithVelocity { head: HeadMotion, velocity: Step },
}

} // verus!
