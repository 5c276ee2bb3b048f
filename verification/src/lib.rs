//! Control-cycle core of a bipedal soccer robot.
//!
//! The crate models the per-cycle decision pipeline: ball hypothesis
//! filtering, game-state filtering, motion selection, step planning and
//! the walking engine's catching overlay.  Every physical quantity is a
//! fixed-point integer (thousandths of a unit: millimetres,
//! milliradians, milliseconds), so all computations are exact and their
//! contracts can pin the results down.

pub mod ball_filter;
pub mod behavior;
pub mod catching;
pub mod command;
pub mod fixed;
pub mod game;
pub mod game_state_filter;
pub mod geometry;
pub mod hardware_msgs;
pub mod keyframe_motion;
pub mod kick_state;
pub mod look_around;
pub mod messages;
pub mod motion;
pub mod motion_selector;
pub mod odometry;
pub mod step;
pub mod step_planner;
pub mod world;
