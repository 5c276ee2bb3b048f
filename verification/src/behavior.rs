//! Behavior branches: each maps the world state to a motion command.

pub mod ball_ramp;
pub mod kicking_ball;
pub mod node;
pub mod remote_control;
