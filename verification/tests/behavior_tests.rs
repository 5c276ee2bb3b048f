//! Behavior branches for the rolling-ball kick and remote control.

use control_core::behavior::node::{BehaviorParameters, KickDecision};
use control_core::behavior::{ball_ramp, kicking_ball, node, remote_control};
use control_core::command::{FallKind, HeadMotion, KickVariant, MotionCommand, Side};
use control_core::motion::{MotionSafeExits, MotionType};
use control_core::geometry::Point2;
use control_core::step::Step;
use control_core::world::{BallState, PrimaryState, RampDirection, RobotState, WorldState};

fn world(primary_state: PrimaryState, ball: Option<BallState>) -> WorldState {
    WorldState {
        robot: RobotState { primary_state },
        ball,
        filtered_game_controller_state: None,
    }
}

fn rolling(ramp_direction: RampDirection) -> PrimaryState {
    PrimaryState::KickingRollingBall { ramp_direction }
}

fn ball_at(x: i64, y: i64) -> BallState {
    BallState {
        ball_in_ground: Point2 { x, y },
        ball_in_field: Point2 { x, y },
    }
}

#[test]
fn ball_ramp_searches_when_the_ball_is_lost() {
    let state = world(rolling(RampDirection::Right), None);
    let command = ball_ramp::execute(&state);
    assert!(matches!(
        command,
        Some(MotionCommand::Stand {
            head: HeadMotion::SearchRight
        })
    ));
}

#[test]
fn ball_ramp_watches_a_seen_ball() {
    let state = world(rolling(RampDirection::Left), Some(ball_at(500, 100)));
    let command = ball_ramp::execute(&state);
    match command {
        Some(MotionCommand::Stand {
            head: HeadMotion::LookAt { target, .. },
        }) => assert_eq!(target, Point2 { x: 500, y: 100 }),
        other => panic!("unexpected command: {other:?}"),
    }
}

#[test]
fn ball_ramp_is_silent_outside_the_kicking_state() {
    let state = world(PrimaryState::Playing, Some(ball_at(500, 100)));
    assert!(ball_ramp::execute(&state).is_none());
}

#[test]
fn kicking_ball_fires_inside_the_start_window() {
    let state = world(rolling(RampDirection::Left), Some(ball_at(400, 0)));
    // 600 ms to reach the foot, 500 ms kick duration: the 100 ms rest
    // is under the 150 ms start threshold, so the kick fires with the
    // right foot (opposite the left ramp)
    let command = kicking_ball::execute(&state, 600, 700, 150, 500);
    match command {
        Some(MotionCommand::InWalkKick {
            kick,
            kicking_side,
            strength,
            ..
        }) => {
            assert_eq!(kick, KickVariant::InstantForward);
            assert_eq!(kicking_side, Side::Right);
            assert_eq!(strength, 700);
        }
        other => panic!("unexpected command: {other:?}"),
    }
}

#[test]
fn kicking_ball_waits_outside_the_start_window() {
    let state = world(rolling(RampDirection::Right), Some(ball_at(400, 0)));
    let command = kicking_ball::execute(&state, 2000, 700, 150, 500);
    // the ball is seen, so the robot stands and watches it
    match command {
        Some(MotionCommand::Stand {
            head: HeadMotion::LookAt { target, .. },
        }) => assert_eq!(target, Point2 { x: 400, y: 0 }),
        other => panic!("unexpected command: {other:?}"),
    }
}

#[test]
fn kicking_ball_searches_toward_the_ramp_when_the_ball_is_lost() {
    let state = world(rolling(RampDirection::Right), None);
    let command = kicking_ball::execute(&state, 2000, 700, 150, 500);
    assert!(matches!(
        command,
        Some(MotionCommand::Stand {
            head: HeadMotion::SearchRight
        })
    ));
}

#[test]
fn remote_control_translates_the_joystick() {
    let parameters = remote_control::RemoteControlParameters {
        walk: Step {
            forward: 60,
            left: -20,
            turn: 100,
        },
    };
    let command = remote_control::execute(&parameters);
    match command {
        Some(MotionCommand::WalkWithVelocity { head, velocity }) => {
            assert_eq!(head, HeadMotion::Center);
            assert_eq!(velocity.forward, 60);
            assert_eq!(velocity.left, -20);
            assert_eq!(velocity.turn, 100);
        }
        other => panic!("unexpected command: {other:?}"),
    }
}

#[test]
fn safe_exit_table_reads_back_what_was_set() {
    let mut exits = MotionSafeExits::fill(false);
    assert!(!exits.index(MotionType::Walk));
    exits.set(MotionType::Walk, true);
    assert!(exits.index(MotionType::Walk));
    assert!(!exits.index(MotionType::Stand));
    let defaults = MotionSafeExits::default();
    assert!(defaults.index(MotionType::Stand));
    assert!(!defaults.index(MotionType::Dispatching));
}

fn selector_parameters() -> BehaviorParameters {
    BehaviorParameters {
        kick_pose_reached_x: 20,
        kick_pose_reached_y: 10,
        kick_pose_reached_turn: 100,
    }
}

#[test]
fn selector_forces_the_primary_state_motions() {
    let state = world(PrimaryState::Unstiff, None);
    let command = node::execute(
        &state,
        None,
        None,
        None,
        &Vec::new(),
        None,
        &selector_parameters(),
        0,
        0,
        0,
        0,
    );
    assert!(matches!(command, MotionCommand::Unstiff));
}

#[test]
fn selector_prefers_fall_protection_over_kicks() {
    let state = world(PrimaryState::Playing, None);
    let decision = KickDecision {
        variant: KickVariant::Forward,
        kicking_side: Side::Left,
        strength_milli: 1000,
        pose_x: 0,
        pose_y: 0,
        pose_turn: 0,
    };
    let command = node::execute(
        &state,
        Some(FallKind::FacingDown),
        None,
        Some(decision),
        &Vec::new(),
        None,
        &selector_parameters(),
        0,
        0,
        0,
        0,
    );
    assert!(matches!(command, MotionCommand::FallProtection));
}

#[test]
fn selector_fires_a_reached_kick_with_closed_bands() {
    let state = world(PrimaryState::Playing, Some(ball_at(200, 0)));
    // exactly on the band boundary: the closed containment still fires
    let decision = KickDecision {
        variant: KickVariant::Forward,
        kicking_side: Side::Left,
        strength_milli: 1000,
        pose_x: 20,
        pose_y: -10,
        pose_turn: 100,
    };
    let command = node::execute(
        &state,
        None,
        None,
        Some(decision),
        &Vec::new(),
        None,
        &selector_parameters(),
        0,
        0,
        0,
        0,
    );
    match command {
        MotionCommand::InWalkKick { kick, kicking_side, .. } => {
            assert_eq!(kick, KickVariant::Forward);
            assert_eq!(kicking_side, Side::Left);
        }
        other => panic!("unexpected command: {other:?}"),
    }
    // one millimetre outside the band the kick stays quiet
    let missed = KickDecision {
        pose_x: 21,
        ..decision
    };
    let command = node::execute(
        &state,
        None,
        None,
        Some(missed),
        &Vec::new(),
        None,
        &selector_parameters(),
        0,
        0,
        0,
        0,
    );
    assert!(matches!(command, MotionCommand::Stand { .. }));
}
