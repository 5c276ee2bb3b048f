//! Keyframe motion timing and the kick override interpolation.

use control_core::command::{
    HeadMotion, KickVariant, MotionCommand, OrientationMode, PathSegment, Side, WalkSpeed,
};
use control_core::geometry::{LineSegment, Point2};
use control_core::keyframe_motion::{SitDown, WideStance};
use control_core::kick_state::{compute_override, JointOverride, KickState, KickSteps};
use control_core::motion::{MotionSafeExits, MotionSelection, MotionType};
use control_core::odometry::Transform2;
use control_core::step::Step;
use control_core::step_planner::{StepPlanner, StepPlannerError, StepPlannerParameters};

#[test]
fn sit_down_opens_its_safe_exit_when_finished() {
    let mut sit_down = SitDown::new(100);
    let mut exits = MotionSafeExits::fill(false);
    let selected = MotionSelection {
        current_motion: MotionType::SitDown,
        dispatching_motion: None,
    };
    sit_down.cycle(&selected, 60, &mut exits);
    assert!(!exits.index(MotionType::SitDown));
    sit_down.cycle(&selected, 60, &mut exits);
    assert!(exits.index(MotionType::SitDown));

    // deselecting rewinds the motion and closes the exit again
    let other = MotionSelection {
        current_motion: MotionType::Stand,
        dispatching_motion: None,
    };
    sit_down.cycle(&other, 12, &mut exits);
    assert!(!exits.index(MotionType::SitDown));
}

#[test]
fn wide_stance_reports_its_remaining_duration() {
    let mut wide_stance = WideStance::new(200);
    let mut exits = MotionSafeExits::fill(false);
    let selected = MotionSelection {
        current_motion: MotionType::WideStance,
        dispatching_motion: None,
    };
    assert_eq!(wide_stance.cycle(&selected, 80, &mut exits), Some(120));
    let other = MotionSelection {
        current_motion: MotionType::Stand,
        dispatching_motion: None,
    };
    assert_eq!(wide_stance.cycle(&other, 80, &mut exits), None);
}

#[test]
fn kick_state_advances_through_its_sub_steps() {
    let steps = KickSteps {
        forward: Vec::new(),
        turn: Vec::new(),
        side: Vec::new(),
        instant_forward: vec![
            control_core::kick_state::KickStep {
                hip_pitch_overrides: None,
                ankle_pitch_overrides: None,
            },
            control_core::kick_state::KickStep {
                hip_pitch_overrides: None,
                ankle_pitch_overrides: None,
            },
        ],
    };
    let kick = KickState::new(
        KickVariant::InstantForward,
        Side::Right,
        800,
        Point2 { x: 300, y: 0 },
    );
    assert!(!kick.is_finished(&steps));
    let kick = kick.advance_to_next_step().advance_to_next_step();
    assert_eq!(kick.index, 2);
    assert!(kick.is_finished(&steps));
}

#[test]
fn kick_overrides_interpolate_between_keyframes() {
    let track = vec![
        JointOverride {
            timepoint_ms: 0,
            value_milli: 0,
        },
        JointOverride {
            timepoint_ms: 100,
            value_milli: 200,
        },
        JointOverride {
            timepoint_ms: 200,
            value_milli: 0,
        },
    ];
    assert_eq!(compute_override(&track, 0), 0);
    assert_eq!(compute_override(&track, 50), 100);
    assert_eq!(compute_override(&track, 100), 200);
    assert_eq!(compute_override(&track, 150), 100);
    // past the last keyframe the override vanishes
    assert_eq!(compute_override(&track, 500), 0);
}

#[test]
fn planner_passes_non_walk_commands_through_as_zero_steps() {
    let mut planner = StepPlanner::new();
    let parameters = planner_parameters();
    let command = MotionCommand::Stand {
        head: HeadMotion::Center,
    };
    let temps = vec![40_000];
    let result = planner.cycle(
        &command,
        &parameters,
        &Transform2::identity(),
        None,
        &temps,
    );
    assert_eq!(
        result,
        Ok(Step {
            forward: 0,
            left: 0,
            turn: 0
        })
    );
}

#[test]
fn planner_rejects_an_empty_path() {
    let mut planner = StepPlanner::new();
    let parameters = planner_parameters();
    let command = MotionCommand::Walk {
        head: HeadMotion::Center,
        path: Vec::new(),
        orientation_mode: OrientationMode::AlignWithPath,
        speed: WalkSpeed::Normal,
    };
    let temps = vec![40_000];
    let result = planner.cycle(
        &command,
        &parameters,
        &Transform2::identity(),
        None,
        &temps,
    );
    assert_eq!(result, Err(StepPlannerError::EmptyPath));
}

#[test]
fn planner_clamps_a_long_straight_path_into_the_volume() {
    let mut planner = StepPlanner::new();
    let parameters = planner_parameters();
    let command = MotionCommand::Walk {
        head: HeadMotion::Center,
        path: vec![PathSegment::Line(LineSegment(
            Point2 { x: 0, y: 0 },
            Point2 { x: 2000, y: 0 },
        ))],
        orientation_mode: OrientationMode::AlignWithPath,
        speed: WalkSpeed::Normal,
    };
    let temps = vec![40_000];
    let step = planner
        .cycle(
            &command,
            &parameters,
            &Transform2::identity(),
            None,
            &temps,
        )
        .unwrap();
    // the two-metre request shrinks onto the volume boundary but keeps
    // pointing straight ahead
    assert!(step.forward > 0);
    assert!(step.forward <= 81);
    assert_eq!(step.left, 0);
    assert_eq!(step.turn, 0);
}

#[test]
fn hot_legs_degrade_fast_walking() {
    let mut planner = StepPlanner::new();
    let parameters = planner_parameters();
    // at eighty degrees the hysteresis latches and fast walking falls
    // back to the plain maximum step
    let max = planner.calculate_max_step_size(&parameters, WalkSpeed::Fast, 0, 80_000);
    assert_eq!(max.forward, parameters.max_step_size.forward);
    // cooling below the exit threshold restores the fast delta
    let max = planner.calculate_max_step_size(&parameters, WalkSpeed::Fast, 0, 60_000);
    assert_eq!(
        max.forward,
        parameters.max_step_size.forward + parameters.step_size_delta_fast.forward
    );
}

fn planner_parameters() -> StepPlannerParameters {
    StepPlannerParameters {
        injected_step: None,
        max_step_size: Step {
            forward: 80,
            left: 40,
            turn: 500,
        },
        step_size_delta_slow: Step {
            forward: -20,
            left: -10,
            turn: -100,
        },
        step_size_delta_fast: Step {
            forward: 20,
            left: 10,
            turn: 100,
        },
        max_step_size_backwards: 40,
        max_inside_turn: 125,
        rotation_exponent: 2,
        translation_exponent: 2,
        initial_side_bonus: 10,
        request_scale: Step {
            forward: 1000,
            left: 1000,
            turn: 1000,
        },
    }
}
