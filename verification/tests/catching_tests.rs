//! The catching overlay: the zero-moment-point escape test and the
//! displaced swing target.

use control_core::catching::{
    is_inside_convex_hull, should_catch, Catching, CatchingStepsParameters, Feet, Pose2, StepPlan,
    StepState,
};
use control_core::command::Side;
use control_core::geometry::{Orientation, Point2};

fn neutral_pose(x: i64, y: i64) -> Pose2 {
    Pose2 {
        position: Point2 { x, y },
        orientation: Orientation {
            cos_milli: 1000,
            sin_milli: 0,
        },
    }
}

fn parameters() -> CatchingStepsParameters {
    CatchingStepsParameters {
        enabled: true,
        max_target_distance_x: 300,
        max_target_distance_y: 300,
        target_x_scale_forward_milli: 1000,
        target_x_scale_backward_milli: 1000,
        target_y_scale_milli: 1000,
        over_estimation_factor_milli: 1000,
        foot_support_min_x: -50,
        foot_support_max_x: 110,
        foot_support_min_y: -50,
        foot_support_max_y: 50,
        swing_reach_min_x: -150,
        swing_reach_max_x: 150,
        swing_reach_min_y: -180,
        swing_reach_max_y: 180,
        swing_base_offset_x: 0,
        swing_base_offset_y_left_support: -100,
        swing_base_offset_y_right_support: 100,
    }
}

fn feet(support: Pose2, swing: Pose2) -> Feet {
    Feet {
        support_sole: support,
        swing_sole: swing,
    }
}

fn step_state(start: Feet, end: Feet, support_side: Side) -> StepState {
    StepState {
        plan: StepPlan {
            support_side,
            start_feet: start,
            end_feet: end,
        },
        time_since_start_ms: 0,
    }
}

#[test]
fn catching_triggers_on_zmp_escape() {
    // support side left, planned swing sole at (0, 100), and a scaled
    // zero-moment point at (200, -100): far outside both soles
    let current = feet(neutral_pose(0, 0), neutral_pose(0, -100));
    let end = feet(neutral_pose(0, 0), neutral_pose(0, 100));
    let fires = should_catch(
        &parameters(),
        end,
        Side::Left,
        Point2 { x: 200, y: -100 },
        current,
    );
    assert!(fires);
}

#[test]
fn a_zmp_between_the_feet_does_not_trigger() {
    let current = feet(neutral_pose(0, 0), neutral_pose(0, -100));
    let end = feet(neutral_pose(0, 0), neutral_pose(0, 100));
    let fires = should_catch(
        &parameters(),
        end,
        Side::Left,
        Point2 { x: 50, y: -20 },
        current,
    );
    assert!(!fires);
}

#[test]
fn disabled_catching_never_triggers() {
    let mut p = parameters();
    p.enabled = false;
    let current = feet(neutral_pose(0, 0), neutral_pose(0, -100));
    let end = feet(neutral_pose(0, 0), neutral_pose(0, 100));
    assert!(!should_catch(
        &p,
        end,
        Side::Left,
        Point2 { x: 200, y: -100 },
        current
    ));
}

#[test]
fn the_swing_target_follows_the_displacement_and_clamps() {
    let current = feet(neutral_pose(0, 0), neutral_pose(0, -100));
    let last = step_state(current, current, Side::Left);
    // the target at (200, -100) sticks out of the supported region by
    // 90 forward; the lateral part lies inside, so only x displaces
    let catching = Catching::new(&parameters(), last, Side::Left, Point2 { x: 200, y: -100 });
    let swing = catching.step.plan.end_feet.swing_sole.position;
    assert_eq!(swing.x, 90);
    assert_eq!(swing.y, -150);
    // the x displacement is clamped by the anatomic reach when the
    // escape is much farther out
    let far = Catching::new(&parameters(), last, Side::Left, Point2 { x: 900, y: 0 });
    let far_swing = far.step.plan.end_feet.swing_sole.position;
    assert_eq!(far_swing.x, 150);
}

#[test]
fn reentering_catching_keeps_the_larger_displacement() {
    let current = feet(neutral_pose(0, 0), neutral_pose(0, -100));
    let last = step_state(current, current, Side::Left);
    let big = Catching::new(&parameters(), last, Side::Left, Point2 { x: 300, y: 0 });
    let again = big.new_from_catching(&parameters(), last, Side::Left, Point2 { x: 120, y: 0 });
    assert_eq!(again, big);
}

#[test]
fn hull_membership_is_decided_exactly() {
    let square = vec![
        Point2 { x: 0, y: 0 },
        Point2 { x: 100, y: 0 },
        Point2 { x: 100, y: 100 },
        Point2 { x: 0, y: 100 },
    ];
    assert!(is_inside_convex_hull(&square, Point2 { x: 50, y: 50 }));
    assert!(!is_inside_convex_hull(&square, Point2 { x: 150, y: 50 }));
    assert!(!is_inside_convex_hull(&square, Point2 { x: -1, y: 0 }));
}
