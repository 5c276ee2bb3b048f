//! The walk-volume clamp: the anatomic super-ellipsoid in thousandths.

use control_core::step::Step;
use control_core::step_planner::{calculate_walk_volume, clamp_step_to_walk_volume, walk_volume_at_most_one};

#[test]
fn walk_volume_clamp_preserves_orientation() {
    // a request of a full metre forward with a 0.4 radian turn against
    // maxima of 80 and 40 millimetres and half a radian of turn: the
    // translation shrinks, the turn survives unchanged
    let request = Step {
        forward: 1000,
        left: 0,
        turn: 400,
    };
    let max_step_size = Step {
        forward: 80,
        left: 40,
        turn: 500,
    };
    let clamped = clamp_step_to_walk_volume(request, &max_step_size, 40, 2, 2, -500, 500);
    assert!(clamped.forward > 0);
    assert_eq!(clamped.left, 0);
    assert_eq!(clamped.turn, 400);
    assert!(walk_volume_at_most_one(
        clamped.forward,
        clamped.left,
        clamped.turn,
        80,
        40,
        40,
        2,
        2,
        -500,
        500,
    ));
}

#[test]
fn a_request_inside_the_volume_passes_unchanged() {
    let request = Step {
        forward: 40,
        left: 0,
        turn: 0,
    };
    let max_step_size = Step {
        forward: 80,
        left: 40,
        turn: 500,
    };
    let clamped = clamp_step_to_walk_volume(request, &max_step_size, 40, 2, 2, -500, 500);
    assert_eq!(clamped, request);
}

#[test]
fn the_turn_is_clamped_into_the_side_bounds() {
    let request = Step {
        forward: 0,
        left: 0,
        turn: 900,
    };
    let max_step_size = Step {
        forward: 80,
        left: 40,
        turn: 500,
    };
    // an inside turn bound of an eighth of a radian on the left
    let clamped = clamp_step_to_walk_volume(request, &max_step_size, 40, 2, 2, -125, 500);
    assert_eq!(clamped.turn, 500);
    let reverse = Step {
        forward: 0,
        left: 0,
        turn: -900,
    };
    let clamped = clamp_step_to_walk_volume(reverse, &max_step_size, 40, 2, 2, -125, 500);
    assert_eq!(clamped.turn, -125);
}

#[test]
fn the_clamped_translation_scales_down_to_the_boundary() {
    let request = Step {
        forward: 1000,
        left: 0,
        turn: 400,
    };
    let max_step_size = Step {
        forward: 80,
        left: 40,
        turn: 500,
    };
    let clamped = clamp_step_to_walk_volume(request, &max_step_size, 40, 2, 2, -500, 500);
    // the closed form gives 0.048 metres: the 0.8 turn share leaves a
    // 0.36 volume budget, whose square root scales the metre request
    // onto the 80 millimetre maximum times 0.6
    assert_eq!(clamped.forward, 48);
}

#[test]
fn the_volume_value_matches_the_boundary_test() {
    // at the clamped step the volume sits just under one; one
    // millimetre more forward pushes it over
    let at_boundary = calculate_walk_volume(48, 0, 400, 80, 40, 40, 2, 2, -500, 500);
    assert_eq!(at_boundary, 999);
    assert!(walk_volume_at_most_one(48, 0, 400, 80, 40, 40, 2, 2, -500, 500));
    let beyond = calculate_walk_volume(49, 0, 400, 80, 40, 40, 2, 2, -500, 500);
    assert_eq!(beyond, 1012);
    assert!(!walk_volume_at_most_one(49, 0, 400, 80, 40, 40, 2, 2, -500, 500));
}
