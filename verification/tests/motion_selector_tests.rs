//! The motion selector's dispatching discipline.

use control_core::command::{HeadMotion, MotionCommand};
use control_core::motion::{MotionSafeExits, MotionType};
use control_core::motion_selector::{
    motion_type_from_command, stand_up_counting, transition_motion, MotionSelector,
};

#[test]
fn sit_down_request_passes_through_dispatching() {
    // last motion standing, sit-down requested, safe to exit, ground
    // contact: this cycle must dispatch, the next must sit down
    let mut selector = MotionSelector::new();
    selector.last_motion = MotionType::Stand;
    let mut exits = MotionSafeExits::fill(false);
    exits.set(MotionType::Stand, true);
    exits.set(MotionType::Dispatching, true);
    let command = MotionCommand::SitDown {
        head: HeadMotion::Center,
    };

    let first = selector.cycle(&command, true, &exits);
    assert_eq!(first.current_motion, MotionType::Dispatching);
    assert_eq!(first.dispatching_motion, Some(MotionType::SitDown));

    let second = selector.cycle(&command, true, &exits);
    assert_eq!(second.current_motion, MotionType::SitDown);
    assert_eq!(second.dispatching_motion, None);
}

#[test]
fn walk_and_stand_use_the_fast_path() {
    assert_eq!(
        transition_motion(MotionType::Stand, MotionType::Walk, false, true),
        MotionType::Walk
    );
    assert_eq!(
        transition_motion(MotionType::Walk, MotionType::Stand, false, true),
        MotionType::Stand
    );
}

#[test]
fn stable_changes_other_than_the_fast_path_dispatch() {
    assert_eq!(
        transition_motion(MotionType::Initial, MotionType::Penalized, true, true),
        MotionType::Dispatching
    );
    assert_eq!(
        transition_motion(MotionType::Penalized, MotionType::Stand, true, true),
        MotionType::Dispatching
    );
}

#[test]
fn unstiff_without_ground_contact_is_immediate() {
    assert_eq!(
        transition_motion(MotionType::Walk, MotionType::Unstiff, false, false),
        MotionType::Unstiff
    );
}

#[test]
fn stand_ups_finish_before_fall_protection() {
    assert_eq!(
        transition_motion(MotionType::StandUpFront, MotionType::FallProtection, false, true),
        MotionType::StandUpFront
    );
    assert_eq!(
        transition_motion(MotionType::StandUpBack, MotionType::FallProtection, true, true),
        MotionType::StandUpBack
    );
}

#[test]
fn requested_motions_map_to_their_types() {
    assert_eq!(
        motion_type_from_command(&MotionCommand::Unstiff),
        MotionType::Unstiff
    );
    assert_eq!(
        motion_type_from_command(&MotionCommand::Penalized),
        MotionType::Penalized
    );
    assert_eq!(
        motion_type_from_command(&MotionCommand::Animation { stiff: true }),
        MotionType::AnimationStiff
    );
}

#[test]
fn stand_up_counter_rises_and_resets() {
    assert_eq!(stand_up_counting(MotionType::FallProtection, MotionType::StandUpFront, 2), 3);
    assert_eq!(stand_up_counting(MotionType::StandUpFront, MotionType::StandUpFront, 3), 3);
    assert_eq!(stand_up_counting(MotionType::StandUpFront, MotionType::Stand, 3), 0);
    // entering the sitting stand-up counts like any other stand-up
    assert_eq!(stand_up_counting(MotionType::SitDown, MotionType::StandUpSitting, 1), 2);
    assert_eq!(stand_up_counting(MotionType::StandUpSitting, MotionType::StandUpSitting, 2), 2);
}
