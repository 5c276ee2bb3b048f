//! The motion selector: a transition state machine over motion types
//! that forces every cross-motion change through the dispatching
//! interlude unless a documented fast path applies.

use vstd::prelude::*;
use crate::command::{FallKind, JumpDirection, MotionCommand};
use crate::motion::{MotionSafeExits, MotionSelection, MotionType};

verus! {

/// The motion primitive a behavior command asks for.
pub open spec fn motion_type_from_command_spec(command: MotionCommand) -> MotionType {
    match command {
        MotionCommand::ArmsUpSquat => MotionType::ArmsUpSquat,
        MotionCommand::ArmsUpStand { .. } => MotionType::ArmsUpStand,
        MotionCommand::FallProtection => MotionType::FallProtection,
        MotionCommand::Initial { .. } => MotionType::Initial,
        MotionCommand::Jump { direction } => match direction {
            JumpDirection::Left => MotionType::JumpLeft,
            JumpDirection::Right => MotionType::JumpRight,
            JumpDirection::Center => MotionType::CenterJump,
        },
        MotionCommand::Penalized => MotionType::Penalized,
        MotionCommand::SitDown { .. } => MotionType::SitDown,
        MotionCommand::Stand { .. } => MotionType::Stand,
        MotionCommand::StandUp { kind } => match kind {
            FallKind::FacingDown => MotionType::StandUpFront,
            FallKind::FacingUp => MotionType::StandUpBack,
            FallKind::Sitting => MotionType::StandUpSitting,
        },
        MotionCommand::KeeperMotion { direction } => match direction {
            JumpDirection::Left => MotionType::KeeperJumpLeft,
            JumpDirection::Right => MotionType::KeeperJumpRight,
            JumpDirection::Center => MotionType::WideStance,
        },
        MotionCommand::Unstiff => MotionType::Unstiff,
        MotionCommand::Animation { stiff } => if stiff {
            MotionType::AnimationStiff
        } else {
            MotionType::Animation
        },
        MotionCommand::Walk { .. } => MotionType::Walk,
        MotionCommand::InWalkKick { .. } => MotionType::Walk,
        MotionCommand::WalkWithVelocity { .. } => MotionType::Walk,
    }
}

/// Maps a behavior command to the motion primitive it requests.
pub fn motion_type_from_command(command: &MotionCommand) -> (r: MotionType)
    ensures
        r == motion_type_from_command_spec(*command),
{
    match command {
        MotionCommand::ArmsUpSquat => MotionType::ArmsUpSquat,
        MotionCommand::ArmsUpStand { .. } => MotionType::ArmsUpStand,
        MotionCommand::FallProtection => MotionType::FallProtection,
        MotionCommand::Initial { .. } => MotionType::Initial,
        MotionCommand::Jump { direction } => match direction {
            JumpDirection::Left => MotionType::JumpLeft,
            JumpDirection::Right => MotionType::JumpRight,
            JumpDirection::Center => MotionType::CenterJump,
        },
        MotionCommand::Penalized => MotionType::Penalized,
        MotionCommand::SitDown { .. } => MotionType::SitDown,
        MotionCommand::Stand { .. } => MotionType::Stand,
        MotionCommand::StandUp { kind } => match kind {
            FallKind::FacingDown => MotionType::StandUpFront,
            FallKind::FacingUp => MotionType::StandUpBack,
            FallKind::Sitting => MotionType::StandUpSitting,
        },
        MotionCommand::KeeperMotion { direction } => match direction {
            JumpDirection::Left => MotionType::KeeperJumpLeft,
            JumpDirection::Right => MotionType::KeeperJumpRight,
            JumpDirection::Center => MotionType::WideStance,
        },
        MotionCommand::Unstiff => MotionType::Unstiff,
        MotionCommand::Animation { stiff } => if *stiff {
            MotionType::AnimationStiff
        } else {
            MotionType::Animation
        },
        MotionCommand::Walk { .. } => MotionType::Walk,
        MotionCommand::InWalkKick { .. } => MotionType::Walk,
        MotionCommand::WalkWithVelocity { .. } => MotionType::Walk,
    }
}

/// The transition table of the selector, read top to bottom: the first
/// matching rule decides.  `from` is the motion of the last cycle, `to`
/// the requested one, `safe` whether `from` reports a safe exit and
/// `ground` whether the robot has ground contact.
pub open spec fn transition_spec(
    from: MotionType,
    to: MotionType,
    safe: bool,
    ground: bool,
) -> MotionType {
    if from == MotionType::SitDown && safe && to == MotionType::Unstiff {
        MotionType::Unstiff
    } else if to == MotionType::Unstiff && !ground {
        MotionType::Unstiff
    } else if from == MotionType::Dispatching && safe && to == MotionType::Unstiff && ground {
        MotionType::SitDown
    } else if from == MotionType::StandUpFront && to == MotionType::FallProtection {
        MotionType::StandUpFront
    } else if from == MotionType::StandUpBack && to == MotionType::FallProtection {
        MotionType::StandUpBack
    } else if from == MotionType::WideStance && to == MotionType::FallProtection {
        MotionType::WideStance
    } else if from == MotionType::JumpLeft && to == MotionType::FallProtection {
        MotionType::JumpLeft
    } else if from == MotionType::JumpRight && to == MotionType::FallProtection {
        MotionType::JumpRight
    } else if from == MotionType::CenterJump && to == MotionType::FallProtection {
        MotionType::CenterJump
    } else if from == MotionType::StandUpSitting && to == MotionType::FallProtection {
        MotionType::StandUpSitting
    } else if from == MotionType::ArmsUpStand && to == MotionType::FallProtection {
        MotionType::ArmsUpStand
    } else if from == MotionType::StandUpFront && safe && to == MotionType::StandUpFront {
        MotionType::Dispatching
    } else if from == MotionType::StandUpBack && safe && to == MotionType::StandUpBack {
        MotionType::Dispatching
    } else if from == MotionType::StandUpSitting && safe && to == MotionType::StandUpSitting {
        MotionType::Dispatching
    } else if to == MotionType::FallProtection {
        MotionType::FallProtection
    } else if from == MotionType::Walk && to == MotionType::WideStance {
        MotionType::WideStance
    } else if from == MotionType::Walk && to == MotionType::KeeperJumpRight {
        MotionType::KeeperJumpRight
    } else if from == MotionType::Walk && to == MotionType::KeeperJumpLeft {
        MotionType::KeeperJumpLeft
    } else if from == MotionType::WideStance && safe && to == MotionType::WideStance {
        MotionType::WideStance
    } else if from == MotionType::KeeperJumpRight && safe && to == MotionType::KeeperJumpRight {
        MotionType::KeeperJumpRight
    } else if from == MotionType::KeeperJumpLeft && safe && to == MotionType::KeeperJumpLeft {
        MotionType::KeeperJumpLeft
    } else if safe && to == MotionType::WideStance {
        MotionType::WideStance
    } else if safe && to == MotionType::KeeperJumpRight {
        MotionType::KeeperJumpRight
    } else if safe && to == MotionType::KeeperJumpLeft {
        MotionType::KeeperJumpLeft
    } else if to == MotionType::CenterJump {
        MotionType::CenterJump
    } else if from == MotionType::ArmsUpSquat && to == MotionType::JumpRight {
        MotionType::JumpRight
    } else if from == MotionType::ArmsUpSquat && to == MotionType::JumpLeft {
        MotionType::JumpLeft
    } else if from == MotionType::ArmsUpStand && !ground {
        MotionType::ArmsUpStand
    } else if from == MotionType::Dispatching && safe {
        to
    } else if from == MotionType::Stand && to == MotionType::Walk {
        MotionType::Walk
    } else if from == MotionType::Walk && to == MotionType::Stand {
        MotionType::Stand
    } else if (from == MotionType::Unstiff || from == MotionType::AnimationStiff) && safe && to
        == MotionType::Animation {
        MotionType::Animation
    } else if from == MotionType::Animation && safe && to == MotionType::AnimationStiff {
        MotionType::AnimationStiff
    } else if safe && from != to {
        MotionType::Dispatching
    } else {
        from
    }
}

/// Advances the selector's state machine by one cycle.
pub fn transition_motion(from: MotionType, to: MotionType, motion_safe_to_exit: bool,
    has_ground_contact: bool) -> (r: MotionType)
    ensures
        r == transition_spec(from, to, motion_safe_to_exit, has_ground_contact),
{
    let safe = motion_safe_to_exit;
    let ground = has_ground_contact;
    if from == MotionType::SitDown && safe && to == MotionType::Unstiff {
        MotionType::Unstiff
    } else if to == MotionType::Unstiff && !ground {
        MotionType::Unstiff
    } else if from == MotionType::Dispatching && safe && to == MotionType::Unstiff && ground {
        MotionType::SitDown
    } else if from == MotionType::StandUpFront && to == MotionType::FallProtection {
        MotionType::StandUpFront
    } else if from == MotionType::StandUpBack && to == MotionType::FallProtection {
        MotionType::StandUpBack
    } else if from == MotionType::WideStance && to == MotionType::FallProtection {
        MotionType::WideStance
    } else if from == MotionType::JumpLeft && to == MotionType::FallProtection {
        MotionType::JumpLeft
    } else if from == MotionType::JumpRight && to == MotionType::FallProtection {
        MotionType::JumpRight
    } else if from == MotionType::CenterJump && to == MotionType::FallProtection {
        MotionType::CenterJump
    } else if from == MotionType::StandUpSitting && to == MotionType::FallProtection {
        MotionType::StandUpSitting
    } else if from == MotionType::ArmsUpStand && to == MotionType::FallProtection {
        MotionType::ArmsUpStand
    } else if from == MotionType::StandUpFront && safe && to == MotionType::StandUpFront {
        MotionType::Dispatching
    } else if from == MotionType::StandUpBack && safe && to == MotionType::StandUpBack {
        MotionType::Dispatching
    } else if from == MotionType::StandUpSitting && safe && to == MotionType::StandUpSitting {
        MotionType::Dispatching
    } else if to == MotionType::FallProtection {
        MotionType::FallProtection
    } else if from == MotionType::Walk && to == MotionType::WideStance {
        MotionType::WideStance
    } else if from == MotionType::Walk && to == MotionType::KeeperJumpRight {
        MotionType::KeeperJumpRight
    } else if from == MotionType::Walk && to == MotionType::KeeperJumpLeft {
        MotionType::KeeperJumpLeft
    } else if from == MotionType::WideStance && safe && to == MotionType::WideStance {
        MotionType::WideStance
    } else if from == MotionType::KeeperJumpRight && safe && to == MotionType::KeeperJumpRight {
        MotionType::KeeperJumpRight
    } else if from == MotionType::KeeperJumpLeft && safe && to == MotionType::KeeperJumpLeft {
        MotionType::KeeperJumpLeft
    } else if safe && to == MotionType::WideStance {
        MotionType::WideStance
    } else if safe && to == MotionType::KeeperJumpRight {
        MotionType::KeeperJumpRight
    } else if safe && to == MotionType::KeeperJumpLeft {
        MotionType::KeeperJumpLeft
    } else if to == MotionType::CenterJump {
        MotionType::CenterJump
    } else if from == MotionType::ArmsUpSquat && to == MotionType::JumpRight {
        MotionType::JumpRight
    } else if from == MotionType::ArmsUpSquat && to == MotionType::JumpLeft {
        MotionType::JumpLeft
    } else if from == MotionType::ArmsUpStand && !ground {
        MotionType::ArmsUpStand
    } else if from == MotionType::Dispatching && safe {
        to
    } else if from == MotionType::Stand && to == MotionType::Walk {
        MotionType::Walk
    } else if from == MotionType::Walk && to == MotionType::Stand {
        MotionType::Stand
    } else if (from == MotionType::Unstiff || from == MotionType::AnimationStiff) && safe && to
        == MotionType::Animation {
        MotionType::Animation
    } else if from == MotionType::Animation && safe && to == MotionType::AnimationStiff {
        MotionType::AnimationStiff
    } else if safe && from != to {
        MotionType::Dispatching
    } else {
        from
    }
}

/// The stand-up counter after one cycle: it rises on each entry into a
/// stand-up motion and resets once a stable motion is reached.
pub open spec fn stand_up_counting_spec(
    last_motion: MotionType,
    current_motion: MotionType,
    stand_up_count: u32,
) -> int {
    if !(last_motion == MotionType::StandUpBack || last_motion == MotionType::StandUpFront
        || last_motion == MotionType::StandUpSitting) && (current_motion == MotionType::StandUpBack
        || current_motion == MotionType::StandUpFront || current_motion
        == MotionType::StandUpSitting) {
        stand_up_count + 1
    } else if current_motion == MotionType::Stand || current_motion == MotionType::Walk
        || current_motion == MotionType::Initial || current_motion == MotionType::Penalized {
        0
    } else {
        stand_up_count as int
    }
}

/// Advances the stand-up counter by one cycle.
pub fn stand_up_counting(last_motion: MotionType, current_motion: MotionType, stand_up_count: u32)
    -> (r: u32)
    requires
        stand_up_count < u32::MAX,
    ensures
        r == stand_up_counting_spec(last_motion, current_motion, stand_up_count),
{
    if !last_motion.is_standup_motion() && current_motion.is_standup_motion() {
        return stand_up_count + 1;
    }
    if current_motion.is_stable() {
        return 0;
    }
    stand_up_count
}

/// Two stable motions may replace each other directly only on the
/// walk/stand fast path; every other change of stable stance passes
/// through the dispatching interlude first.
pub proof fn lemma_stable_transitions_pass_through_dispatching(
    from: MotionType,
    to: MotionType,
    safe: bool,
    ground: bool,
)
    requires
        (from == MotionType::Stand || from == MotionType::Walk || from == MotionType::Initial
            || from == MotionType::Penalized),
    ensures
        ({
            let r = transition_spec(from, to, safe, ground);
            ((r == MotionType::Stand || r == MotionType::Walk || r == MotionType::Initial || r
                == MotionType::Penalized) && r != from) ==> ((from == MotionType::Stand && r
                == MotionType::Walk) || (from == MotionType::Walk && r == MotionType::Stand))
        }),
{
}

/// The selector's persistent state: the motion of the last cycle and
/// the stand-up counter.
#[derive(Clone, Copy, Debug, PartialEq, Eq, Structural)]
pub struct MotionSelector {
    pub last_motion: MotionType,
    pub stand_up_count: u32,
}

impl MotionSelector {
    /// A fresh selector starts unstiff with no stand-ups counted.
    pub fn new() -> (r: Self)
        ensures
            r.last_motion == MotionType::Unstiff,
            r.stand_up_count == 0,
    {
        MotionSelector { last_motion: MotionType::Unstiff, stand_up_count: 0 }
    }

    /// One selector cycle: reads the safe-exit flag of the last motion,
    /// derives the requested motion from the command, advances the
    /// transition table and the stand-up counter, and reports the
    /// motion now current together with the motion a dispatching
    /// interlude is heading for.
    pub fn cycle(
        &mut self,
        motion_command: &MotionCommand,
        has_ground_contact: bool,
        motion_safe_exits: &MotionSafeExits,
    ) -> (r: MotionSelection)
        requires
            old(self).stand_up_count < u32::MAX,
        ensures
            ({
                let safe = motion_safe_exits.spec_get(old(self).last_motion);
                let requested = motion_type_from_command_spec(*motion_command);
                let current = transition_spec(
                    old(self).last_motion,
                    requested,
                    safe,
                    has_ground_contact,
                );
                r.current_motion == current && final(self).last_motion == current
                    && final(self).stand_up_count == stand_up_counting_spec(
                    old(self).last_motion,
                    current,
                    old(self).stand_up_count,
                ) && r.dispatching_motion == (if current == MotionType::Dispatching {
                    Some(
                        if requested == MotionType::Unstiff {
                            MotionType::SitDown
                        } else {
                            requested
                        },
                    )
                } else {
                    None
                })
            }),
    {
        let motion_safe_to_exit = motion_safe_exits.index(self.last_motion);
        let requested_motion = motion_type_from_command(motion_command);
        let current_motion = transition_motion(
            self.last_motion,
            requested_motion,
            motion_safe_to_exit,
            has_ground_contact,
        );
        self.stand_up_count = stand_up_counting(
            self.last_motion,
            current_motion,
            self.stand_up_count,
        );
        let dispatching_motion = if current_motion == MotionType::Dispatching {
            if requested_motion == MotionType::Unstiff {
                Some(MotionType::SitDown)
            } else {
                Some(requested_motion)
            }
        } else {
            None
        };
        self.last_motion = current_motion;
        MotionSelection { current_motion, dispatching_motion }
    }
}

} // verus!
