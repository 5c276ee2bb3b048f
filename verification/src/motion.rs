//! Motion primitives, the motion selection record and the per-motion
//! safe-exit table.

use vstd::prelude::*;

verus! {

/// The motion primitives the robot can execute.
#[derive(Clone, Copy, Debug, PartialEq, Eq, Structural)]
pub enum MotionType {
    Animation,
    AnimationStiff,
    ArmsUpSquat,
    ArmsUpStand,
    Dispatching,
    FallProtection,
    Initial,
    JumpLeft,
    JumpRight,
    CenterJump,
    Penalized,
    SitDown,
    Stand,
    StandUpBack,
    StandUpFront,
    StandUpSitting,
    Unstiff,
    Walk,
    WideStance,
    KeeperJumpLeft,
    KeeperJumpRight,
}

impl Default for MotionType {
    fn default() -> (r: Self)
        ensures
            r == MotionType::Unstiff,
    {
        MotionType::Unstiff
    }
}

impl MotionType {
    /// Whether this motion gets the robot back on its feet.
    pub fn is_standup_motion(&self) -> (r: bool)
        ensures
            r == (*self == MotionType::StandUpBack || *self == MotionType::StandUpFront || *self
                == MotionType::StandUpSitting),
    {
        matches!(
            self,
            MotionType::StandUpBack | MotionType::StandUpFront | MotionType::StandUpSitting
        )
    }

    /// Whether this is the transitional interlude between primitives.
    pub fn is_dispatching(&self) -> (r: bool)
        ensures
            r == (*self == MotionType::Dispatching),
    {
        matches!(self, MotionType::Dispatching)
    }

    /// Whether the motion is a stable stance the robot can rest in.
    pub fn is_stable(&self) -> (r: bool)
        ensures
            r == (*self == MotionType::Stand || *self == MotionType::Walk || *self
                == MotionType::Initial || *self == MotionType::Penalized),
    {
        matches!(
            self,
            MotionType::Stand | MotionType::Walk | MotionType::Initial | MotionType::Penalized
        )
    }
}

/// The motion the selector settled on for this cycle, together with the
/// motion a dispatching interlude is heading for.
#[derive(Clone, Copy, Debug, PartialEq, Eq, Structural)]
pub struct MotionSelection {
    pub current_motion: MotionType,
    pub dispatching_motion: Option<MotionType>,
}

/// Per-motion flag telling the selector whether the motion has reached a
/// boundary at which it may be preempted without discontinuity.
#[derive(Clone, Copy, Debug, PartialEq, Eq, Structural)]
pub struct MotionSafeExits {
    pub animation: bool,
    pub animation_stiff: bool,
    pub arms_up_squat: bool,
    pub arms_up_stand: bool,
    pub dispatching: bool,
    pub fall_protection: bool,
    pub initial: bool,
    pub jump_left: bool,
    pub jump_right: bool,
    pub center_jump: bool,
    pub penalized: bool,
    pub sit_down: bool,
    pub stand_up_back: bool,
    pub stand_up_front: bool,
    pub stand_up_sitting: bool,
    pub stand: bool,
    pub unstiff: bool,
    pub walk: bool,
    pub wide_stance: bool,
    pub keeper_jump_left: bool,
    pub keeper_jump_right: bool,
}

impl MotionSafeExits {
    /// The safe-exit flag of one motion, as a specification-level lookup.
    pub open spec fn spec_get(self, motion_type: MotionType) -> bool {
        match motion_type {
            MotionType::Animation => self.animation,
            MotionType::AnimationStiff => self.animation_stiff,
            MotionType::ArmsUpSquat => self.arms_up_squat,
            MotionType::ArmsUpStand => self.arms_up_stand,
            MotionType::Dispatching => self.dispatching,
            MotionType::Initial => self.initial,
            MotionType::JumpLeft => self.jump_left,
            MotionType::JumpRight => self.jump_right,
            MotionType::CenterJump => self.center_jump,
            MotionType::FallProtection => self.fall_protection,
            MotionType::Penalized => self.penalized,
            MotionType::SitDown => self.sit_down,
            MotionType::Stand => self.stand,
            MotionType::StandUpBack => self.stand_up_back,
            MotionType::StandUpFront => self.stand_up_front,
            MotionType::StandUpSitting => self.stand_up_sitting,
            MotionType::Unstiff => self.unstiff,
            MotionType::Walk => self.walk,
            MotionType::WideStance => self.wide_stance,
            MotionType::KeeperJumpLeft => self.keeper_jump_left,
            MotionType::KeeperJumpRight => self.keeper_jump_right,
        }
    }

    /// Sets every flag to the same value.
    pub fn fill(value: bool) -> (r: Self)
        ensures
            forall|m: MotionType| r.spec_get(m) == value,
    {
        Self {
            animation: value,
            animation_stiff: value,
            arms_up_squat: value,
            arms_up_stand: value,
            dispatching: value,
            fall_protection: value,
            initial: value,
            jump_left: value,
            jump_right: value,
            center_jump: value,
            penalized: value,
            sit_down: value,
            stand_up_back: value,
            stand_up_front: value,
            stand_up_sitting: value,
            stand: value,
            unstiff: value,
            walk: value,
            wide_stance: value,
            keeper_jump_left: value,
            keeper_jump_right: value,
        }
    }

    /// Reads the safe-exit flag of one motion.
    pub fn index(&self, motion_type: MotionType) -> (r: bool)
        ensures
            r == self.spec_get(motion_type),
    {
        match motion_type {
            MotionType::Animation => self.animation,
            MotionType::AnimationStiff => self.animation_stiff,
            MotionType::ArmsUpSquat => self.arms_up_squat,
            MotionType::ArmsUpStand => self.arms_up_stand,
            MotionType::Dispatching => self.dispatching,
            MotionType::Initial => self.initial,
            MotionType::JumpLeft => self.jump_left,
            MotionType::JumpRight => self.jump_right,
            MotionType::CenterJump => self.center_jump,
            MotionType::FallProtection => self.fall_protection,
            MotionType::Penalized => self.penalized,
            MotionType::SitDown => self.sit_down,
            MotionType::Stand => self.stand,
            MotionType::StandUpBack => self.stand_up_back,
            MotionType::StandUpFront => self.stand_up_front,
            MotionType::StandUpSitting => self.stand_up_sitting,
            MotionType::Unstiff => self.unstiff,
            MotionType::Walk => self.walk,
            MotionType::WideStance => self.wide_stance,
            MotionType::KeeperJumpLeft => self.keeper_jump_left,
            MotionType::KeeperJumpRight => self.keeper_jump_right,
        }
    }

    /// The table with the flag of one motion replaced.
    pub open spec fn spec_set(self, motion_type: MotionType, value: bool) -> MotionSafeExits {
        match motion_type {
            MotionType::Animation => MotionSafeExits { animation: value, ..self },
            MotionType::AnimationStiff => MotionSafeExits { animation_stiff: value, ..self },
            MotionType::ArmsUpSquat => MotionSafeExits { arms_up_squat: value, ..self },
            MotionType::ArmsUpStand => MotionSafeExits { arms_up_stand: value, ..self },
            MotionType::Dispatching => MotionSafeExits { dispatching: value, ..self },
            MotionType::Initial => MotionSafeExits { initial: value, ..self },
            MotionType::JumpLeft => MotionSafeExits { jump_left: value, ..self },
            MotionType::JumpRight => MotionSafeExits { jump_right: value, ..self },
            MotionType::CenterJump => MotionSafeExits { center_jump: value, ..self },
            MotionType::FallProtection => MotionSafeExits { fall_protection: value, ..self },
            MotionType::Penalized => MotionSafeExits { penalized: value, ..self },
            MotionType::SitDown => MotionSafeExits { sit_down: value, ..self },
            MotionType::Stand => MotionSafeExits { stand: value, ..self },
            MotionType::StandUpBack => MotionSafeExits { stand_up_back: value, ..self },
            MotionType::StandUpFront => MotionSafeExits { stand_up_front: value, ..self },
            MotionType::StandUpSitting => MotionSafeExits { stand_up_sitting: value, ..self },
            MotionType::Unstiff => MotionSafeExits { unstiff: value, ..self },
            MotionType::Walk => MotionSafeExits { walk: value, ..self },
            MotionType::WideStance => MotionSafeExits { wide_stance: value, ..self },
            MotionType::KeeperJumpLeft => MotionSafeExits { keeper_jump_left: value, ..self },
            MotionType::KeeperJumpRight => MotionSafeExits { keeper_jump_right: value, ..self },
        }
    }

    /// Writes the safe-exit flag of one motion, leaving the others as
    /// they were.
    pub fn set(&mut self, motion_type: MotionType, value: bool)
        ensures
            *final(self) == old(self).spec_set(motion_type, value),
    {
        let updated: MotionSafeExits = match motion_type {
            MotionType::Animation => MotionSafeExits { animation: value, ..*self },
            MotionType::AnimationStiff => MotionSafeExits { animation_stiff: value, ..*self },
            MotionType::ArmsUpSquat => MotionSafeExits { arms_up_squat: value, ..*self },
            MotionType::ArmsUpStand => MotionSafeExits { arms_up_stand: value, ..*self },
            MotionType::Dispatching => MotionSafeExits { dispatching: value, ..*self },
            MotionType::Initial => MotionSafeExits { initial: value, ..*self },
            MotionType::JumpLeft => MotionSafeExits { jump_left: value, ..*self },
            MotionType::JumpRight => MotionSafeExits { jump_right: value, ..*self },
            MotionType::CenterJump => MotionSafeExits { center_jump: value, ..*self },
            MotionType::FallProtection => MotionSafeExits { fall_protection: value, ..*self },
            MotionType::Penalized => MotionSafeExits { penalized: value, ..*self },
            MotionType::SitDown => MotionSafeExits { sit_down: value, ..*self },
            MotionType::Stand => MotionSafeExits { stand: value, ..*self },
            MotionType::StandUpBack => MotionSafeExits { stand_up_back: value, ..*self },
            MotionType::StandUpFront => MotionSafeExits { stand_up_front: value, ..*self },
            MotionType::StandUpSitting => MotionSafeExits { stand_up_sitting: value, ..*self },
            MotionType::Unstiff => MotionSafeExits { unstiff: value, ..*self },
            MotionType::Walk => MotionSafeExits { walk: value, ..*self },
            MotionType::WideStance => MotionSafeExits { wide_stance: value, ..*self },
            MotionType::KeeperJumpLeft => MotionSafeExits { keeper_jump_left: value, ..*self },
            MotionType::KeeperJumpRight => MotionSafeExits { keeper_jump_right: value, ..*self },
        };
        *self = updated;
    }
}

impl Default for MotionSafeExits {
    /// Motions that hold a static stance may be left at any time; the
    /// dynamic ones only signal a safe exit themselves.
    fn default() -> (r: Self)
        ensures
            r.animation && r.animation_stiff && r.arms_up_squat && r.arms_up_stand
                && r.fall_protection && r.initial && r.penalized && r.stand && r.unstiff,
            !r.dispatching && !r.jump_left && !r.jump_right && !r.center_jump && !r.sit_down
                && !r.stand_up_back && !r.stand_up_front && !r.stand_up_sitting && !r.walk
                && !r.wide_stance && !r.keeper_jump_left && !r.keeper_jump_right,
    {
        Self {
            animation: true,
            animation_stiff: true,
            arms_up_squat: true,
            arms_up_stand: true,
            dispatching: false,
            fall_protection: true,
            initial: true,
            jump_left: false,
            jump_right: false,
            center_jump: false,
            penalized: true,
            sit_down: false,
            stand_up_back: false,
            stand_up_front: false,
            stand_up_sitting: false,
            stand: true,
            unstiff: true,
            walk: false,
            wide_stance: false,
            keeper_jump_left: false,
            keeper_jump_right: false,
        }
    }
}

} // verus!
