//! Records exchanged with the low-level actuator runtime: command
//! routing tags, fall-state feedback and button events.

use vstd::prelude::*;

verus! {

/// Which joint chain a low-level command addresses.
#[derive(Clone, Copy, Debug, PartialEq, Eq, Structural)]
pub enum CommandType {
    Parallel,
    Serial,
}

/// The fall-management state reported by the actuator runtime.
#[derive(Clone, Copy, Debug, PartialEq, Eq, Structural)]
pub enum FallDownStateType {
    IsReady,
    IsFalling,
    HasFallen,
    IsGettingUp,
}

/// Fall feedback: the phase and whether a recovery is available.
#[derive(Clone, Copy, Debug, PartialEq, Eq, Structural)]
pub struct FallDownState {
    pub fall_down_state: FallDownStateType,
    pub is_recovery_available: bool,
}

/// The press pattern reported for a hardware button.
#[derive(Clone, Copy, Debug, PartialEq, Eq, Structural)]
pub enum ButtonEventType {
    PressDown,
    PressUp,
    SingleClick,
    DoubleClick,
    TripleClick,
    LongPressStart,
    LongPressHold,
    LongPressEnd,
}

/// One button event: which button and what happened to it.
#[derive(Clone, Copy, Debug, PartialEq, Eq, Structural)]
pub struct ButtonEventMsg {
    pub button: i64,
    pub event: ButtonEventType,
}

} // verus!
