//! Head look-around sweep states for the ball search.

use vstd::prelude::*;
use crate::command::Side;

verus! {

/// The full left-right sweep used when the ball is lost.
#[derive(Clone, Copy, Debug, PartialEq, Eq, Structural)]
pub enum BallSearchLookAround {
    Center { moving_towards: Side },
    Left,
    Right,
    HalfwayLeft { moving_towards: Side },
    HalfwayRight { moving_towards: Side },
}

impl Default for BallSearchLookAround {
    fn default() -> (r: Self)
        ensures
            r == (BallSearchLookAround::Center { moving_towards: Side::Left }),
    {
        BallSearchLookAround::Center { moving_towards: Side::Left }
    }
}

/// A sweep restricted to the left half.
#[derive(Clone, Copy, Debug, PartialEq, Eq, Structural)]
pub enum BallSearchLookAroundLeft {
    Center,
    Left,
    HalfwayLeft { moving_towards: Side },
}

impl Default for BallSearchLookAroundLeft {
    fn default() -> (r: Self)
        ensures
            r == (BallSearchLookAroundLeft::HalfwayLeft { moving_towards: Side::Left }),
    {
        BallSearchLookAroundLeft::HalfwayLeft { moving_towards: Side::Left }
    }
}

/// A sweep restricted to the right half.
#[derive(Clone, Copy, Debug, PartialEq, Eq, Structural)]
pub enum BallSearchLookAroundRight {
    Center,
    Right,
    HalfwayRight { moving_towards: Side },
}

impl Default for BallSearchLookAroundRight {
    fn default() -> (r: Self)
        ensures
            r == (BallSearchLookAroundRight::HalfwayRight { moving_towards: Side::Right }),
    {
        BallSearchLookAroundRight::HalfwayRight { moving_towards: Side::Right }
    }
}

/// A quick sweep that reuses the full sweep's states.
#[derive(Clone, Copy, Debug, PartialEq, Eq, Structural)]
pub struct QuickLookAround {
    pub mode: BallSearchLookAround,
}

impl Default for QuickLookAround {
    fn default() -> (r: Self)
        ensures
            r.mode == (BallSearchLookAround::Center { moving_towards: Side::Left }),
    {
        QuickLookAround { mode: BallSearchLookAround::Center { moving_towards: Side::Left } }
    }
}

/// The two-position sweep used in the initial state.
#[derive(Clone, Copy, Debug, PartialEq, Eq, Structural)]
pub enum InitialLookAround {
    Left,
    Right,
}

impl Default for InitialLookAround {
    fn default() -> (r: Self)
        ensures
            r == InitialLookAround::Left,
    {
        InitialLookAround::Left
    }
}

/// Which look-around program drives the head.
#[derive(Clone, Copy, Debug, PartialEq, Eq, Structural)]
pub enum LookAroundMode {
    Center,
    BallSearch(BallSearchLookAround),
    QuickSearch(QuickLookAround),
    Initial(InitialLookAround),
    BallSearchLeft(BallSearchLookAroundLeft),
    BallSearchRight(BallSearchLookAroundRight),
}

} // verus!
