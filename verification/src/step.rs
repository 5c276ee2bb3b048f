//! A bipedal step request: forward and leftward translation in
//! millimetres and a turn in milliradians.

use vstd::prelude::*;

verus! {

/// One planned step of the walking engine.
#[derive(Clone, Copy, Debug, PartialEq, Eq, Structural)]
pub struct Step {
    pub forward: i64,
    pub left: i64,
    pub turn: i64,
}

impl Step {
    /// The step that does not move at all.
    pub fn zero() -> (r: Step)
        ensures
            r.forward == 0,
            r.left == 0,
            r.turn == 0,
    {
        Step { forward: 0, left: 0, turn: 0 }
    }

    /// Component-wise sum, saturating nowhere: callers keep the
    /// components small enough that plain addition cannot overflow.
    pub fn plus(self, other: Step) -> (r: Step)
        requires
            -1_000_000_000 <= self.forward + other.forward <= 1_000_000_000,
            -1_000_000_000 <= self.left + other.left <= 1_000_000_000,
            -1_000_000_000 <= self.turn + other.turn <= 1_000_000_000,
        ensures
            r.forward == self.forward + other.forward,
            r.left == self.left + other.left,
            r.turn == self.turn + other.turn,
    {
        Step {
            forward: self.forward + other.forward,
            left: self.left + other.left,
            turn: self.turn + other.turn,
        }
    }
}

impl Default for Step {
    fn default() -> (r: Step)
        ensures
            r.forward == 0,
            r.left == 0,
            r.turn == 0,
    {
        Step { forward: 0, left: 0, turn: 0 }
    }
}

} // verus!
