//! Rigid motions of the plane, used for the per-cycle odometry
//! increment and for the ground-to-field transform.
//!
//! A transform rotates first (the rotation stored as a direction vector
//! in thousandths) and translates second.  Each rotated coordinate is
//! truncated toward zero once, which the contracts state exactly.

use vstd::prelude::*;
use crate::fixed::{mul_div, mul_div_tz, SCALE};
use crate::geometry::{Orientation, Point2, Vector2};

verus! {

/// A rigid motion: rotation followed by translation.
#[derive(Clone, Copy, Debug, PartialEq, Eq, Structural)]
pub struct Transform2 {
    pub rot: Orientation,
    pub translation: Vector2,
}

/// Rotation entries stay within one unit and translations within the
/// coordinate range of the crate.
pub open spec fn transform_wf(t: Transform2) -> bool {
    &&& -SCALE <= t.rot.cos_milli <= SCALE
    &&& -SCALE <= t.rot.sin_milli <= SCALE
    &&& t.translation.wf()
}

/// The x coordinate of the transformed point.
pub open spec fn apply_x_spec(t: Transform2, x: int, y: int) -> int {
    t.translation.x + mul_div_tz(t.rot.cos_milli as int, x, SCALE as int) - mul_div_tz(
        t.rot.sin_milli as int,
        y,
        SCALE as int,
    )
}

/// The y coordinate of the transformed point.
pub open spec fn apply_y_spec(t: Transform2, x: int, y: int) -> int {
    t.translation.y + mul_div_tz(t.rot.sin_milli as int, x, SCALE as int) + mul_div_tz(
        t.rot.cos_milli as int,
        y,
        SCALE as int,
    )
}

/// The composed transform, coordinate by coordinate: the rotation is
/// the complex product of the two rotations and the translation is the
/// first transform applied to the second's displacement, each entry
/// truncated toward zero once.
pub open spec fn compose_spec(a: Transform2, b: Transform2) -> Transform2 {
    Transform2 {
        rot: Orientation {
            cos_milli: (mul_div_tz(a.rot.cos_milli as int, b.rot.cos_milli as int, SCALE as int)
                - mul_div_tz(a.rot.sin_milli as int, b.rot.sin_milli as int, SCALE as int)) as i64,
            sin_milli: (mul_div_tz(a.rot.sin_milli as int, b.rot.cos_milli as int, SCALE as int)
                + mul_div_tz(a.rot.cos_milli as int, b.rot.sin_milli as int, SCALE as int)) as i64,
        },
        translation: Vector2 {
            x: apply_x_spec(a, b.translation.x as int, b.translation.y as int) as i64,
            y: apply_y_spec(a, b.translation.x as int, b.translation.y as int) as i64,
        },
    }
}

/// A rotation entry times an in-range coordinate, rescaled, stays
/// within twice the coordinate range.
pub proof fn lemma_rot_term_bound(c: int, v: int)
    requires
        -SCALE <= c <= SCALE,
        -4_000_000_000 <= v <= 4_000_000_000,
    ensures
        crate::fixed::abs_spec(mul_div_tz(c, v, SCALE as int)) <= crate::fixed::abs_spec(v),
{
    let p = c * v;
    assert(crate::fixed::abs_spec(p) <= crate::fixed::abs_spec(v) * SCALE) by (nonlinear_arith)
        requires
            -SCALE <= c <= SCALE,
            p == c * v,
    ;
    if p >= 0 {
        assert(0 <= p / (SCALE as int) <= crate::fixed::abs_spec(v)) by (nonlinear_arith)
            requires
                0 <= p <= crate::fixed::abs_spec(v) * SCALE,
                SCALE > 0,
        ;
    } else {
        assert(0 <= (-p) / (SCALE as int) <= crate::fixed::abs_spec(v)) by (nonlinear_arith)
            requires
                p < 0,
                -p <= crate::fixed::abs_spec(v) * SCALE,
                SCALE > 0,
        ;
    }
}


/// A transformed in-range point stays within three times the
/// coordinate range.
pub proof fn lemma_apply_in_range(t: Transform2, x: int, y: int)
    requires
        transform_wf(t),
        -1_000_000_000 <= x <= 1_000_000_000,
        -1_000_000_000 <= y <= 1_000_000_000,
    ensures
        -3_000_000_000 <= apply_x_spec(t, x, y) <= 3_000_000_000,
        -3_000_000_000 <= apply_y_spec(t, x, y) <= 3_000_000_000,
{
    lemma_rot_term_bound(t.rot.cos_milli as int, x);
    lemma_rot_term_bound(t.rot.sin_milli as int, y);
    lemma_rot_term_bound(t.rot.sin_milli as int, x);
    lemma_rot_term_bound(t.rot.cos_milli as int, y);
}

impl Transform2 {
    /// The transform that moves nothing.
    pub fn identity() -> (r: Transform2)
        ensures
            r.rot.cos_milli == SCALE,
            r.rot.sin_milli == 0,
            r.translation.x == 0,
            r.translation.y == 0,
    {
        Transform2 {
            rot: Orientation { cos_milli: SCALE, sin_milli: 0 },
            translation: Vector2 { x: 0, y: 0 },
        }
    }

    /// Applies the motion to a point.
    pub fn apply(&self, p: Point2) -> (r: Point2)
        requires
            transform_wf(*self),
            p.wf(),
        ensures
            r.x == apply_x_spec(*self, p.x as int, p.y as int),
            r.y == apply_y_spec(*self, p.x as int, p.y as int),
    {
        proof {
            lemma_rot_term_bound(self.rot.cos_milli as int, p.x as int);
            lemma_rot_term_bound(self.rot.sin_milli as int, p.y as int);
            lemma_rot_term_bound(self.rot.sin_milli as int, p.x as int);
            lemma_rot_term_bound(self.rot.cos_milli as int, p.y as int);
        }
        let rx: i64 = mul_div(self.rot.cos_milli, p.x, SCALE) - mul_div(
            self.rot.sin_milli,
            p.y,
            SCALE,
        );
        let ry: i64 = mul_div(self.rot.sin_milli, p.x, SCALE) + mul_div(
            self.rot.cos_milli,
            p.y,
            SCALE,
        );
        Point2 { x: self.translation.x + rx, y: self.translation.y + ry }
    }

    /// Applies only the rotation, as a velocity or displacement wants
    /// it.
    pub fn apply_vector(&self, v: Vector2) -> (r: Vector2)
        requires
            transform_wf(*self),
            v.wf(),
        ensures
            r.x == mul_div_tz(self.rot.cos_milli as int, v.x as int, SCALE as int) - mul_div_tz(
                self.rot.sin_milli as int,
                v.y as int,
                SCALE as int,
            ),
            r.y == mul_div_tz(self.rot.sin_milli as int, v.x as int, SCALE as int) + mul_div_tz(
                self.rot.cos_milli as int,
                v.y as int,
                SCALE as int,
            ),
    {
        proof {
            lemma_rot_term_bound(self.rot.cos_milli as int, v.x as int);
            lemma_rot_term_bound(self.rot.sin_milli as int, v.y as int);
            lemma_rot_term_bound(self.rot.sin_milli as int, v.x as int);
            lemma_rot_term_bound(self.rot.cos_milli as int, v.y as int);
        }
        Vector2 {
            x: mul_div(self.rot.cos_milli, v.x, SCALE) - mul_div(self.rot.sin_milli, v.y, SCALE),
            y: mul_div(self.rot.sin_milli, v.x, SCALE) + mul_div(self.rot.cos_milli, v.y, SCALE),
        }
    }

    /// The composition `self` after `other`: applying the result is
    /// applying `other` first and `self` second, up to the one
    /// truncation per rotated coordinate.
    pub fn compose(&self, other: &Transform2) -> (r: Transform2)
        requires
            transform_wf(*self),
            transform_wf(*other),
        ensures
            r == compose_spec(*self, *other),
    {
        proof {
            lemma_rot_term_bound(self.rot.cos_milli as int, other.rot.cos_milli as int);
            lemma_rot_term_bound(self.rot.sin_milli as int, other.rot.sin_milli as int);
            lemma_rot_term_bound(self.rot.sin_milli as int, other.rot.cos_milli as int);
            lemma_rot_term_bound(self.rot.cos_milli as int, other.rot.sin_milli as int);
        }
        let cos_milli: i64 = mul_div(self.rot.cos_milli, other.rot.cos_milli, SCALE) - mul_div(
            self.rot.sin_milli,
            other.rot.sin_milli,
            SCALE,
        );
        let sin_milli: i64 = mul_div(self.rot.sin_milli, other.rot.cos_milli, SCALE) + mul_div(
            self.rot.cos_milli,
            other.rot.sin_milli,
            SCALE,
        );
        let moved: Point2 = self.apply(
            Point2 { x: other.translation.x, y: other.translation.y },
        );
        Transform2 {
            rot: Orientation { cos_milli, sin_milli },
            translation: Vector2 { x: moved.x, y: moved.y },
        }
    }
}

/// Scaling by a full unit and rescaling is the identity.
pub proof fn lemma_unit_cancel(v: int)
    ensures
        mul_div_tz(SCALE as int, v, SCALE as int) == v,
{
    if v >= 0 {
        assert(((SCALE as int) * v) / (SCALE as int) == v) by (nonlinear_arith)
            requires
                v >= 0,
        ;
    } else {
        assert(((SCALE as int) * (-v)) / (SCALE as int) == -v) by (nonlinear_arith)
            requires
                -v >= 0,
        ;
        assert((SCALE as int) * v == -((SCALE as int) * (-v))) by (nonlinear_arith);
    }
}

/// The identity transform really fixes every point.
pub proof fn lemma_identity_fixes_points(t: Transform2, x: int, y: int)
    requires
        t.rot.cos_milli == SCALE,
        t.rot.sin_milli == 0,
        t.translation.x == 0,
        t.translation.y == 0,
    ensures
        apply_x_spec(t, x, y) == x,
        apply_y_spec(t, x, y) == y,
{
    lemma_unit_cancel(x);
    lemma_unit_cancel(y);
    assert(mul_div_tz(0, x, SCALE as int) == 0) by {
        assert(0int * x == 0) by (nonlinear_arith);
        assert(0int / (SCALE as int) == 0) by (nonlinear_arith)
            requires
                SCALE > 0,
        ;
    }
    assert(mul_div_tz(0, y, SCALE as int) == 0) by {
        assert(0int * y == 0) by (nonlinear_arith);
        assert(0int / (SCALE as int) == 0) by (nonlinear_arith)
            requires
                SCALE > 0,
        ;
    }
}

/// Whether a transform is a pure translation.
pub open spec fn is_translation(t: Transform2) -> bool {
    t.rot.cos_milli == SCALE && t.rot.sin_milli == 0
}

proof fn lemma_zero_term(v: int)
    ensures
        mul_div_tz(0, v, SCALE as int) == 0,
{
    assert(0int * v == 0) by (nonlinear_arith);
    assert(0int / (SCALE as int) == 0) by (nonlinear_arith)
        requires
            SCALE > 0,
    ;
}

/// Composing two pure translations adds their displacement vectors
/// exactly, with no rounding at all.
pub proof fn lemma_translation_compose(a: Transform2, b: Transform2)
    requires
        is_translation(a),
        is_translation(b),
        -1_000_000_000 <= a.translation.x + b.translation.x <= 1_000_000_000,
        -1_000_000_000 <= a.translation.y + b.translation.y <= 1_000_000_000,
    ensures
        is_translation(compose_spec(a, b)),
        compose_spec(a, b).translation.x == a.translation.x + b.translation.x,
        compose_spec(a, b).translation.y == a.translation.y + b.translation.y,
{
    lemma_unit_cancel(SCALE as int);
    lemma_unit_cancel(b.rot.cos_milli as int);
    lemma_unit_cancel(b.translation.x as int);
    lemma_unit_cancel(b.translation.y as int);
    lemma_zero_term(b.rot.sin_milli as int);
    lemma_zero_term(b.rot.cos_milli as int);
    lemma_zero_term(b.translation.x as int);
    lemma_zero_term(b.translation.y as int);
}

/// Integrating per-cycle translation increments is associative: folding
/// them one by one from either end yields the same frame.  (With a
/// rotating increment the once-per-composition truncation can move the
/// two groupings apart by a thousandth, so the exact law is stated for
/// the translation subgroup; a concrete rotated example sits in the
/// tests.)
pub proof fn lemma_translation_composition_associative(a: Transform2, b: Transform2, c: Transform2)
    requires
        is_translation(a),
        is_translation(b),
        is_translation(c),
        -1_000_000_000 <= a.translation.x + b.translation.x + c.translation.x <= 1_000_000_000,
        -1_000_000_000 <= a.translation.y + b.translation.y + c.translation.y <= 1_000_000_000,
        -1_000_000_000 <= a.translation.x + b.translation.x <= 1_000_000_000,
        -1_000_000_000 <= a.translation.y + b.translation.y <= 1_000_000_000,
        -1_000_000_000 <= b.translation.x + c.translation.x <= 1_000_000_000,
        -1_000_000_000 <= b.translation.y + c.translation.y <= 1_000_000_000,
    ensures
        compose_spec(compose_spec(a, b), c) == compose_spec(a, compose_spec(b, c)),
{
    lemma_translation_compose(a, b);
    lemma_translation_compose(b, c);
    lemma_translation_compose(compose_spec(a, b), c);
    lemma_translation_compose(a, compose_spec(b, c));
}

} // verus!
