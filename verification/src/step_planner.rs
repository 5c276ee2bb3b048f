//! The step planner: truncates the planned path to one step, derives
//! the step's turn, and clamps the result into the anatomic walk
//! volume.
//!
//! The walk volume is the super-ellipsoid
//! `(|X|^te + |Y|^te)^(re/te) + |T|^re <= 1` over the normalized step
//! components.  All of it is computed in thousandths: a normalized
//! ratio of one is `1000`, and the fixed-point power `powd` divides by
//! the scale after every multiplication, which the contracts state
//! exactly.

use vstd::prelude::*;
use vstd::arithmetic::power::pow;
use crate::fixed::{abs_spec, mul_div_tz, SCALE};
use crate::command::MotionCommand;
use crate::step::Step;

verus! {

/// The magnitude of a step component, normalized by its configured
/// maximum and scaled by a thousand.
pub open spec fn ratio_spec(v: int, max: int) -> int {
    (abs_spec(v) * SCALE) / max
}

/// Fixed-point power: each multiplication is rescaled by a truncating
/// division, exactly as the executable computation does it.
pub open spec fn powd_spec(v: int, n: nat) -> int
    decreases n,
{
    if n == 0 {
        SCALE as int
    } else {
        (powd_spec(v, (n - 1) as nat) * v) / (SCALE as int)
    }
}

/// Computes `ratio_spec` for a component and its maximum.
fn ratio(v: i64, max: i64) -> (r: u64)
    requires
        max >= 1,
        -1_000_000_000_000 <= v <= 1_000_000_000_000,
    ensures
        r == ratio_spec(v as int, max as int),
        r <= 1_000_000_000_000_000,
{
    let m: u64 = crate::fixed::abs_i64(v);
    let scaled: u128 = (m as u128) * (SCALE as u128);
    let q: u128 = scaled / (max as u128);
    proof {
        assert(q <= scaled) by (nonlinear_arith)
            requires
                max >= 1,
                q == scaled as int / (max as int),
                scaled >= 0,
        ;
    }
    q as u64
}

/// Computes `powd_spec` for exponents up to three, the range the walk
/// volume is configured in.
fn powd(v: u64, n: u32) -> (r: u128)
    requires
        1 <= n <= 3,
        v <= 4_000_000_000_000,
    ensures
        r == powd_spec(v as int, n as nat),
        r <= 0x1_0000_0000_0000_0000_0000_0000_0000,
{
    proof {
        reveal_with_fuel(powd_spec, 5);
        crate::odometry::lemma_unit_cancel(v as int);
    }
    let a1: u128 = v as u128;
    if n == 1 {
        return a1;
    }
    proof {
        assert(a1 * v <= 16_000_000_000_000_000_000_000_000) by (nonlinear_arith)
            requires
                0 <= a1 <= 4_000_000_000_000,
                0 <= v <= 4_000_000_000_000,
        ;
        assert(0 <= (a1 * v) / (SCALE as int) <= 16_000_000_000_000_000_000_000) by (
        nonlinear_arith)
            requires
                0 <= a1 * v <= 16_000_000_000_000_000_000_000_000,
                SCALE == 1000,
        ;
    }
    let a2: u128 = a1 * (v as u128) / (SCALE as u128);
    if n == 2 {
        return a2;
    }
    proof {
        assert(a2 * v <= 64_000_000_000_000_000_000_000_000_000_000_000) by (nonlinear_arith)
            requires
                0 <= a2 <= 16_000_000_000_000_000_000_000,
                0 <= v <= 4_000_000_000_000,
        ;
        assert(0 <= (a2 * v) / (SCALE as int) <= 64_000_000_000_000_000_000_000_000_000_000) by (
        nonlinear_arith)
            requires
                0 <= a2 * v <= 64_000_000_000_000_000_000_000_000_000_000_000,
                SCALE == 1000,
        ;
    }
    let a3: u128 = a2 * (v as u128) / (SCALE as u128);
    a3
}

/// A ratio of at most one keeps all its fixed-point powers at most
/// one.
proof fn lemma_powd_le_unit(v: int, n: nat)
    requires
        0 <= v <= SCALE,
    ensures
        0 <= powd_spec(v, n) <= SCALE,
    decreases n,
{
    if n == 0 {
    } else {
        lemma_powd_le_unit(v, (n - 1) as nat);
        let prev = powd_spec(v, (n - 1) as nat);
        assert(0 <= (prev * v) / (SCALE as int) <= SCALE) by (nonlinear_arith)
            requires
                0 <= prev <= SCALE,
                0 <= v <= SCALE,
        ;
    }
}

/// A normalized ratio within a thousandfold of the boundary keeps its
/// fixed-point powers within what a summed translation share accepts.
proof fn lemma_powd_ratio_bound(v: int, n: nat)
    requires
        0 <= v <= 1_000_000,
        1 <= n <= 3,
    ensures
        0 <= powd_spec(v, n) <= 1_000_000_000_000,
{
    reveal_with_fuel(powd_spec, 5);
    crate::odometry::lemma_unit_cancel(v);
    assert(powd_spec(v, 1nat) == v);
    if n >= 2 {
        assert(0 <= (v * v) / (SCALE as int) <= 1_000_000_000) by (nonlinear_arith)
            requires
                0 <= v <= 1_000_000,
                SCALE == 1000,
        ;
    }
    if n == 3 {
        let a2 = powd_spec(v, 2nat);
        assert(0 <= (a2 * v) / (SCALE as int) <= 1_000_000_000_000) by (nonlinear_arith)
            requires
                0 <= a2 <= 1_000_000_000,
                0 <= v <= 1_000_000,
                SCALE == 1000,
        ;
    }
}

/// The clamped turn component: the request's turn held inside the
/// side-dependent turn bounds.
pub open spec fn clamped_turn_spec(turn: int, max_turn_left: int, max_turn_right: int) -> int {
    if turn < max_turn_left {
        max_turn_left
    } else if turn > max_turn_right {
        max_turn_right
    } else {
        turn
    }
}

/// Whether a step lies inside the walk volume: the rotation share plus
/// the translation share, compared in exact integer arithmetic.  The
/// translation share is the `te`-th root of
/// `powd(A, re) * SCALE^(te-1)`, so the volume stays at most one
/// exactly when `powd(A, re) * SCALE^(te-1) < (SCALE - arp + 1)^te`.
pub open spec fn volume_le_one_spec(
    forward: int,
    left: int,
    turn: int,
    max_forward: int,
    max_left: int,
    max_backwards: int,
    te: nat,
    re: nat,
    max_turn_left: int,
    max_turn_right: int,
) -> bool {
    let xr = ratio_spec(
        forward,
        if forward >= 0 {
            max_forward
        } else {
            max_backwards
        },
    );
    let yr = ratio_spec(left, max_left);
    let ar = ratio_spec(
        turn,
        if turn >= 0 {
            max_turn_right
        } else {
            -max_turn_left
        },
    );
    let arp = powd_spec(ar, re);
    let a_s = powd_spec(xr, te) + powd_spec(yr, te);
    let b_s = powd_spec(a_s, re);
    arp <= SCALE && b_s * pow(SCALE as int, (te - 1) as nat) < pow((SCALE as int) - arp + 1, te)
}

/// The request bounds under which the walk-volume arithmetic stays in
/// range: positive maxima, ratios within a thousandfold of the volume
/// boundary, exponents between one and three.
pub open spec fn volume_inputs_wf(
    forward: int,
    left: int,
    max_forward: int,
    max_left: int,
    max_backwards: int,
    te: nat,
    re: nat,
    max_turn_left: int,
    max_turn_right: int,
) -> bool {
    &&& max_forward >= 1
    &&& max_left >= 1
    &&& max_backwards >= 1
    &&& max_turn_left <= -1
    &&& max_turn_right >= 1
    &&& -1_000_000_000_000 <= max_turn_left
    &&& max_turn_right <= 1_000_000_000_000
    &&& 1 <= te <= 3
    &&& 1 <= re <= 3
    &&& -1_000_000_000_000 <= forward <= 1_000_000_000_000
    &&& -1_000_000_000_000 <= left <= 1_000_000_000_000
    &&& ratio_spec(
        forward,
        if forward >= 0 {
            max_forward
        } else {
            max_backwards
        },
    ) <= 1_000_000
    &&& ratio_spec(left, max_left) <= 1_000_000
}

/// `pow` for a small base and an exponent of at most three, for the
/// exact comparisons of the volume test.
fn pow_small(v: u128, n: u32) -> (r: u128)
    requires
        1 <= n <= 3,
        n >= 2 ==> v <= 10_000_000_000_000_000_000,
        n >= 3 ==> v <= 4_000_000_000_000,
    ensures
        r == pow(v as int, n as nat),
{
    proof {
        reveal_with_fuel(pow, 5);
    }
    if n == 1 {
        proof {
            assert(pow(v as int, 1nat) == v) by (nonlinear_arith)
                requires
                    pow(v as int, 1nat) == (v as int) * pow(v as int, 0nat),
                    pow(v as int, 0nat) == 1,
            ;
        }
        return v;
    }
    proof {
        assert(v * v <= 100_000_000_000_000_000_000_000_000_000_000_000_000) by (nonlinear_arith)
            requires
                0 <= v <= 10_000_000_000_000_000_000,
        ;
        assert(pow(v as int, 2nat) == v * v) by (nonlinear_arith)
            requires
                pow(v as int, 2nat) == (v as int) * pow(v as int, 1nat),
                pow(v as int, 1nat) == (v as int) * pow(v as int, 0nat),
                pow(v as int, 0nat) == 1,
        ;
    }
    let sq: u128 = v * v;
    if n == 2 {
        return sq;
    }
    proof {
        assert(sq * v <= 64_000_000_000_000_000_000_000_000_000_000_000_000) by (nonlinear_arith)
            requires
                0 <= v <= 4_000_000_000_000,
                sq == v * v,
        ;
        assert(pow(v as int, 3nat) == sq * v) by (nonlinear_arith)
            requires
                pow(v as int, 3nat) == (v as int) * pow(v as int, 2nat),
                pow(v as int, 2nat) == (v as int) * pow(v as int, 1nat),
                pow(v as int, 1nat) == (v as int) * pow(v as int, 0nat),
                pow(v as int, 0nat) == 1,
                sq == v * v,
        ;
    }
    sq * v
}

/// `SCALE^(te-1)` for the exponents the volume accepts.
fn scale_power(te: u32) -> (r: u128)
    requires
        1 <= te <= 3,
    ensures
        r == pow(SCALE as int, (te - 1) as nat),
        1 <= r <= 1_000_000,
{
    proof {
        reveal_with_fuel(pow, 5);
        assert(pow(SCALE as int, 1nat) == SCALE) by (nonlinear_arith)
            requires
                pow(SCALE as int, 1nat) == (SCALE as int) * pow(SCALE as int, 0nat),
                pow(SCALE as int, 0nat) == 1,
        ;
        assert(pow(SCALE as int, 2nat) == 1_000_000) by (nonlinear_arith)
            requires
                pow(SCALE as int, 2nat) == (SCALE as int) * pow(SCALE as int, 1nat),
                pow(SCALE as int, 1nat) == SCALE,
                SCALE == 1000,
        ;
    }
    if te == 1 {
        1
    } else if te == 2 {
        1000
    } else {
        1_000_000
    }
}

/// Decides `volume_le_one_spec` for a step whose turn is already
/// clamped into the turn bounds.
pub fn walk_volume_at_most_one(
    forward: i64,
    left: i64,
    turn: i64,
    max_forward: i64,
    max_left: i64,
    max_backwards: i64,
    translation_exponent: u32,
    rotation_exponent: u32,
    max_turn_left: i64,
    max_turn_right: i64,
) -> (r: bool)
    requires
        volume_inputs_wf(
            forward as int,
            left as int,
            max_forward as int,
            max_left as int,
            max_backwards as int,
            translation_exponent as nat,
            rotation_exponent as nat,
            max_turn_left as int,
            max_turn_right as int,
        ),
        max_turn_left <= turn <= max_turn_right,
    ensures
        r == volume_le_one_spec(
            forward as int,
            left as int,
            turn as int,
            max_forward as int,
            max_left as int,
            max_backwards as int,
            translation_exponent as nat,
            rotation_exponent as nat,
            max_turn_left as int,
            max_turn_right as int,
        ),
{
    let te = translation_exponent;
    let re = rotation_exponent;
    let xr: u64 = if forward >= 0 {
        ratio(forward, max_forward)
    } else {
        ratio(forward, max_backwards)
    };
    let yr: u64 = ratio(left, max_left);
    let ar: u64 = if turn >= 0 {
        ratio(turn, max_turn_right)
    } else {
        ratio(turn, -max_turn_left)
    };
    proof {
        assert(ar <= SCALE) by (nonlinear_arith)
            requires
                ar == (abs_spec(turn as int) * SCALE) / (if turn >= 0 {
                    max_turn_right as int
                } else {
                    -(max_turn_left as int)
                }),
                abs_spec(turn as int) <= (if turn >= 0 {
                    max_turn_right as int
                } else {
                    -(max_turn_left as int)
                }),
                (if turn >= 0 {
                    max_turn_right as int
                } else {
                    -(max_turn_left as int)
                }) >= 1,
                SCALE == 1000,
        ;
        lemma_powd_le_unit(ar as int, re as nat);
        lemma_powd_ratio_bound(xr as int, te as nat);
        lemma_powd_ratio_bound(yr as int, te as nat);
    }
    let arp: u128 = powd(ar, re);
    let px: u128 = powd(xr, te);
    let py: u128 = powd(yr, te);
    let a_s: u128 = px + py;
    proof {
        lemma_powd_sum_bound(a_s as int, re as nat);
    }
    let b_s: u128 = powd(a_s as u64, re);
    if arp > SCALE as u128 {
        return false;
    }
    let s_pow: u128 = scale_power(te);
    proof {
        assert(b_s * s_pow <= 0x8000_0000_0000_0000_0000_0000_0000_0000) by (nonlinear_arith)
            requires
                0 <= b_s <= 64_000_000_000_000_000_000_000_000_000_000,
                0 <= s_pow <= 1_000_000,
        ;
    }
    let lhs: u128 = b_s * s_pow;
    let rhs: u128 = pow_small((SCALE as u128) - arp + 1, te);
    lhs < rhs
}

/// A summed translation share keeps its fixed-point powers inside the
/// range the volume comparison multiplies with.
proof fn lemma_powd_sum_bound(v: int, n: nat)
    requires
        0 <= v <= 2_000_000_000_000,
        1 <= n <= 3,
    ensures
        0 <= powd_spec(v, n) <= 64_000_000_000_000_000_000_000_000_000_000,
{
    reveal_with_fuel(powd_spec, 5);
    crate::odometry::lemma_unit_cancel(v);
    assert(powd_spec(v, 1nat) == v);
    if n >= 2 {
        assert(0 <= (v * v) / (SCALE as int) <= 4_000_000_000_000_000_000_000) by (nonlinear_arith)
            requires
                0 <= v <= 2_000_000_000_000,
                SCALE == 1000,
        ;
    }
    if n == 3 {
        let a2 = powd_spec(v, 2nat);
        assert(0 <= (a2 * v) / (SCALE as int) <= 64_000_000_000_000_000_000_000_000_000_000) by (
        nonlinear_arith)
            requires
                0 <= a2 <= 4_000_000_000_000_000_000_000,
                0 <= v <= 2_000_000_000_000,
                SCALE == 1000,
        ;
    }
}


/// A scaled-down component still satisfies the ratio cap of the
/// volume arithmetic, and stays within range.
proof fn lemma_scaled_component_wf(v: int, s: int, max_pos: int, max_neg: int)
    requires
        max_pos >= 1,
        max_neg >= 1,
        0 <= s <= SCALE,
        -1_000_000_000_000 <= v <= 1_000_000_000_000,
        ratio_spec(
            v,
            if v >= 0 {
                max_pos
            } else {
                max_neg
            },
        ) <= 1_000_000,
    ensures
        -1_000_000_000_000 <= mul_div_tz(v, s, SCALE as int) <= 1_000_000_000_000,
        ratio_spec(
            mul_div_tz(v, s, SCALE as int),
            if mul_div_tz(v, s, SCALE as int) >= 0 {
                max_pos
            } else {
                max_neg
            },
        ) <= 1_000_000,
{
    crate::fixed::lemma_mul_div_fraction(v, s, SCALE as int);
    let c = mul_div_tz(v, s, SCALE as int);
    let m = if v >= 0 {
        max_pos
    } else {
        max_neg
    };
    assert(abs_spec(c) <= abs_spec(v));
    if v >= 0 || c < 0 {
        // the same maximum applies to the scaled value
        assert(abs_spec(c) * SCALE <= abs_spec(v) * SCALE) by (nonlinear_arith)
            requires
                abs_spec(c) <= abs_spec(v),
                SCALE >= 1,
        ;
        vstd::arithmetic::div_mod::lemma_div_is_ordered(
            abs_spec(c) * SCALE,
            abs_spec(v) * SCALE,
            m,
        );
    } else {
        // v < 0 but c >= 0 forces c == 0, whose ratio is zero
        assert(c == 0);
        assert(0int * SCALE == 0) by (nonlinear_arith);
        assert(0int / max_pos == 0) by (nonlinear_arith)
            requires
                max_pos >= 1,
        ;
    }
}

/// The zero translation with a clamped turn always lies inside the
/// walk volume.
proof fn lemma_zero_step_in_volume(
    turn: int,
    max_forward: int,
    max_left: int,
    max_backwards: int,
    te: nat,
    re: nat,
    max_turn_left: int,
    max_turn_right: int,
)
    requires
        max_forward >= 1,
        max_left >= 1,
        max_backwards >= 1,
        max_turn_left <= -1,
        max_turn_right >= 1,
        1 <= te <= 3,
        1 <= re <= 3,
        max_turn_left <= turn <= max_turn_right,
    ensures
        volume_le_one_spec(
            0,
            0,
            turn,
            max_forward,
            max_left,
            max_backwards,
            te,
            re,
            max_turn_left,
            max_turn_right,
        ),
{
    reveal_with_fuel(powd_spec, 5);
    let m = if turn >= 0 {
        max_turn_right
    } else {
        -max_turn_left
    };
    let ar = ratio_spec(turn, m);
    assert(ar <= SCALE) by (nonlinear_arith)
        requires
            ar == (abs_spec(turn) * SCALE) / m,
            abs_spec(turn) <= m,
            m >= 1,
            SCALE == 1000,
    ;
    assert(ar >= 0) by (nonlinear_arith)
        requires
            ar == (abs_spec(turn) * SCALE) / m,
            abs_spec(turn) >= 0,
            SCALE == 1000,
            m >= 1,
    ;
    lemma_powd_le_unit(ar, re);
    let arp = powd_spec(ar, re);
    assert(0int * SCALE == 0) by (nonlinear_arith);
    assert(0int / max_forward == 0) by (nonlinear_arith)
        requires
            max_forward >= 1,
    ;
    assert(0int / max_left == 0) by (nonlinear_arith)
        requires
            max_left >= 1,
    ;
    assert(ratio_spec(0, max_forward) == 0);
    assert(ratio_spec(0, max_left) == 0);
    lemma_powd_of_zero(te);
    lemma_powd_of_zero(re);
    assert(powd_spec(0, te) + powd_spec(0, te) == 0);
    let b_s = powd_spec(0int + 0int, re);
    assert(b_s == 0);
    assert(b_s * pow(SCALE as int, (te - 1) as nat) == 0) by (nonlinear_arith)
        requires
            b_s == 0,
    ;
    vstd::arithmetic::power::lemma_pow_positive((SCALE as int) - arp + 1, te);
}

/// Any positive fixed-point power of zero is zero.
proof fn lemma_powd_of_zero(n: nat)
    requires
        n >= 1,
    ensures
        powd_spec(0, n) == 0,
    decreases n,
{
    if n == 1 {
        reveal_with_fuel(powd_spec, 3);
        assert(powd_spec(0, 0nat) * 0 == 0) by (nonlinear_arith);
        assert(0int / (SCALE as int) == 0) by (nonlinear_arith)
            requires
                SCALE == 1000,
        ;
    } else {
        lemma_powd_of_zero((n - 1) as nat);
        assert(powd_spec(0, (n - 1) as nat) * 0 == 0) by (nonlinear_arith);
        assert(0int / (SCALE as int) == 0) by (nonlinear_arith)
            requires
                SCALE == 1000,
        ;
    }
}

/// Clamps a requested step into the walk volume: the turn is clamped
/// into the side-dependent turn bounds first; if the step then exceeds
/// the volume, its translation is scaled down uniformly until it fits.
/// The returned step always lies inside the volume.
pub fn clamp_step_to_walk_volume(
    request: Step,
    max_step_size: &Step,
    max_step_size_backwards: i64,
    translation_exponent: u32,
    rotation_exponent: u32,
    max_turn_left: i64,
    max_turn_right: i64,
) -> (r: Step)
    requires
        volume_inputs_wf(
            request.forward as int,
            request.left as int,
            max_step_size.forward as int,
            max_step_size.left as int,
            max_step_size_backwards as int,
            translation_exponent as nat,
            rotation_exponent as nat,
            max_turn_left as int,
            max_turn_right as int,
        ),
    ensures
        r.turn == clamped_turn_spec(
            request.turn as int,
            max_turn_left as int,
            max_turn_right as int,
        ),
        volume_le_one_spec(
            r.forward as int,
            r.left as int,
            r.turn as int,
            max_step_size.forward as int,
            max_step_size.left as int,
            max_step_size_backwards as int,
            translation_exponent as nat,
            rotation_exponent as nat,
            max_turn_left as int,
            max_turn_right as int,
        ),
        exists|s: int|
            0 <= s <= SCALE && r.forward == #[trigger] mul_div_tz(
                request.forward as int,
                s,
                SCALE as int,
            ) && r.left == mul_div_tz(request.left as int, s, SCALE as int) && (s == SCALE
                || !volume_le_one_spec(
                mul_div_tz(request.forward as int, s + 1, SCALE as int),
                mul_div_tz(request.left as int, s + 1, SCALE as int),
                clamped_turn_spec(request.turn as int, max_turn_left as int, max_turn_right as int),
                max_step_size.forward as int,
                max_step_size.left as int,
                max_step_size_backwards as int,
                translation_exponent as nat,
                rotation_exponent as nat,
                max_turn_left as int,
                max_turn_right as int,
            )),
        volume_le_one_spec(
            request.forward as int,
            request.left as int,
            clamped_turn_spec(request.turn as int, max_turn_left as int, max_turn_right as int),
            max_step_size.forward as int,
            max_step_size.left as int,
            max_step_size_backwards as int,
            translation_exponent as nat,
            rotation_exponent as nat,
            max_turn_left as int,
            max_turn_right as int,
        ) ==> (r.forward == request.forward && r.left == request.left),
{
    let clamped_turn: i64 = crate::fixed::clamp_i64(request.turn, max_turn_left, max_turn_right);
    if walk_volume_at_most_one(
        request.forward,
        request.left,
        clamped_turn,
        max_step_size.forward,
        max_step_size.left,
        max_step_size_backwards,
        translation_exponent,
        rotation_exponent,
        max_turn_left,
        max_turn_right,
    ) {
        proof {
            crate::odometry::lemma_unit_cancel(request.forward as int);
            crate::odometry::lemma_unit_cancel(request.left as int);
            assert((request.forward as int) * (SCALE as int) == (SCALE as int) * (
            request.forward as int)) by (nonlinear_arith);
            assert((request.left as int) * (SCALE as int) == (SCALE as int) * (
            request.left as int)) by (nonlinear_arith);
            assert(request.forward == mul_div_tz(
                request.forward as int,
                SCALE as int,
                SCALE as int,
            ));
        }
        return Step { forward: request.forward, left: request.left, turn: clamped_turn };
    }
    let mut lo: i64 = 0;
    let mut hi: i64 = SCALE;
    proof {
        lemma_zero_step_in_volume(
            clamped_turn as int,
            max_step_size.forward as int,
            max_step_size.left as int,
            max_step_size_backwards as int,
            translation_exponent as nat,
            rotation_exponent as nat,
            max_turn_left as int,
            max_turn_right as int,
        );
        assert(0int * 0 == 0) by (nonlinear_arith);
        assert(mul_div_tz(request.forward as int, 0, SCALE as int) == 0) by {
            assert((request.forward as int) * 0 == 0) by (nonlinear_arith);
            assert(0int / (SCALE as int) == 0) by (nonlinear_arith)
                requires
                    SCALE == 1000,
            ;
        }
        assert(mul_div_tz(request.left as int, 0, SCALE as int) == 0) by {
            assert((request.left as int) * 0 == 0) by (nonlinear_arith);
            assert(0int / (SCALE as int) == 0) by (nonlinear_arith)
                requires
                    SCALE == 1000,
            ;
        }
        crate::odometry::lemma_unit_cancel(request.forward as int);
        crate::odometry::lemma_unit_cancel(request.left as int);
        assert((request.forward as int) * (SCALE as int) == (SCALE as int) * (
        request.forward as int)) by (nonlinear_arith);
        assert((request.left as int) * (SCALE as int) == (SCALE as int) * (request.left as int))
            by (nonlinear_arith);
    }
    while hi - lo > 1
        invariant
            0 <= lo < hi <= SCALE,
            volume_inputs_wf(
                request.forward as int,
                request.left as int,
                max_step_size.forward as int,
                max_step_size.left as int,
                max_step_size_backwards as int,
                translation_exponent as nat,
                rotation_exponent as nat,
                max_turn_left as int,
                max_turn_right as int,
            ),
            max_turn_left <= clamped_turn <= max_turn_right,
            volume_le_one_spec(
                mul_div_tz(request.forward as int, lo as int, SCALE as int),
                mul_div_tz(request.left as int, lo as int, SCALE as int),
                clamped_turn as int,
                max_step_size.forward as int,
                max_step_size.left as int,
                max_step_size_backwards as int,
                translation_exponent as nat,
                rotation_exponent as nat,
                max_turn_left as int,
                max_turn_right as int,
            ),
            !volume_le_one_spec(
                mul_div_tz(request.forward as int, hi as int, SCALE as int),
                mul_div_tz(request.left as int, hi as int, SCALE as int),
                clamped_turn as int,
                max_step_size.forward as int,
                max_step_size.left as int,
                max_step_size_backwards as int,
                translation_exponent as nat,
                rotation_exponent as nat,
                max_turn_left as int,
                max_turn_right as int,
            ),
        decreases hi - lo,
    {
        let mid: i64 = lo + (hi - lo) / 2;
        proof {
            lemma_scaled_component_wf(
                request.forward as int,
                mid as int,
                max_step_size.forward as int,
                max_step_size_backwards as int,
            );
            lemma_scaled_component_wf(
                request.left as int,
                mid as int,
                max_step_size.left as int,
                max_step_size.left as int,
            );
            crate::fixed::lemma_mul_div_fraction(request.forward as int, mid as int, SCALE as int);
            crate::fixed::lemma_mul_div_fraction(request.left as int, mid as int, SCALE as int);
        }
        let cf: i64 = crate::fixed::mul_div(request.forward, mid, SCALE);
        let cl: i64 = crate::fixed::mul_div(request.left, mid, SCALE);
        if walk_volume_at_most_one(
            cf,
            cl,
            clamped_turn,
            max_step_size.forward,
            max_step_size.left,
            max_step_size_backwards,
            translation_exponent,
            rotation_exponent,
            max_turn_left,
            max_turn_right,
        ) {
            lo = mid;
        } else {
            hi = mid;
        }
    }
    proof {
        lemma_scaled_component_wf(
            request.forward as int,
            lo as int,
            max_step_size.forward as int,
            max_step_size_backwards as int,
        );
        lemma_scaled_component_wf(
            request.left as int,
            lo as int,
            max_step_size.left as int,
            max_step_size.left as int,
        );
        crate::fixed::lemma_mul_div_fraction(request.forward as int, lo as int, SCALE as int);
        crate::fixed::lemma_mul_div_fraction(request.left as int, lo as int, SCALE as int);
    }
    let forward: i64 = crate::fixed::mul_div(request.forward, lo, SCALE);
    let left: i64 = crate::fixed::mul_div(request.left, lo, SCALE);
    Step { forward, left, turn: clamped_turn }
}



/// `pow` of two and three unfolded into plain products.
proof fn lemma_pow_unfold(v: int)
    ensures
        pow(v, 1nat) == v,
        pow(v, 2nat) == v * v,
        pow(v, 3nat) == v * (v * v),
{
    reveal_with_fuel(pow, 5);
    assert(pow(v, 1nat) == v) by (nonlinear_arith)
        requires
            pow(v, 1nat) == v * pow(v, 0nat),
            pow(v, 0nat) == 1,
    ;
    assert(pow(v, 2nat) == v * v) by (nonlinear_arith)
        requires
            pow(v, 2nat) == v * pow(v, 1nat),
            pow(v, 1nat) == v,
    ;
}

/// The walk volume of a step whose turn is already clamped, in
/// thousandths: the rotation share plus the integer `te`-th root of
/// the translation share.  The returned value is at most one (a
/// thousand) exactly when `volume_le_one_spec` holds of the step.
pub fn calculate_walk_volume(
    forward: i64,
    left: i64,
    turn: i64,
    max_forward: i64,
    max_left: i64,
    max_backwards: i64,
    translation_exponent: u32,
    rotation_exponent: u32,
    max_turn_left: i64,
    max_turn_right: i64,
) -> (r: u128)
    requires
        volume_inputs_wf(
            forward as int,
            left as int,
            max_forward as int,
            max_left as int,
            max_backwards as int,
            translation_exponent as nat,
            rotation_exponent as nat,
            max_turn_left as int,
            max_turn_right as int,
        ),
        max_turn_left <= turn <= max_turn_right,
    ensures
        ({
            let te = translation_exponent as nat;
            let re = rotation_exponent as nat;
            let xr = ratio_spec(
                forward as int,
                if forward >= 0 {
                    max_forward as int
                } else {
                    max_backwards as int
                },
            );
            let yr = ratio_spec(left as int, max_left as int);
            let ar = ratio_spec(
                turn as int,
                if turn >= 0 {
                    max_turn_right as int
                } else {
                    -(max_turn_left as int)
                },
            );
            let arp = powd_spec(ar, re);
            let b_s = powd_spec(powd_spec(xr, te) + powd_spec(yr, te), re);
            let w = b_s * pow(SCALE as int, (te - 1) as nat);
            &&& arp <= r
            &&& pow(r - arp, te) <= w
            &&& w < pow(r - arp + 1, te)
        }),
{
    let te = translation_exponent;
    let re = rotation_exponent;
    let xr: u64 = if forward >= 0 {
        ratio(forward, max_forward)
    } else {
        ratio(forward, max_backwards)
    };
    let yr: u64 = ratio(left, max_left);
    let ar: u64 = if turn >= 0 {
        ratio(turn, max_turn_right)
    } else {
        ratio(turn, -max_turn_left)
    };
    proof {
        assert(ar <= SCALE) by (nonlinear_arith)
            requires
                ar == (abs_spec(turn as int) * SCALE) / (if turn >= 0 {
                    max_turn_right as int
                } else {
                    -(max_turn_left as int)
                }),
                abs_spec(turn as int) <= (if turn >= 0 {
                    max_turn_right as int
                } else {
                    -(max_turn_left as int)
                }),
                (if turn >= 0 {
                    max_turn_right as int
                } else {
                    -(max_turn_left as int)
                }) >= 1,
                SCALE == 1000,
        ;
        lemma_powd_le_unit(ar as int, re as nat);
        lemma_powd_ratio_bound(xr as int, te as nat);
        lemma_powd_ratio_bound(yr as int, te as nat);
    }
    let arp: u128 = powd(ar, re);
    let px: u128 = powd(xr, te);
    let py: u128 = powd(yr, te);
    let a_s: u128 = px + py;
    proof {
        lemma_powd_sum_bound(a_s as int, re as nat);
    }
    let b_s: u128 = powd(a_s as u64, re);
    let s_pow: u128 = scale_power(te);
    proof {
        assert(b_s * s_pow <= 0x8000_0000_0000_0000_0000_0000_0000_0000) by (nonlinear_arith)
            requires
                0 <= b_s <= 64_000_000_000_000_000_000_000_000_000_000,
                0 <= s_pow <= 1_000_000,
        ;
    }
    let w: u128 = b_s * s_pow;
    if te == 1 {
        proof {
            lemma_pow_unfold(w as int);
            lemma_pow_unfold(w as int + 1);
        }
        return arp + w;
    }
    let mut lo: u128 = 0;
    let mut hi: u128 = if te == 2 {
        10_000_000_000_000_000_000
    } else {
        4_000_000_000_001
    };
    proof {
        lemma_pow_unfold(0);
        lemma_pow_unfold(10_000_000_000_000_000_000);
        lemma_pow_unfold(4_000_000_000_001);
        assert(10_000_000_000_000_000_000int * 10_000_000_000_000_000_000
            > 64_000_000_000_000_000_000_000_000_000_000_000_000) by (nonlinear_arith);
        assert(4_000_000_000_001int * (4_000_000_000_001int * 4_000_000_000_001)
            > 64_000_000_000_000_000_000_000_000_000_000_000_000) by (nonlinear_arith);
        assert(w <= 64_000_000_000_000_000_000_000_000_000_000_000_000) by (nonlinear_arith)
            requires
                0 <= b_s <= 64_000_000_000_000_000_000_000_000_000_000,
                0 <= s_pow <= 1_000_000,
                w == b_s * s_pow,
        ;
    }
    while hi - lo > 1
        invariant
            lo < hi,
            2 <= te <= 3,
            te == 2 ==> hi <= 10_000_000_000_000_000_000,
            te == 3 ==> hi <= 4_000_000_000_001,
            pow(lo as int, te as nat) <= w,
            (w as int) < pow(hi as int, te as nat),
        decreases hi - lo,
    {
        let mid: u128 = lo + (hi - lo) / 2;
        let p: u128 = pow_small(mid, te);
        if p <= w {
            lo = mid;
        } else {
            hi = mid;
        }
    }
    proof {
        lemma_pow_unfold(0);
    }
    arp + lo
}

/// An absolute-threshold hysteresis: the flag turns on above the high
/// bound, off below the low bound, and otherwise keeps its last value.
pub open spec fn hysteresis_spec(last: bool, value: int, low: int, high: int) -> bool {
    if value > high {
        true
    } else if value < low {
        false
    } else {
        last
    }
}

/// Decides `hysteresis_spec`.
pub fn greater_than_with_absolute_hysteresis(last: bool, value: i64, low: i64, high: i64) -> (r:
    bool)
    ensures
        r == hysteresis_spec(last, value as int, low as int, high as int),
{
    if value > high {
        true
    } else if value < low {
        false
    } else {
        last
    }
}

/// The leg temperature at which the planner stops considering fast
/// walking, in thousandths of a degree; the motors derate themselves
/// one degree higher, so the planner stays safely below.
pub const LEG_HOT_ENTER_MILLI_DEGREES: i64 = 75_000;

/// The leg temperature below which fast walking becomes available
/// again.
pub const LEG_HOT_EXIT_MILLI_DEGREES: i64 = 70_000;

/// The maximum step after speed selection: the slow delta for a slow
/// walk, the fast delta for a fast walk on cool legs, and the initial
/// side bonus outside the slow mode.
pub open spec fn max_step_size_spec(
    max_step_size: Step,
    step_size_delta_slow: Step,
    step_size_delta_fast: Step,
    speed: crate::command::WalkSpeed,
    leg_joints_hot: bool,
    bonus_left: int,
) -> (int, int, int) {
    let effective = if speed == crate::command::WalkSpeed::Fast && leg_joints_hot {
        crate::command::WalkSpeed::Normal
    } else {
        speed
    };
    match effective {
        crate::command::WalkSpeed::Slow => (
            max_step_size.forward + step_size_delta_slow.forward,
            max_step_size.left + step_size_delta_slow.left,
            max_step_size.turn + step_size_delta_slow.turn,
        ),
        crate::command::WalkSpeed::Normal => (
            max_step_size.forward as int,
            max_step_size.left + bonus_left,
            max_step_size.turn as int,
        ),
        crate::command::WalkSpeed::Fast => (
            max_step_size.forward + step_size_delta_fast.forward,
            max_step_size.left + step_size_delta_fast.left + bonus_left,
            max_step_size.turn + step_size_delta_fast.turn,
        ),
    }
}

/// An error of the step planner.
#[derive(Clone, Copy, Debug, PartialEq, Eq, Structural)]
pub enum StepPlannerError {
    EmptyPath,
}

/// The step planner's persistent state: the last planned step, for
/// the initial side bonus, and the leg temperature hysteresis.
#[derive(Clone, Copy, Debug, PartialEq, Eq, Structural)]
pub struct StepPlanner {
    pub last_planned_step: Step,
    pub leg_joints_hot: bool,
}

/// The planner's fixed configuration, in millimetres, milliradians
/// and thousandths.
#[derive(Clone, Copy, Debug, PartialEq, Eq, Structural)]
pub struct StepPlannerParameters {
    pub injected_step: Option<Step>,
    pub max_step_size: Step,
    pub step_size_delta_slow: Step,
    pub step_size_delta_fast: Step,
    pub max_step_size_backwards: i64,
    pub max_inside_turn: i64,
    pub rotation_exponent: u32,
    pub translation_exponent: u32,
    pub initial_side_bonus: i64,
    pub request_scale: Step,
}

/// Planner parameters the fixed-point arithmetic accepts.
pub open spec fn planner_parameters_wf(p: StepPlannerParameters) -> bool {
    &&& 1 <= p.max_step_size.forward <= 1_000_000
    &&& 1 <= p.max_step_size.left <= 1_000_000
    &&& 1 <= p.max_step_size.turn <= 1_000_000
    &&& 1 <= p.max_step_size_backwards <= 1_000_000
    &&& 1 <= p.max_inside_turn <= 1_000_000
    &&& 1 <= p.translation_exponent <= 3
    &&& 1 <= p.rotation_exponent <= 3
    &&& 0 <= p.initial_side_bonus <= 100_000
    &&& 0 <= p.request_scale.forward <= SCALE
    &&& 0 <= p.request_scale.left <= SCALE
    &&& 0 <= p.request_scale.turn <= SCALE
    &&& (match p.injected_step {
        Some(injected) => {
            &&& -1_000_000 <= injected.forward <= 1_000_000
            &&& -1_000_000 <= injected.left <= 1_000_000
            &&& -1_000_000_000 <= injected.turn <= 1_000_000_000
        },
        None => true,
    })
    &&& p.step_size_delta_slow.forward + p.max_step_size.forward >= 1
    &&& p.step_size_delta_slow.left + p.max_step_size.left >= 1
    &&& p.step_size_delta_slow.turn + p.max_step_size.turn >= 1
    &&& p.step_size_delta_fast.forward + p.max_step_size.forward >= 1
    &&& p.step_size_delta_fast.left + p.max_step_size.left >= 1
    &&& p.step_size_delta_fast.turn + p.max_step_size.turn >= 1
    &&& -1_000_000 <= p.step_size_delta_slow.forward + p.max_step_size.forward <= 1_000_000
    &&& -1_000_000 <= p.step_size_delta_slow.left + p.max_step_size.left <= 1_000_000
    &&& -1_000_000 <= p.step_size_delta_slow.turn + p.max_step_size.turn <= 1_000_000
    &&& -1_000_000 <= p.step_size_delta_fast.forward + p.max_step_size.forward <= 1_000_000
    &&& -1_000_000 <= p.step_size_delta_fast.left + p.max_step_size.left <= 1_000_000
    &&& -1_000_000 <= p.step_size_delta_fast.turn + p.max_step_size.turn <= 1_000_000
    &&& p.max_step_size.left + 100_000 <= 1_000_000
    &&& p.step_size_delta_fast.left + p.max_step_size.left + 100_000 <= 1_000_000
}

impl StepPlanner {
    /// A fresh planner: no step planned yet, legs considered cool.
    pub fn new() -> (r: StepPlanner)
        ensures
            r.last_planned_step == (Step { forward: 0, left: 0, turn: 0 }),
            !r.leg_joints_hot,
    {
        StepPlanner {
            last_planned_step: Step { forward: 0, left: 0, turn: 0 },
            leg_joints_hot: false,
        }
    }

    /// Applies the temperature hysteresis and the requested speed to
    /// the configured maximum step.
    pub fn calculate_max_step_size(
        &mut self,
        parameters: &StepPlannerParameters,
        speed: crate::command::WalkSpeed,
        initial_side_bonus_left: i64,
        highest_leg_temperature_milli: i64,
    ) -> (r: Step)
        requires
            planner_parameters_wf(*parameters),
            initial_side_bonus_left == 0 || initial_side_bonus_left
                == parameters.initial_side_bonus,
        ensures
            final(self).leg_joints_hot == hysteresis_spec(
                old(self).leg_joints_hot,
                highest_leg_temperature_milli as int,
                LEG_HOT_EXIT_MILLI_DEGREES as int,
                LEG_HOT_ENTER_MILLI_DEGREES as int,
            ),
            final(self).last_planned_step == old(self).last_planned_step,
            ({
                let (f, l, t) = max_step_size_spec(
                    parameters.max_step_size,
                    parameters.step_size_delta_slow,
                    parameters.step_size_delta_fast,
                    speed,
                    final(self).leg_joints_hot,
                    initial_side_bonus_left as int,
                );
                r.forward == f && r.left == l && r.turn == t
            }),
    {
        self.leg_joints_hot = greater_than_with_absolute_hysteresis(
            self.leg_joints_hot,
            highest_leg_temperature_milli,
            LEG_HOT_EXIT_MILLI_DEGREES,
            LEG_HOT_ENTER_MILLI_DEGREES,
        );
        let effective: crate::command::WalkSpeed = if speed == crate::command::WalkSpeed::Fast
            && self.leg_joints_hot {
            crate::command::WalkSpeed::Normal
        } else {
            speed
        };
        match effective {
            crate::command::WalkSpeed::Slow => Step {
                forward: parameters.max_step_size.forward
                    + parameters.step_size_delta_slow.forward,
                left: parameters.max_step_size.left + parameters.step_size_delta_slow.left,
                turn: parameters.max_step_size.turn + parameters.step_size_delta_slow.turn,
            },
            crate::command::WalkSpeed::Normal => Step {
                forward: parameters.max_step_size.forward,
                left: parameters.max_step_size.left + initial_side_bonus_left,
                turn: parameters.max_step_size.turn,
            },
            crate::command::WalkSpeed::Fast => Step {
                forward: parameters.max_step_size.forward
                    + parameters.step_size_delta_fast.forward,
                left: parameters.max_step_size.left + parameters.step_size_delta_fast.left
                    + initial_side_bonus_left,
                turn: parameters.max_step_size.turn + parameters.step_size_delta_fast.turn,
            },
        }
    }
}



/// The largest value of the sequence from position `i` on, folded onto
/// the running maximum.
pub open spec fn seq_max_spec(s: Seq<i64>, i: int, acc: int) -> int
    decreases s.len() - i,
{
    if i < 0 || i >= s.len() {
        acc
    } else {
        seq_max_spec(
            s,
            i + 1,
            if s[i] > acc {
                s[i] as int
            } else {
                acc
            },
        )
    }
}

/// The index of the last path segment whose preceding arclength stays
/// under the forward budget, scanned with the running arclength and
/// the best index so far.
pub open spec fn chosen_segment_spec(
    path: Seq<crate::command::PathSegment>,
    budget: int,
    i: int,
    travelled: int,
    chosen: int,
) -> int
    decreases path.len() - i,
{
    if i < 0 || i >= path.len() {
        chosen
    } else {
        let next_chosen = if travelled < budget {
            i
        } else {
            chosen
        };
        chosen_segment_spec(
            path,
            budget,
            i + 1,
            travelled + segment_length_spec(path[i]),
            next_chosen,
        )
    }
}

/// The walk target a chosen segment contributes: a line piece ends at
/// its endpoint, heading along it; an arc is left at its start point
/// one radius along the tangent, heading along that tangent.
pub open spec fn planned_target_spec(segment: crate::command::PathSegment) -> (
    int,
    int,
    crate::geometry::Orientation,
) {
    match segment {
        crate::command::PathSegment::Line(line) => (
            line.1.x as int,
            line.1.y as int,
            heading_spec(line.1.x as int, line.1.y as int),
        ),
        crate::command::PathSegment::Arc(arc) => {
            let sx = arc.circle.center.x + mul_div_tz(
                arc.start.cos_milli as int,
                arc.circle.radius as int,
                SCALE as int,
            );
            let sy = arc.circle.center.y + mul_div_tz(
                arc.start.sin_milli as int,
                arc.circle.radius as int,
                SCALE as int,
            );
            let dx0 = sx - arc.circle.center.x;
            let dy0 = sy - arc.circle.center.y;
            let dx = if arc.clockwise {
                dy0
            } else {
                -dy0
            };
            let dy = if arc.clockwise {
                -dx0
            } else {
                dx0
            };
            (sx + dx, sy + dy, heading_spec(dx, dy))
        },
    }
}

/// The step's turn: the path-aligned heading, or the clamped override
/// heading, rotated into the upcoming-support frame and measured by
/// the fixed-point arctangent.
pub open spec fn planned_turn_spec(
    orientation_mode: crate::command::OrientationMode,
    g: crate::geometry::Orientation,
    heading: crate::geometry::Orientation,
) -> int {
    let hc = match orientation_mode {
        crate::command::OrientationMode::AlignWithPath => heading.cos_milli as int,
        crate::command::OrientationMode::Override(o) => clamped_turn_spec(
            o.cos_milli as int,
            -SCALE as int,
            SCALE as int,
        ),
    };
    let hs = match orientation_mode {
        crate::command::OrientationMode::AlignWithPath => heading.sin_milli as int,
        crate::command::OrientationMode::Override(o) => clamped_turn_spec(
            o.sin_milli as int,
            -SCALE as int,
            SCALE as int,
        ),
    };
    crate::geometry::atan2_spec(
        mul_div_tz(g.sin_milli as int, hc, SCALE as int) + mul_div_tz(
            g.cos_milli as int,
            hs,
            SCALE as int,
        ),
        mul_div_tz(g.cos_milli as int, hc, SCALE as int) - mul_div_tz(
            g.sin_milli as int,
            hs,
            SCALE as int,
        ),
    )
}

/// The step request the planner derives from a walk command: the
/// chosen segment's target carried into the upcoming-support frame,
/// scaled by the request scale, overridden by an injected step, and
/// held inside a thousandfold of the maxima so the volume arithmetic
/// stays in range.
#[verifier::opaque]
pub open spec fn planned_request_spec(
    path: Seq<crate::command::PathSegment>,
    orientation_mode: crate::command::OrientationMode,
    g2us: crate::odometry::Transform2,
    p: StepPlannerParameters,
    max_forward: int,
    max_left: int,
) -> (int, int, int) {
    let chosen = chosen_segment_spec(path, max_forward, 0, 0, 0);
    let target = planned_target_spec(path[chosen]);
    let turn = planned_turn_spec(orientation_mode, g2us.rot, target.2);
    let rf0 = mul_div_tz(
        crate::odometry::apply_x_spec(g2us, target.0, target.1),
        p.request_scale.forward as int,
        SCALE as int,
    );
    let rl0 = mul_div_tz(
        crate::odometry::apply_y_spec(g2us, target.0, target.1),
        p.request_scale.left as int,
        SCALE as int,
    );
    let rt0 = mul_div_tz(turn, p.request_scale.turn as int, SCALE as int);
    let rf1 = match p.injected_step {
        Some(injected) => injected.forward as int,
        None => rf0,
    };
    let rl1 = match p.injected_step {
        Some(injected) => injected.left as int,
        None => rl0,
    };
    let rt1 = match p.injected_step {
        Some(injected) => injected.turn as int,
        None => rt0,
    };
    let rf = if rf1 < -1000 * p.max_step_size_backwards {
        -1000 * (p.max_step_size_backwards as int)
    } else if rf1 > 1000 * max_forward {
        1000 * max_forward
    } else {
        rf1
    };
    let rl = if rl1 < -1000 * max_left {
        -1000 * max_left
    } else if rl1 > 1000 * max_left {
        1000 * max_left
    } else {
        rl1
    };
    (rf, rl, rt1)
}


/// What a successfully planned step means: the planner's state holds
/// the step, its turn is the derived request's turn clamped into the
/// side-dependent bounds, the step lies inside the walk volume, a
/// request already inside passes through unchanged, and otherwise the
/// translation is the request scaled by a common boundary-maximal
/// thousandths factor.
pub open spec fn planned_step_correct(
    step: Step,
    planner_after: StepPlanner,
    planner_before: StepPlanner,
    path: Seq<crate::command::PathSegment>,
    orientation_mode: crate::command::OrientationMode,
    speed: crate::command::WalkSpeed,
    p: StepPlannerParameters,
    g2us: crate::odometry::Transform2,
    support_side: Option<crate::command::Side>,
) -> bool {
    let tb = turn_bounds_spec(p, support_side);
    let mtl = tb.0;
    let mtr = tb.1;
    let ms = max_step_size_spec(
        p.max_step_size,
        p.step_size_delta_slow,
        p.step_size_delta_fast,
        speed,
        planner_after.leg_joints_hot,
        if planner_before.last_planned_step == (Step { forward: 0, left: 0, turn: 0 }) {
            p.initial_side_bonus as int
        } else {
            0
        },
    );
    let maxf = ms.0;
    let maxl = ms.1;
    let request = planned_request_spec(path, orientation_mode, g2us, p, maxf, maxl);
    &&& planner_after.last_planned_step == step
    &&& step.turn == clamped_turn_spec(request.2, mtl, mtr)
    &&& volume_le_one_spec(
        step.forward as int,
        step.left as int,
        step.turn as int,
        maxf,
        maxl,
        p.max_step_size_backwards as int,
        p.translation_exponent as nat,
        p.rotation_exponent as nat,
        mtl,
        mtr,
    )
    &&& (volume_le_one_spec(
        request.0,
        request.1,
        clamped_turn_spec(request.2, mtl, mtr),
        maxf,
        maxl,
        p.max_step_size_backwards as int,
        p.translation_exponent as nat,
        p.rotation_exponent as nat,
        mtl,
        mtr,
    ) ==> (step.forward == request.0 && step.left == request.1))
    &&& scaled_to_boundary(
        step,
        request.0,
        request.1,
        clamped_turn_spec(request.2, mtl, mtr),
        maxf,
        maxl,
        p.max_step_size_backwards as int,
        p.translation_exponent as nat,
        p.rotation_exponent as nat,
        mtl,
        mtr,
    )
}



/// The step's translation is the request scaled by one common
/// thousandths factor, and that factor is boundary-maximal: either it
/// is a full unit, or one thousandth more would leave the walk
/// volume.
pub open spec fn scaled_to_boundary(
    step: Step,
    rf: int,
    rl: int,
    ct: int,
    maxf: int,
    maxl: int,
    backwards: int,
    te: nat,
    re: nat,
    mtl: int,
    mtr: int,
) -> bool {
    exists|s: int|
        s >= 0 && s <= SCALE && step.forward == #[trigger] mul_div_tz(rf, s, SCALE as int)
            && step.left == mul_div_tz(rl, s, SCALE as int) && (s == SCALE || !volume_le_one_spec(
            mul_div_tz(rf, s + 1, SCALE as int),
            mul_div_tz(rl, s + 1, SCALE as int),
            ct,
            maxf,
            maxl,
            backwards,
            te,
            re,
            mtl,
            mtr,
        ))
}

/// Assembles `planned_step_correct` from its pieces, with the scaling
/// witness given explicitly.
#[verifier::rlimit(100)]
proof fn lemma_assemble_planned_step(
    step: Step,
    planner_after: StepPlanner,
    planner_before: StepPlanner,
    path: Seq<crate::command::PathSegment>,
    orientation_mode: crate::command::OrientationMode,
    speed: crate::command::WalkSpeed,
    p: StepPlannerParameters,
    g2us: crate::odometry::Transform2,
    support_side: Option<crate::command::Side>,
    sw: int,
)
    requires
        planner_after.last_planned_step == step,
        ({
            let tb = turn_bounds_spec(p, support_side);
            let mtl = tb.0;
            let mtr = tb.1;
            let ms = max_step_size_spec(
                p.max_step_size,
                p.step_size_delta_slow,
                p.step_size_delta_fast,
                speed,
                planner_after.leg_joints_hot,
                if planner_before.last_planned_step == (Step { forward: 0, left: 0, turn: 0 }) {
                    p.initial_side_bonus as int
                } else {
                    0
                },
            );
            let maxf = ms.0;
            let maxl = ms.1;
            let request = planned_request_spec(path, orientation_mode, g2us, p, maxf, maxl);
            &&& step.turn == clamped_turn_spec(request.2, mtl, mtr)
            &&& volume_le_one_spec(
                step.forward as int,
                step.left as int,
                step.turn as int,
                maxf,
                maxl,
                p.max_step_size_backwards as int,
                p.translation_exponent as nat,
                p.rotation_exponent as nat,
                mtl,
                mtr,
            )
            &&& (volume_le_one_spec(
                request.0,
                request.1,
                clamped_turn_spec(request.2, mtl, mtr),
                maxf,
                maxl,
                p.max_step_size_backwards as int,
                p.translation_exponent as nat,
                p.rotation_exponent as nat,
                mtl,
                mtr,
            ) ==> (step.forward == request.0 && step.left == request.1))
            &&& 0 <= sw <= SCALE
            &&& step.forward == mul_div_tz(request.0, sw, SCALE as int)
            &&& step.left == mul_div_tz(request.1, sw, SCALE as int)
            &&& (sw == SCALE || !volume_le_one_spec(
                mul_div_tz(request.0, sw + 1, SCALE as int),
                mul_div_tz(request.1, sw + 1, SCALE as int),
                clamped_turn_spec(request.2, mtl, mtr),
                maxf,
                maxl,
                p.max_step_size_backwards as int,
                p.translation_exponent as nat,
                p.rotation_exponent as nat,
                mtl,
                mtr,
            ))
        }),
    ensures
        planned_step_correct(
            step,
            planner_after,
            planner_before,
            path,
            orientation_mode,
            speed,
            p,
            g2us,
            support_side,
        ),
{
    let tb = turn_bounds_spec(p, support_side);
    let mtl = tb.0;
    let mtr = tb.1;
    let ms = max_step_size_spec(
        p.max_step_size,
        p.step_size_delta_slow,
        p.step_size_delta_fast,
        speed,
        planner_after.leg_joints_hot,
        if planner_before.last_planned_step == (Step { forward: 0, left: 0, turn: 0 }) {
            p.initial_side_bonus as int
        } else {
            0
        },
    );
    let maxf = ms.0;
    let maxl = ms.1;
    let request = planned_request_spec(path, orientation_mode, g2us, p, maxf, maxl);
    assert(scaled_to_boundary(
        step,
        request.0,
        request.1,
        clamped_turn_spec(request.2, mtl, mtr),
        maxf,
        maxl,
        p.max_step_size_backwards as int,
        p.translation_exponent as nat,
        p.rotation_exponent as nat,
        mtl,
        mtr,
    )) by {
        assert(sw >= 0 && sw <= SCALE && step.forward == mul_div_tz(request.0, sw, SCALE as int)
            && step.left == mul_div_tz(request.1, sw, SCALE as int));
    }
}


/// The turn bounds for a known or unknown support side: the inside
/// turn (toward the support foot) is limited more tightly.
pub open spec fn turn_bounds_spec(p: StepPlannerParameters, support_side: Option<
    crate::command::Side,
>) -> (int, int) {
    match support_side {
        Some(crate::command::Side::Left) => (-p.max_inside_turn as int, p.max_step_size.turn as int),
        Some(crate::command::Side::Right) => (
            -p.max_step_size.turn as int,
            p.max_inside_turn as int,
        ),
        None => (-p.max_step_size.turn as int, p.max_step_size.turn as int),
    }
}

/// The heading of a direction vector: the vector scaled to a
/// thousandths unit by its rounded-down norm, or the neutral heading
/// for the zero vector.
pub open spec fn heading_spec(x: int, y: int) -> crate::geometry::Orientation {
    let norm2 = x * x + y * y;
    if norm2 == 0 {
        crate::geometry::Orientation { cos_milli: SCALE, sin_milli: 0 }
    } else {
        let len = crate::fixed::sqrt_floor(norm2);
        crate::geometry::Orientation {
            cos_milli: mul_div_tz(x, SCALE as int, len) as i64,
            sin_milli: mul_div_tz(y, SCALE as int, len) as i64,
        }
    }
}

/// Normalizes a direction vector into a heading, or returns the
/// neutral heading for the zero vector.
fn heading_from_direction(x: i64, y: i64) -> (r: crate::geometry::Orientation)
    requires
        -100_000_000 <= x <= 100_000_000,
        -100_000_000 <= y <= 100_000_000,
    ensures
        r == heading_spec(x as int, y as int),
        -SCALE <= r.cos_milli <= SCALE,
        -SCALE <= r.sin_milli <= SCALE,
{
    proof {
        assert(x * x >= 0 && x * x <= 10_000_000_000_000_000 && y * y >= 0 && y * y
            <= 10_000_000_000_000_000) by (nonlinear_arith)
            requires
                -100_000_000 <= x <= 100_000_000,
                -100_000_000 <= y <= 100_000_000,
        ;
    }
    let norm2: i128 = (x as i128) * (x as i128) + (y as i128) * (y as i128);
    if norm2 == 0 {
        return crate::geometry::Orientation { cos_milli: SCALE, sin_milli: 0 };
    }
    let len: u64 = crate::fixed::isqrt(norm2 as u128);
    proof {
        assert((x as int) * (x as int) + (y as int) * (y as int) == norm2);
        assert(len >= 1) by (nonlinear_arith)
            requires
                norm2 >= 1,
                (len as int + 1) * (len as int + 1) > norm2,
                len >= 0,
        ;
        assert(len <= 150_000_000) by (nonlinear_arith)
            requires
                (len as int) * (len as int) <= 20_000_000_000_000_000,
                len >= 0,
        ;
        assert((x as int) * (x as int) <= norm2 && (y as int) * (y as int) <= norm2) by (
        nonlinear_arith)
            requires
                norm2 == (x as int) * (x as int) + (y as int) * (y as int),
        ;
        lemma_component_within_norm(x as int, len as int, norm2 as int);
        lemma_component_within_norm(y as int, len as int, norm2 as int);
    }
    let c: i64 = crate::fixed::mul_div(x, SCALE, len as i64);
    let sn: i64 = crate::fixed::mul_div(y, SCALE, len as i64);
    crate::geometry::Orientation { cos_milli: c, sin_milli: sn }
}

/// Each component of a vector is at most the rounded-down norm, so
/// its normalized value stays within one unit.
proof fn lemma_component_within_norm(x: int, len: int, norm2: int)
    requires
        x * x <= norm2,
        norm2 >= 1,
        len >= 1,
        norm2 < ((len + 1) * (len + 1)),
        -100_000_000 <= x <= 100_000_000,
    ensures
        abs_spec(mul_div_tz(x, SCALE as int, len)) <= SCALE,
{
    assert(abs_spec(x) <= len) by (nonlinear_arith)
        requires
            x * x < ((len + 1) * (len + 1)),
            len >= 1,
    ;
    let p = x * (SCALE as int);
    assert(abs_spec(p) <= len * SCALE) by (nonlinear_arith)
        requires
            abs_spec(x) <= len,
            p == x * SCALE,
            SCALE == 1000,
    ;
    if p >= 0 {
        assert(p / len <= SCALE && p / len >= 0) by (nonlinear_arith)
            requires
                0 <= p <= len * SCALE,
                len >= 1,
                SCALE == 1000,
        ;
    } else {
        assert((-p) / len <= SCALE && (-p) / len >= 0) by (nonlinear_arith)
            requires
                p < 0,
                -p <= len * SCALE,
                len >= 1,
                SCALE == 1000,
        ;
    }
}

/// The swept angle of an arc in milliradians, from its start ray to
/// its end ray in the arc's rotational sense, through the crate's
/// fixed-point arctangent.
pub open spec fn arc_sweep_spec(arc: crate::geometry::ArcPath) -> int {
    crate::geometry::sweep_milli_spec(
        crate::geometry::atan2_spec(arc.start.sin_milli as int, arc.start.cos_milli as int),
        crate::geometry::atan2_spec(arc.end.sin_milli as int, arc.end.cos_milli as int),
        arc.clockwise,
    )
}

/// The length of a path segment in millimetres, rounded down: the
/// rounded-down norm of a line piece, or radius times swept angle for
/// an arc.
pub open spec fn segment_length_spec(segment: crate::command::PathSegment) -> int {
    match segment {
        crate::command::PathSegment::Line(line) => crate::fixed::sqrt_floor(
            (line.1.x - line.0.x) * (line.1.x - line.0.x) + (line.1.y - line.0.y) * (line.1.y
                - line.0.y),
        ),
        crate::command::PathSegment::Arc(arc) => (arc.circle.radius * arc_sweep_spec(arc)) / 1000,
    }
}

fn segment_length(segment: &crate::command::PathSegment) -> (r: u64)
    requires
        path_segment_wf(*segment),
    ensures
        r == segment_length_spec(*segment),
        r <= 20_000_000,
{
    match segment {
        crate::command::PathSegment::Line(line) => {
            let len: u64 = line.length();
            proof {
                assert(len <= 20_000_000) by (nonlinear_arith)
                    requires
                        (len as int) * (len as int) <= (line.1.x - line.0.x) * (line.1.x - line.0.x)
                            + ((line.1.y - line.0.y) * (line.1.y - line.0.y)),
                        -1_000_000 <= line.0.x <= 1_000_000,
                        -1_000_000 <= line.0.y <= 1_000_000,
                        -1_000_000 <= line.1.x <= 1_000_000,
                        -1_000_000 <= line.1.y <= 1_000_000,
                        len >= 0,
                ;
            }
            len
        },
        crate::command::PathSegment::Arc(arc) => {
            let start_angle: i64 = crate::geometry::atan2_milli(
                arc.start.sin_milli,
                arc.start.cos_milli,
            );
            let end_angle: i64 = crate::geometry::atan2_milli(
                arc.end.sin_milli,
                arc.end.cos_milli,
            );
            let ccw_sweep: i64 = if end_angle >= start_angle {
                end_angle - start_angle
            } else {
                end_angle - start_angle + 6284
            };
            let sweep: i64 = if arc.clockwise {
                6284 - ccw_sweep
            } else {
                ccw_sweep
            };
            proof {
                crate::fixed::lemma_mul_div_fraction(arc.circle.radius as int, 0, 1);
                assert(0 <= arc.circle.radius * sweep <= 10_000_000_000) by (nonlinear_arith)
                    requires
                        0 <= arc.circle.radius <= 1_000_000,
                        0 <= sweep <= 6_284,
                ;
                assert(0 <= (arc.circle.radius * sweep) / 1000 <= 10_000_000) by (nonlinear_arith)
                    requires
                        0 <= arc.circle.radius * sweep <= 10_000_000_000,
                ;
            }
            ((arc.circle.radius as i128) * (sweep as i128) / 1000) as u64
        },
    }
}

/// A path segment the planner's fixed-point arithmetic accepts: all
/// coordinates within a kilometre and arc headings within one unit.
pub open spec fn path_segment_wf(segment: crate::command::PathSegment) -> bool {
    match segment {
        crate::command::PathSegment::Line(line) => {
            &&& -1_000_000 <= line.0.x <= 1_000_000
            &&& -1_000_000 <= line.0.y <= 1_000_000
            &&& -1_000_000 <= line.1.x <= 1_000_000
            &&& -1_000_000 <= line.1.y <= 1_000_000
        },
        crate::command::PathSegment::Arc(arc) => {
            &&& -1_000_000 <= arc.circle.center.x <= 1_000_000
            &&& -1_000_000 <= arc.circle.center.y <= 1_000_000
            &&& 0 <= arc.circle.radius <= 1_000_000
            &&& -SCALE <= arc.start.cos_milli <= SCALE
            &&& -SCALE <= arc.start.sin_milli <= SCALE
            &&& -SCALE <= arc.end.cos_milli <= SCALE
            &&& -SCALE <= arc.end.sin_milli <= SCALE
        },
    }
}

impl StepPlanner {
    /// One planner cycle: walks the planned path up to one maximum
    /// step of arclength, turns the endpoint of the last segment still
    /// within that budget into a step request in the upcoming-support
    /// frame, and clamps the request into the walk volume.  A command
    /// that is not a walk plans the zero step and leaves the planner
    /// untouched; a walk along an empty path is an error.
    #[verifier::rlimit(100)]
    pub fn cycle(
        &mut self,
        motion_command: &MotionCommand,
        parameters: &StepPlannerParameters,
        ground_to_upcoming_support: &crate::odometry::Transform2,
        support_side: Option<crate::command::Side>,
        leg_temperatures_milli: &Vec<i64>,
    ) -> (r: Result<Step, StepPlannerError>)
        requires
            planner_parameters_wf(*parameters),
            crate::odometry::transform_wf(*ground_to_upcoming_support),
            -1_000_000_000 <= ground_to_upcoming_support.translation.x <= 1_000_000_000,
            leg_temperatures_milli@.len() >= 1,
            forall|i: int|
                0 <= i < leg_temperatures_milli@.len() ==> -1_000_000_000 <= #[trigger] leg_temperatures_milli@[i] <= 1_000_000_000,
            -1_000_000_000 <= old(self).last_planned_step.forward <= 1_000_000_000,
            -1_000_000_000 <= old(self).last_planned_step.left <= 1_000_000_000,
            -1_000_000_000 <= old(self).last_planned_step.turn <= 1_000_000_000,
            (match motion_command {
                MotionCommand::Walk { path, .. } => path@.len() <= 10_000 && forall|i: int|
                    0 <= i < path@.len() ==> path_segment_wf(#[trigger] path@[i]),
                _ => true,
            }),
        ensures
            motion_command !is Walk ==> (r == Ok::<Step, StepPlannerError>(
                Step { forward: 0, left: 0, turn: 0 },
            ) && *final(self) == *old(self)),
            motion_command is Walk ==> final(self).leg_joints_hot == hysteresis_spec(
                old(self).leg_joints_hot,
                seq_max_spec(leg_temperatures_milli@, 1, leg_temperatures_milli@[0] as int),
                LEG_HOT_EXIT_MILLI_DEGREES as int,
                LEG_HOT_ENTER_MILLI_DEGREES as int,
            ),
            (motion_command matches MotionCommand::Walk { path, .. } && path@.len() == 0) ==> (r
                == Err::<Step, StepPlannerError>(StepPlannerError::EmptyPath) && final(self).last_planned_step == old(self).last_planned_step),
            (motion_command matches MotionCommand::Walk { path, .. } && path@.len() > 0) ==> r
                is Ok,
            motion_command matches MotionCommand::Walk { path, orientation_mode, speed, .. } ==> (
            r matches Ok(step) ==> planned_step_correct(
                step,
                *final(self),
                *old(self),
                path@,
                *orientation_mode,
                *speed,
                *parameters,
                *ground_to_upcoming_support,
                support_side,
            )),
    {
        let (path, orientation_mode, speed): (
            &Vec<crate::command::PathSegment>,
            crate::command::OrientationMode,
            crate::command::WalkSpeed,
        ) = match motion_command {
            MotionCommand::Walk { path, orientation_mode, speed, .. } => (
                path,
                *orientation_mode,
                *speed,
            ),
            _ => {
                return Ok(Step { forward: 0, left: 0, turn: 0 });
            },
        };
        self.plan_walk(
            path,
            orientation_mode,
            speed,
            parameters,
            ground_to_upcoming_support,
            support_side,
            leg_temperatures_milli,
        )
    }

    /// Derives the raw step request from a walk command: the chosen
    /// segment's target in the upcoming-support frame, scaled,
    /// overridden and held inside a thousandfold of the maxima.
    #[verifier::rlimit(100)]
    fn derive_request(
        path: &Vec<crate::command::PathSegment>,
        orientation_mode: crate::command::OrientationMode,
        parameters: &StepPlannerParameters,
        ground_to_upcoming_support: &crate::odometry::Transform2,
        max_step_size: Step,
    ) -> (r: Step)
        requires
            planner_parameters_wf(*parameters),
            crate::odometry::transform_wf(*ground_to_upcoming_support),
            -1_000_000_000 <= ground_to_upcoming_support.translation.x <= 1_000_000_000,
            1 <= path@.len() <= 10_000,
            forall|i: int| 0 <= i < path@.len() ==> path_segment_wf(#[trigger] path@[i]),
            1 <= max_step_size.forward <= 1_000_000,
            1 <= max_step_size.left <= 1_000_000,
        ensures
            ({
                let derived = planned_request_spec(
                    path@,
                    orientation_mode,
                    *ground_to_upcoming_support,
                    *parameters,
                    max_step_size.forward as int,
                    max_step_size.left as int,
                );
                r.forward as int == derived.0 && r.left as int == derived.1 && r.turn as int
                    == derived.2
            }),
            ratio_spec(
                r.forward as int,
                if r.forward >= 0 {
                    max_step_size.forward as int
                } else {
                    parameters.max_step_size_backwards as int
                },
            ) <= 1_000_000,
            ratio_spec(r.left as int, max_step_size.left as int) <= 1_000_000,
            -1_000_000_000_000 <= r.forward <= 1_000_000_000_000,
            -1_000_000_000_000 <= r.left <= 1_000_000_000_000,
    {
        // walk along the path for at most one maximum step of
        // arclength; the chosen segment is the last one starting
        // inside that budget
        let mut chosen: usize = 0;
        let mut travelled: u64 = 0;
        let mut si: usize = 0;
        while si < path.len()
            invariant
                si <= path@.len(),
                path@.len() >= 1,
                path@.len() <= 10_000,
                chosen < path@.len(),
                travelled <= 20_000_000 * si,
                forall|i: int| 0 <= i < path@.len() ==> path_segment_wf(#[trigger] path@[i]),
                chosen_segment_spec(
                    path@,
                    max_step_size.forward as int,
                    si as int,
                    travelled as int,
                    chosen as int,
                ) == chosen_segment_spec(path@, max_step_size.forward as int, 0, 0, 0),
            decreases path@.len() - si,
        {
            if (travelled as i128) < (max_step_size.forward as i128) {
                chosen = si;
            }
            let seg_len: u64 = segment_length(&path[si]);
            proof {
                assert(travelled + seg_len <= 20_000_000 * ((si + 1) as int) && 20_000_000 * ((si
                    + 1) as int) <= 200_000_000_000) by (nonlinear_arith)
                    requires
                        travelled <= 20_000_000 * (si as int),
                        seg_len <= 20_000_000,
                        si + 1 <= 10_000,
                ;
            }
            travelled = travelled + seg_len;
            si = si + 1;
        }
        proof {
            assert(chosen as int == chosen_segment_spec(
                path@,
                max_step_size.forward as int,
                0,
                0,
                0,
            ));
        }
        let segment: &crate::command::PathSegment = &path[chosen];
        let (target_x, target_y, heading): (i64, i64, crate::geometry::Orientation) =
            match segment {
            crate::command::PathSegment::Line(line) => {
                (line.1.x, line.1.y, heading_from_direction(line.1.x, line.1.y))
            },
            crate::command::PathSegment::Arc(arc) => {
                proof {
                    crate::odometry::lemma_rot_term_bound(
                        arc.start.cos_milli as int,
                        arc.circle.radius as int,
                    );
                    crate::odometry::lemma_rot_term_bound(
                        arc.start.sin_milli as int,
                        arc.circle.radius as int,
                    );
                }
                let sx: i64 = arc.circle.center.x + crate::fixed::mul_div(
                    arc.start.cos_milli,
                    arc.circle.radius,
                    SCALE,
                );
                let sy: i64 = arc.circle.center.y + crate::fixed::mul_div(
                    arc.start.sin_milli,
                    arc.circle.radius,
                    SCALE,
                );
                let dx0: i64 = sx - arc.circle.center.x;
                let dy0: i64 = sy - arc.circle.center.y;
                let (dx, dy): (i64, i64) = if arc.clockwise {
                    (dy0, -dx0)
                } else {
                    (-dy0, dx0)
                };
                (sx + dx, sy + dy, heading_from_direction(dx, dy))
            },
        };
        proof {
            let t = planned_target_spec(path@[chosen as int]);
            assert(target_x as int == t.0 && target_y as int == t.1 && heading == t.2);
        }
        let target = crate::geometry::Point2 { x: target_x, y: target_y };
        proof {
            crate::odometry::lemma_apply_in_range(
                *ground_to_upcoming_support,
                target.x as int,
                target.y as int,
            );
        }
        let position: crate::geometry::Point2 = ground_to_upcoming_support.apply(target);
        let g = ground_to_upcoming_support.rot;
        let turn_raw: i64 = match orientation_mode {
            crate::command::OrientationMode::AlignWithPath => {
                proof {
                    crate::odometry::lemma_rot_term_bound(g.cos_milli as int, heading.cos_milli as int);
                    crate::odometry::lemma_rot_term_bound(g.sin_milli as int, heading.sin_milli as int);
                    crate::odometry::lemma_rot_term_bound(g.sin_milli as int, heading.cos_milli as int);
                    crate::odometry::lemma_rot_term_bound(g.cos_milli as int, heading.sin_milli as int);
                }
                let c: i64 = crate::fixed::mul_div(g.cos_milli, heading.cos_milli, SCALE)
                    - crate::fixed::mul_div(g.sin_milli, heading.sin_milli, SCALE);
                let sn: i64 = crate::fixed::mul_div(g.sin_milli, heading.cos_milli, SCALE)
                    + crate::fixed::mul_div(g.cos_milli, heading.sin_milli, SCALE);
                crate::geometry::atan2_milli(sn, c)
            },
            crate::command::OrientationMode::Override(orientation) => {
                let oc: i64 = crate::fixed::clamp_i64(orientation.cos_milli, -SCALE, SCALE);
                let os: i64 = crate::fixed::clamp_i64(orientation.sin_milli, -SCALE, SCALE);
                proof {
                    crate::odometry::lemma_rot_term_bound(g.cos_milli as int, oc as int);
                    crate::odometry::lemma_rot_term_bound(g.sin_milli as int, os as int);
                    crate::odometry::lemma_rot_term_bound(g.sin_milli as int, oc as int);
                    crate::odometry::lemma_rot_term_bound(g.cos_milli as int, os as int);
                }
                let c: i64 = crate::fixed::mul_div(g.cos_milli, oc, SCALE) - crate::fixed::mul_div(
                    g.sin_milli,
                    os,
                    SCALE,
                );
                let sn: i64 = crate::fixed::mul_div(g.sin_milli, oc, SCALE)
                    + crate::fixed::mul_div(g.cos_milli, os, SCALE);
                crate::geometry::atan2_milli(sn, c)
            },
        };
        proof {
            crate::fixed::lemma_mul_div_fraction(
                position.x as int,
                parameters.request_scale.forward as int,
                SCALE as int,
            );
            crate::fixed::lemma_mul_div_fraction(
                position.y as int,
                parameters.request_scale.left as int,
                SCALE as int,
            );
            crate::fixed::lemma_mul_div_fraction(
                turn_raw as int,
                parameters.request_scale.turn as int,
                SCALE as int,
            );
        }
        let mut request = Step {
            forward: crate::fixed::mul_div(position.x, parameters.request_scale.forward, SCALE),
            left: crate::fixed::mul_div(position.y, parameters.request_scale.left, SCALE),
            turn: crate::fixed::mul_div(turn_raw, parameters.request_scale.turn, SCALE),
        };
        if let Some(injected_step) = parameters.injected_step {
            request = injected_step;
        }
        // hold the request inside the range the volume arithmetic
        // accepts: a thousandfold of each maximum
        proof {
            lemma_clamped_request_ratio(
                request.forward as int,
                max_step_size.forward as int,
                parameters.max_step_size_backwards as int,
            );
            lemma_clamped_request_ratio(
                request.left as int,
                max_step_size.left as int,
                max_step_size.left as int,
            );
        }
        let request = Step {
            forward: crate::fixed::clamp_i64(
                request.forward,
                -1000 * parameters.max_step_size_backwards,
                1000 * max_step_size.forward,
            ),
            left: crate::fixed::clamp_i64(
                request.left,
                -1000 * max_step_size.left,
                1000 * max_step_size.left,
            ),
            turn: request.turn,
        };
        let ghost derived: (int, int, int) = planned_request_spec(
            path@,
            orientation_mode,
            *ground_to_upcoming_support,
            *parameters,
            max_step_size.forward as int,
            max_step_size.left as int,
        );
        proof {
            assert(request.forward as int == derived.0 && request.left as int == derived.1
                && request.turn as int == derived.2) by {
                reveal(planned_request_spec);
                assert(turn_raw as int == planned_turn_spec(
                    orientation_mode,
                    g,
                    planned_target_spec(path@[chosen as int]).2,
                ));
            };
        }
        request
    }

    /// Plans one step along a walk command's path: the temperature
    /// hysteresis and speed pick the maximum step, the path is walked
    /// for at most that much arclength, and the chosen segment's
    /// target becomes the clamped step request.
    #[verifier::rlimit(100)]
    fn plan_walk(
        &mut self,
        path: &Vec<crate::command::PathSegment>,
        orientation_mode: crate::command::OrientationMode,
        speed: crate::command::WalkSpeed,
        parameters: &StepPlannerParameters,
        ground_to_upcoming_support: &crate::odometry::Transform2,
        support_side: Option<crate::command::Side>,
        leg_temperatures_milli: &Vec<i64>,
    ) -> (r: Result<Step, StepPlannerError>)
        requires
            planner_parameters_wf(*parameters),
            crate::odometry::transform_wf(*ground_to_upcoming_support),
            -1_000_000_000 <= ground_to_upcoming_support.translation.x <= 1_000_000_000,
            leg_temperatures_milli@.len() >= 1,
            forall|i: int|
                0 <= i < leg_temperatures_milli@.len() ==> -1_000_000_000
                    <= #[trigger] leg_temperatures_milli@[i] <= 1_000_000_000,
            -1_000_000_000 <= old(self).last_planned_step.forward <= 1_000_000_000,
            -1_000_000_000 <= old(self).last_planned_step.left <= 1_000_000_000,
            -1_000_000_000 <= old(self).last_planned_step.turn <= 1_000_000_000,
            path@.len() <= 10_000,
            forall|i: int| 0 <= i < path@.len() ==> path_segment_wf(#[trigger] path@[i]),
        ensures
            final(self).leg_joints_hot == hysteresis_spec(
                old(self).leg_joints_hot,
                seq_max_spec(leg_temperatures_milli@, 1, leg_temperatures_milli@[0] as int),
                LEG_HOT_EXIT_MILLI_DEGREES as int,
                LEG_HOT_ENTER_MILLI_DEGREES as int,
            ),
            path@.len() == 0 ==> (r == Err::<Step, StepPlannerError>(StepPlannerError::EmptyPath)
                && final(self).last_planned_step == old(self).last_planned_step),
            path@.len() > 0 ==> r is Ok,
            r matches Ok(step) ==> planned_step_correct(
                step,
                *final(self),
                *old(self),
                path@,
                orientation_mode,
                speed,
                *parameters,
                *ground_to_upcoming_support,
                support_side,
            ),
    {
        let (max_turn_left, max_turn_right): (i64, i64) = match support_side {
            Some(crate::command::Side::Left) => (
                -parameters.max_inside_turn,
                parameters.max_step_size.turn,
            ),
            Some(crate::command::Side::Right) => (
                -parameters.max_step_size.turn,
                parameters.max_inside_turn,
            ),
            None => (-parameters.max_step_size.turn, parameters.max_step_size.turn),
        };
        let zero_step = Step { forward: 0, left: 0, turn: 0 };
        let initial_side_bonus: i64 = if self.last_planned_step == zero_step {
            parameters.initial_side_bonus
        } else {
            0
        };
        let mut highest_temperature: i64 = leg_temperatures_milli[0];
        let mut ti: usize = 1;
        while ti < leg_temperatures_milli.len()
            invariant
                1 <= ti <= leg_temperatures_milli@.len(),
                -1_000_000_000 <= highest_temperature <= 1_000_000_000,
                forall|i: int|
                    0 <= i < leg_temperatures_milli@.len() ==> -1_000_000_000
                        <= #[trigger] leg_temperatures_milli@[i] <= 1_000_000_000,
                seq_max_spec(leg_temperatures_milli@, ti as int, highest_temperature as int)
                    == seq_max_spec(
                    leg_temperatures_milli@,
                    1,
                    leg_temperatures_milli@[0] as int,
                ),
            decreases leg_temperatures_milli@.len() - ti,
        {
            let t: i64 = leg_temperatures_milli[ti];
            if t > highest_temperature {
                highest_temperature = t;
            }
            ti = ti + 1;
        }
        let max_step_size: Step = self.calculate_max_step_size(
            parameters,
            speed,
            initial_side_bonus,
            highest_temperature,
        );
        if path.len() == 0 {
            return Err(StepPlannerError::EmptyPath);
        }
        let request: Step = Self::derive_request(
            path,
            orientation_mode,
            parameters,
            ground_to_upcoming_support,
            max_step_size,
        );
        let ghost derived: (int, int, int) = planned_request_spec(
            path@,
            orientation_mode,
            *ground_to_upcoming_support,
            *parameters,
            max_step_size.forward as int,
            max_step_size.left as int,
        );
        let step: Step = clamp_step_to_walk_volume(
            request,
            &max_step_size,
            parameters.max_step_size_backwards,
            parameters.translation_exponent,
            parameters.rotation_exponent,
            max_turn_left,
            max_turn_right,
        );
        self.last_planned_step = step;
        proof {
            let tb = turn_bounds_spec(*parameters, support_side);
            let mtl = tb.0;
            let mtr = tb.1;
            assert(max_turn_left as int == mtl && max_turn_right as int == mtr);
            let ms = max_step_size_spec(
                parameters.max_step_size,
                parameters.step_size_delta_slow,
                parameters.step_size_delta_fast,
                speed,
                self.leg_joints_hot,
                if old(self).last_planned_step == (Step { forward: 0, left: 0, turn: 0 }) {
                    parameters.initial_side_bonus as int
                } else {
                    0
                },
            );
            let maxf = ms.0;
            let maxl = ms.1;
            let maxt = ms.2;
            assert(max_step_size.forward as int == maxf && max_step_size.left as int == maxl
                && max_step_size.turn as int == maxt);
            let sw = choose|sx: int|
                0 <= sx <= SCALE && step.forward == #[trigger] mul_div_tz(
                    request.forward as int,
                    sx,
                    SCALE as int,
                ) && step.left == mul_div_tz(request.left as int, sx, SCALE as int) && (sx == SCALE
                    || !volume_le_one_spec(
                    mul_div_tz(request.forward as int, sx + 1, SCALE as int),
                    mul_div_tz(request.left as int, sx + 1, SCALE as int),
                    clamped_turn_spec(
                        request.turn as int,
                        max_turn_left as int,
                        max_turn_right as int,
                    ),
                    max_step_size.forward as int,
                    max_step_size.left as int,
                    parameters.max_step_size_backwards as int,
                    parameters.translation_exponent as nat,
                    parameters.rotation_exponent as nat,
                    max_turn_left as int,
                    max_turn_right as int,
                ));
            assert(0 <= sw <= SCALE && step.forward == mul_div_tz(derived.0, sw, SCALE as int)
                && step.left == mul_div_tz(derived.1, sw, SCALE as int));
            assert(sw == SCALE || !volume_le_one_spec(
                mul_div_tz(derived.0, sw + 1, SCALE as int),
                mul_div_tz(derived.1, sw + 1, SCALE as int),
                clamped_turn_spec(derived.2, mtl, mtr),
                maxf,
                maxl,
                parameters.max_step_size_backwards as int,
                parameters.translation_exponent as nat,
                parameters.rotation_exponent as nat,
                mtl,
                mtr,
            ));
            assert(self.last_planned_step == step);
            assert(step.turn == clamped_turn_spec(derived.2, mtl, mtr));
            assert(volume_le_one_spec(
                step.forward as int,
                step.left as int,
                step.turn as int,
                maxf,
                maxl,
                parameters.max_step_size_backwards as int,
                parameters.translation_exponent as nat,
                parameters.rotation_exponent as nat,
                mtl,
                mtr,
            ));
            assert(volume_le_one_spec(
                derived.0,
                derived.1,
                clamped_turn_spec(derived.2, mtl, mtr),
                maxf,
                maxl,
                parameters.max_step_size_backwards as int,
                parameters.translation_exponent as nat,
                parameters.rotation_exponent as nat,
                mtl,
                mtr,
            ) ==> (step.forward == derived.0 && step.left == derived.1));
            lemma_assemble_planned_step(
                step,
                *self,
                *old(self),
                path@,
                orientation_mode,
                speed,
                *parameters,
                *ground_to_upcoming_support,
                support_side,
                sw,
            );
        }
        Ok(step)
    }
}

/// A request clamped into a thousandfold of its maximum satisfies the
/// ratio cap of the walk-volume arithmetic.
proof fn lemma_clamped_request_ratio(v: int, max_pos: int, max_neg: int)
    requires
        1 <= max_pos <= 1_000_000,
        1 <= max_neg <= 1_000_000,
    ensures
        ({
            let c = if v < -1000 * max_neg {
                -1000 * max_neg
            } else if v > 1000 * max_pos {
                1000 * max_pos
            } else {
                v
            };
            ratio_spec(
                c,
                if c >= 0 {
                    max_pos
                } else {
                    max_neg
                },
            ) <= 1_000_000 && -1_000_000_000_000 <= c <= 1_000_000_000_000
        }),
{
    let c = if v < -1000 * max_neg {
        -1000 * max_neg
    } else if v > 1000 * max_pos {
        1000 * max_pos
    } else {
        v
    };
    let m = if c >= 0 {
        max_pos
    } else {
        max_neg
    };
    assert(abs_spec(c) <= 1000 * m) by (nonlinear_arith)
        requires
            1 <= max_pos,
            1 <= max_neg,
            c == (if v < -1000 * max_neg {
                -1000 * max_neg
            } else if v > 1000 * max_pos {
                1000 * max_pos
            } else {
                v
            }),
            m == (if c >= 0 {
                max_pos
            } else {
                max_neg
            }),
    ;
    assert(abs_spec(c) * SCALE <= 1_000_000 * m) by (nonlinear_arith)
        requires
            abs_spec(c) <= 1000 * m,
            SCALE == 1000,
            m >= 1,
    ;
    assert((abs_spec(c) * SCALE) / m <= 1_000_000) by (nonlinear_arith)
        requires
            abs_spec(c) * SCALE <= 1_000_000 * m,
            m >= 1,
            abs_spec(c) * SCALE >= 0,
    ;
}

} // verus!


