//! Fixed-point arithmetic helpers.
//!
//! Every physical quantity in this crate is an integer number of
//! thousandths: metres are stored as millimetres, radians as
//! milliradians, seconds as milliseconds and unitless ratios as
//! thousandths.  The helpers here give the exact rounding behaviour a
//! contract can speak about: multiplication widens to 128 bits, division
//! truncates toward zero.

use vstd::prelude::*;

verus! {

/// One unit in fixed-point representation.
pub const SCALE: i64 = 1000;

/// Magnitude of an integer, as a mathematical integer.
pub open spec fn abs_spec(a: int) -> int {
    if a >= 0 {
        a
    } else {
        -a
    }
}

/// `a * b / d` with the division truncating toward zero, as Rust's `/` does.
pub open spec fn mul_div_tz(a: int, b: int, d: int) -> int {
    let p = a * b;
    if p >= 0 {
        p / d
    } else {
        -((-p) / d)
    }
}

/// `a / d` truncating toward zero.
pub open spec fn div_tz(a: int, d: int) -> int {
    if a >= 0 {
        a / d
    } else {
        -((-a) / d)
    }
}

proof fn lemma_abs_mul(a: int, b: int)
    ensures
        abs_spec(a * b) == abs_spec(a) * abs_spec(b),
{
    assert(abs_spec(a * b) == abs_spec(a) * abs_spec(b)) by (nonlinear_arith);
}

/// Magnitude of a 64-bit integer; exact even for the minimum value.
pub fn abs_i64(a: i64) -> (r: u64)
    ensures
        r == abs_spec(a as int),
{
    let wide: i128 = a as i128;
    if wide >= 0 {
        wide as u64
    } else {
        (-wide) as u64
    }
}

/// Division of magnitudes, used to implement truncating signed division.
fn div_mag(n: u128, d: u128) -> (r: u128)
    requires
        d > 0,
    ensures
        r == n as int / d as int,
{
    n / d
}

/// `a * b / d`, truncating toward zero, computed without overflow.
pub fn mul_div(a: i64, b: i64, d: i64) -> (r: i64)
    requires
        d > 0,
        abs_spec(mul_div_tz(a as int, b as int, d as int)) <= i64::MAX as int,
    ensures
        r == mul_div_tz(a as int, b as int, d as int),
{
    let negative: bool = (a < 0) != (b < 0);
    let ma: u64 = abs_i64(a);
    let mb: u64 = abs_i64(b);
    proof {
        assert((ma as int) * (mb as int) <= u128::MAX) by (nonlinear_arith)
            requires
                0 <= ma < 0x1_0000_0000_0000_0000,
                0 <= mb < 0x1_0000_0000_0000_0000,
        ;
    }
    let prod: u128 = (ma as u128) * (mb as u128);
    proof {
        lemma_abs_mul(a as int, b as int);
    }
    let q: u128 = div_mag(prod, d as u128);
    proof {
        let p = (a as int) * (b as int);
        if p >= 0 {
            assert(p / (d as int) >= 0) by (nonlinear_arith)
                requires
                    p >= 0,
                    d > 0,
            ;
            assert(q == abs_spec(mul_div_tz(a as int, b as int, d as int)));
        } else {
            assert((-p) / (d as int) >= 0) by (nonlinear_arith)
                requires
                    p < 0,
                    d > 0,
            ;
            assert(q == abs_spec(mul_div_tz(a as int, b as int, d as int)));
        }
    }
    proof {
        let p = (a as int) * (b as int);
        assert(((a as int) < 0 && (b as int) >= 0 || (a as int) >= 0 && (b as int) < 0) ==> (
        a as int) * (b as int) <= 0) by (nonlinear_arith);
        assert(((a as int) < 0 && (b as int) < 0 || (a as int) >= 0 && (b as int) >= 0) ==> (
        a as int) * (b as int) >= 0) by (nonlinear_arith);
        if p == 0 {
            assert(0int / (d as int) == 0) by (nonlinear_arith)
                requires
                    d > 0,
            ;
        }
    }
    if negative {
        -(q as i128) as i64
    } else {
        q as i64
    }
}

/// `a / d`, truncating toward zero.
pub fn div_trunc(a: i64, d: i64) -> (r: i64)
    requires
        d > 0,
    ensures
        r == div_tz(a as int, d as int),
{
    let ma: u64 = abs_i64(a);
    let q: u128 = div_mag(ma as u128, d as u128);
    proof {
        assert(q <= ma) by (nonlinear_arith)
            requires
                d >= 1,
                q == ma as int / d as int,
                ma >= 0,
        ;
    }
    if a < 0 {
        -(q as i128) as i64
    } else {
        q as i64
    }
}


/// Scaling by a fraction `t / d` with `0 <= t <= d` keeps a value
/// between zero and itself.
pub proof fn lemma_mul_div_fraction(v: int, t: int, d: int)
    requires
        d >= 1,
        0 <= t <= d,
    ensures
        v >= 0 ==> 0 <= mul_div_tz(v, t, d) <= v,
        v < 0 ==> v <= mul_div_tz(v, t, d) <= 0,
{
    let p = v * t;
    assert(abs_spec(p) <= abs_spec(v) * d) by (nonlinear_arith)
        requires
            0 <= t <= d,
            p == v * t,
    ;
    if p >= 0 {
        assert(0 <= p / d <= abs_spec(v)) by (nonlinear_arith)
            requires
                0 <= p <= abs_spec(v) * d,
                d >= 1,
        ;
        if v < 0 {
            assert(v * t == 0) by (nonlinear_arith)
                requires
                    v < 0,
                    t >= 0,
                    v * t >= 0,
            ;
            assert(0int / d == 0) by (nonlinear_arith)
                requires
                    d >= 1,
            ;
        }
    } else {
        assert(0 <= (-p) / d <= abs_spec(v)) by (nonlinear_arith)
            requires
                p < 0,
                -p <= abs_spec(v) * d,
                d >= 1,
        ;
        assert(v < 0) by (nonlinear_arith)
            requires
                v * t < 0,
                t >= 0,
        ;
    }
}


/// Truncating division of wide intermediates, used by the Kalman
/// arithmetic.
pub fn div_i128(n: i128, d: i128) -> (r: i128)
    requires
        d >= 1,
        n > i128::MIN,
    ensures
        r == div_tz(n as int, d as int),
        abs_spec(r as int) <= abs_spec(n as int),
{
    proof {
        lemma_div_tz_shrinks(n as int, d as int);
    }
    let neg: bool = n < 0;
    let mag: u128 = if neg {
        (-(n as i128)) as u128
    } else {
        n as u128
    };
    let q: u128 = mag / (d as u128);
    proof {
        assert(q <= mag) by (nonlinear_arith)
            requires
                d >= 1,
                q == mag as int / d as int,
                mag >= 0,
        ;
    }
    if neg {
        -(q as i128)
    } else {
        q as i128
    }
}

/// The magnitude of a product is the product of the magnitudes, so a
/// bound on each factor bounds the product.
pub proof fn lemma_mul_bound(x: int, y: int, bx: int, by: int)
    requires
        abs_spec(x) <= bx,
        abs_spec(y) <= by,
    ensures
        abs_spec(x * y) <= bx * by,
{
    assert(abs_spec(x * y) <= bx * by) by (nonlinear_arith)
        requires
            abs_spec(x) <= bx,
            abs_spec(y) <= by,
    ;
}

/// Dividing by a positive number never grows a magnitude.
pub proof fn lemma_div_tz_shrinks(n: int, d: int)
    requires
        d >= 1,
    ensures
        abs_spec(div_tz(n, d)) <= abs_spec(n),
{
    if n >= 0 {
        assert(0 <= n / d <= n) by (nonlinear_arith)
            requires
                n >= 0,
                d >= 1,
        ;
    } else {
        assert(0 <= (-n) / d <= -n) by (nonlinear_arith)
            requires
                -n >= 0,
                d >= 1,
        ;
    }
}


/// An exact multiple divides back to the value it came from.
pub proof fn lemma_exact_cancel(v: int, d: int)
    requires
        d >= 1,
    ensures
        div_tz(d * v, d) == v,
{
    if v >= 0 {
        assert((d * v) / d == v) by (nonlinear_arith)
            requires
                d >= 1,
                v >= 0,
        ;
        assert(d * v >= 0) by (nonlinear_arith)
            requires
                d >= 1,
                v >= 0,
        ;
    } else {
        assert((d * (-v)) / d == -v) by (nonlinear_arith)
            requires
                d >= 1,
                -v >= 0,
        ;
        assert(d * v == -(d * (-v))) by (nonlinear_arith);
        assert(d * v < 0) by (nonlinear_arith)
            requires
                d >= 1,
                v < 0,
        ;
    }
}

/// Zero divides to zero.
pub proof fn lemma_zero_div(d: int)
    requires
        d >= 1,
    ensures
        div_tz(0, d) == 0,
{
    assert(0int / d == 0) by (nonlinear_arith)
        requires
            d >= 1,
    ;
}

/// Clamps `a` into `[lo, hi]`.
pub fn clamp_i64(a: i64, lo: i64, hi: i64) -> (r: i64)
    requires
        lo <= hi,
    ensures
        r == if a < lo {
            lo
        } else if a > hi {
            hi
        } else {
            a
        },
        lo <= r <= hi,
{
    if a < lo {
        lo
    } else if a > hi {
        hi
    } else {
        a
    }
}

/// The rounded-down square root, as a specification value: the unique
/// nonnegative integer whose square is at most `n` while the next
/// square is beyond it.
pub open spec fn sqrt_floor(n: int) -> int {
    choose|r: int| r >= 0 && #[trigger] (r * r) <= n && n < ((r + 1) * (r + 1))
}

/// A value sandwiched between consecutive squares is the rounded-down
/// square root.
pub proof fn lemma_sqrt_floor_unique(n: int, r: int)
    requires
        r >= 0,
        r * r <= n,
        n < ((r + 1) * (r + 1)),
    ensures
        r == sqrt_floor(n),
{
    assert(exists|x: int| x >= 0 && #[trigger] (x * x) <= n && n < ((x + 1) * (x + 1))) by {
        assert(r >= 0 && (r * r) <= n && n < ((r + 1) * (r + 1)));
    }
    let c = sqrt_floor(n);
    assert(c >= 0 && c * c <= n && n < ((c + 1) * (c + 1)));
    assert(c == r) by (nonlinear_arith)
        requires
            r >= 0,
            r * r <= n,
            n < ((r + 1) * (r + 1)),
            c >= 0,
            c * c <= n,
            n < ((c + 1) * (c + 1)),
    ;
}

/// Floor square root of a 128-bit number, by bisection.
pub fn isqrt(n: u128) -> (r: u64)
    ensures
        r as int * r as int <= n as int,
        (n as int) < ((r as int + 1) * (r as int + 1)),
        r == sqrt_floor(n as int),
{
    let mut low: u128 = 0;
    let mut high: u128 = 0x1_0000_0000_0000_0000;
    // invariant: low*low <= n < high*high, low < high
    while high - low > 1
        invariant
            low < high,
            high <= 0x1_0000_0000_0000_0000,
            low as int * low as int <= n as int,
            (n as int) < ((high as int) * (high as int)),
        decreases high - low,
    {
        let mid: u128 = low + (high - low) / 2;
        proof {
            assert((mid as int) * (mid as int) <= u128::MAX) by (nonlinear_arith)
                requires
                    0 <= mid < 0x1_0000_0000_0000_0000u128,
            ;
        }
        if mid * mid <= n {
            low = mid;
        } else {
            high = mid;
        }
    }
    proof {
        lemma_sqrt_floor_unique(n as int, low as int);
    }
    low as u64
}

/// Elapsed milliseconds between two wall-clock stamps; a clock that runs
/// backwards yields zero, as the cycle tolerates transient sensor faults.
pub fn saturating_elapsed(now_ms: u64, earlier_ms: u64) -> (r: u64)
    ensures
        r == if now_ms >= earlier_ms {
            now_ms - earlier_ms
        } else {
            0
        },
{
    if now_ms >= earlier_ms {
        now_ms - earlier_ms
    } else {
        0
    }
}

} // verus!
