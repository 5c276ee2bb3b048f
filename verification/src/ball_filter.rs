//! The ball hypothesis filter: a bank of Kalman hypotheses over the
//! ball's position and velocity in the ground frame.
//!
//! State is a four-dimensional Gaussian (position x, position y,
//! velocity x, velocity y) in millimetres and millimetres per second.
//! The covariance is stored as its ten distinct entries, so it is
//! symmetric by construction, and well-formedness is the exact
//! positive-semidefiniteness test by principal minors.  Any operation
//! whose result fails that test reseeds the hypothesis, so the filter
//! never carries a degenerate covariance.

use vstd::prelude::*;
use crate::fixed::{abs_spec, div_tz, mul_div_tz, SCALE};
use crate::geometry::{Point2, Vector2};
use crate::odometry::{apply_x_spec, apply_y_spec, transform_wf, Transform2};

verus! {

/// Covariance entries stay within this magnitude (a square metre, in
/// square millimetres), so every principal minor fits in 128 bits.
pub const COV_LIMIT: i64 = 1_000_000;

/// Mean entries stay within the coordinate range of the crate.
pub const MEAN_LIMIT: i64 = 1_000_000_000;

/// The selected ball estimate a cycle publishes: position and velocity
/// in the ground frame and the stamp of the supporting measurement.
#[derive(Clone, Copy, Debug, PartialEq, Eq, Structural)]
pub struct BallPosition {
    pub position: Point2,
    pub velocity: Vector2,
    pub last_seen_ms: u64,
}

/// A symmetric 4x4 covariance over (position x, position y,
/// velocity x, velocity y), stored as its ten distinct entries:
/// `a` is the position block, `c` the velocity block and `b` the
/// position-velocity cross block.
#[derive(Clone, Copy, Debug, PartialEq, Eq, Structural)]
pub struct CovarianceMatrix {
    pub a00: i64,
    pub a01: i64,
    pub a11: i64,
    pub b00: i64,
    pub b01: i64,
    pub b10: i64,
    pub b11: i64,
    pub c00: i64,
    pub c01: i64,
    pub c11: i64,
}

/// A four-dimensional Gaussian: the mean and the covariance.
#[derive(Clone, Copy, Debug, PartialEq, Eq, Structural)]
pub struct MultivariateNormalDistribution {
    pub mean_px: i64,
    pub mean_py: i64,
    pub mean_vx: i64,
    pub mean_vy: i64,
    pub covariance: CovarianceMatrix,
}

/// A two-dimensional Gaussian measurement of the ball's position.
#[derive(Clone, Copy, Debug, PartialEq, Eq, Structural)]
pub struct Measurement2 {
    pub mean_x: i64,
    pub mean_y: i64,
    pub r00: i64,
    pub r01: i64,
    pub r11: i64,
}

/// Determinant of a 2x2 matrix.
pub open spec fn det2_spec(m00: int, m01: int, m10: int, m11: int) -> int {
    m00 * m11 - m01 * m10
}

/// Determinant of a 3x3 matrix, by the rule of Sarrus.
pub open spec fn det3_spec(
    m00: int,
    m01: int,
    m02: int,
    m10: int,
    m11: int,
    m12: int,
    m20: int,
    m21: int,
    m22: int,
) -> int {
    m00 * (m11 * m22 - m12 * m21) - m01 * (m10 * m22 - m12 * m20) + m02 * (m10 * m21 - m11 * m20)
}

/// The full 4x4 entry grid of a stored covariance.
pub open spec fn cov_entry(m: CovarianceMatrix, i: int, j: int) -> int {
    if i == 0 && j == 0 {
        m.a00 as int
    } else if i == 0 && j == 1 {
        m.a01 as int
    } else if i == 0 && j == 2 {
        m.b00 as int
    } else if i == 0 && j == 3 {
        m.b01 as int
    } else if i == 1 && j == 0 {
        m.a01 as int
    } else if i == 1 && j == 1 {
        m.a11 as int
    } else if i == 1 && j == 2 {
        m.b10 as int
    } else if i == 1 && j == 3 {
        m.b11 as int
    } else if i == 2 && j == 0 {
        m.b00 as int
    } else if i == 2 && j == 1 {
        m.b10 as int
    } else if i == 2 && j == 2 {
        m.c00 as int
    } else if i == 2 && j == 3 {
        m.c01 as int
    } else if i == 3 && j == 0 {
        m.b01 as int
    } else if i == 3 && j == 1 {
        m.b11 as int
    } else if i == 3 && j == 2 {
        m.c01 as int
    } else {
        m.c11 as int
    }
}

/// Determinant of the principal 3x3 submatrix on rows and columns
/// `i < j < k`.
pub open spec fn principal_minor3_spec(m: CovarianceMatrix, i: int, j: int, k: int) -> int {
    det3_spec(
        cov_entry(m, i, i),
        cov_entry(m, i, j),
        cov_entry(m, i, k),
        cov_entry(m, j, i),
        cov_entry(m, j, j),
        cov_entry(m, j, k),
        cov_entry(m, k, i),
        cov_entry(m, k, j),
        cov_entry(m, k, k),
    )
}

/// Determinant of the principal 2x2 submatrix on rows and columns
/// `i < j`.
pub open spec fn principal_minor2_spec(m: CovarianceMatrix, i: int, j: int) -> int {
    det2_spec(cov_entry(m, i, i), cov_entry(m, i, j), cov_entry(m, j, i), cov_entry(m, j, j))
}

/// Determinant of the full 4x4 covariance, by expansion along the
/// first row.
pub open spec fn det4_spec(m: CovarianceMatrix) -> int {
    cov_entry(m, 0, 0) * det3_spec(
        cov_entry(m, 1, 1),
        cov_entry(m, 1, 2),
        cov_entry(m, 1, 3),
        cov_entry(m, 2, 1),
        cov_entry(m, 2, 2),
        cov_entry(m, 2, 3),
        cov_entry(m, 3, 1),
        cov_entry(m, 3, 2),
        cov_entry(m, 3, 3),
    ) - cov_entry(m, 0, 1) * det3_spec(
        cov_entry(m, 1, 0),
        cov_entry(m, 1, 2),
        cov_entry(m, 1, 3),
        cov_entry(m, 2, 0),
        cov_entry(m, 2, 2),
        cov_entry(m, 2, 3),
        cov_entry(m, 3, 0),
        cov_entry(m, 3, 2),
        cov_entry(m, 3, 3),
    ) + cov_entry(m, 0, 2) * det3_spec(
        cov_entry(m, 1, 0),
        cov_entry(m, 1, 1),
        cov_entry(m, 1, 3),
        cov_entry(m, 2, 0),
        cov_entry(m, 2, 1),
        cov_entry(m, 2, 3),
        cov_entry(m, 3, 0),
        cov_entry(m, 3, 1),
        cov_entry(m, 3, 3),
    ) - cov_entry(m, 0, 3) * det3_spec(
        cov_entry(m, 1, 0),
        cov_entry(m, 1, 1),
        cov_entry(m, 1, 2),
        cov_entry(m, 2, 0),
        cov_entry(m, 2, 1),
        cov_entry(m, 2, 2),
        cov_entry(m, 3, 0),
        cov_entry(m, 3, 1),
        cov_entry(m, 3, 2),
    )
}

/// All entries within the covariance magnitude bound.
pub open spec fn cov_in_range(m: CovarianceMatrix) -> bool {
    &&& -COV_LIMIT <= m.a00 <= COV_LIMIT
    &&& -COV_LIMIT <= m.a01 <= COV_LIMIT
    &&& -COV_LIMIT <= m.a11 <= COV_LIMIT
    &&& -COV_LIMIT <= m.b00 <= COV_LIMIT
    &&& -COV_LIMIT <= m.b01 <= COV_LIMIT
    &&& -COV_LIMIT <= m.b10 <= COV_LIMIT
    &&& -COV_LIMIT <= m.b11 <= COV_LIMIT
    &&& -COV_LIMIT <= m.c00 <= COV_LIMIT
    &&& -COV_LIMIT <= m.c01 <= COV_LIMIT
    &&& -COV_LIMIT <= m.c11 <= COV_LIMIT
}

/// Exact positive semidefiniteness of the stored (symmetric)
/// covariance: every principal minor is nonnegative, which for a
/// symmetric matrix is the minor characterisation of being positive
/// semidefinite.  Range membership is part of well-formedness so all
/// downstream arithmetic stays exact.
pub open spec fn cov_psd(m: CovarianceMatrix) -> bool {
    &&& cov_in_range(m)
    &&& cov_entry(m, 0, 0) >= 0
    &&& cov_entry(m, 1, 1) >= 0
    &&& cov_entry(m, 2, 2) >= 0
    &&& cov_entry(m, 3, 3) >= 0
    &&& principal_minor2_spec(m, 0, 1) >= 0
    &&& principal_minor2_spec(m, 0, 2) >= 0
    &&& principal_minor2_spec(m, 0, 3) >= 0
    &&& principal_minor2_spec(m, 1, 2) >= 0
    &&& principal_minor2_spec(m, 1, 3) >= 0
    &&& principal_minor2_spec(m, 2, 3) >= 0
    &&& principal_minor3_spec(m, 0, 1, 2) >= 0
    &&& principal_minor3_spec(m, 0, 1, 3) >= 0
    &&& principal_minor3_spec(m, 0, 2, 3) >= 0
    &&& principal_minor3_spec(m, 1, 2, 3) >= 0
    &&& det4_spec(m) >= 0
}

/// The Gaussian's mean lies within the coordinate range.
pub open spec fn mean_in_range(d: MultivariateNormalDistribution) -> bool {
    &&& -MEAN_LIMIT <= d.mean_px <= MEAN_LIMIT
    &&& -MEAN_LIMIT <= d.mean_py <= MEAN_LIMIT
    &&& -MEAN_LIMIT <= d.mean_vx <= MEAN_LIMIT
    &&& -MEAN_LIMIT <= d.mean_vy <= MEAN_LIMIT
}

/// A well-formed state estimate: mean in range and covariance
/// positive semidefinite.
pub open spec fn distribution_wf(d: MultivariateNormalDistribution) -> bool {
    mean_in_range(d) && cov_psd(d.covariance)
}


/// Products of two in-range covariance entries stay within a trillion.
proof fn lemma_small_products(x: int, y: int, z: int)
    requires
        -1_000_000 <= x <= 1_000_000,
        -1_000_000 <= y <= 1_000_000,
        -1_000_000 <= z <= 1_000_000,
    ensures
        -1_000_000_000_000 <= x * y <= 1_000_000_000_000,
        -1_000_000_000_000 <= z * z <= 1_000_000_000_000,
{
    assert(-1_000_000_000_000 <= x * y <= 1_000_000_000_000) by (nonlinear_arith)
        requires
            -1_000_000 <= x <= 1_000_000,
            -1_000_000 <= y <= 1_000_000,
    ;
    assert(-1_000_000_000_000 <= z * z <= 1_000_000_000_000) by (nonlinear_arith)
        requires
            -1_000_000 <= z <= 1_000_000,
    ;
}

/// Exact 3x3 determinant over machine integers of bounded magnitude.
fn det3(m00: i64, m01: i64, m02: i64, m10: i64, m11: i64, m12: i64, m20: i64, m21: i64, m22: i64)
    -> (r: i128)
    requires
        abs_spec(m00 as int) <= 2_000_000,
        abs_spec(m01 as int) <= 2_000_000,
        abs_spec(m02 as int) <= 2_000_000,
        abs_spec(m10 as int) <= 2_000_000,
        abs_spec(m11 as int) <= 2_000_000,
        abs_spec(m12 as int) <= 2_000_000,
        abs_spec(m20 as int) <= 2_000_000,
        abs_spec(m21 as int) <= 2_000_000,
        abs_spec(m22 as int) <= 2_000_000,
    ensures
        r == det3_spec(
            m00 as int,
            m01 as int,
            m02 as int,
            m10 as int,
            m11 as int,
            m12 as int,
            m20 as int,
            m21 as int,
            m22 as int,
        ),
        abs_spec(r as int) <= 200_000_000_000_000_000_000,
{
    proof {
        lemma_det3_bound(
            m00 as int,
            m01 as int,
            m02 as int,
            m10 as int,
            m11 as int,
            m12 as int,
            m20 as int,
            m21 as int,
            m22 as int,
        );
    }
    (m00 as i128) * ((m11 as i128) * (m22 as i128) - (m12 as i128) * (m21 as i128)) - (
    m01 as i128) * ((m10 as i128) * (m22 as i128) - (m12 as i128) * (m20 as i128)) + (m02 as i128)
        * ((m10 as i128) * (m21 as i128) - (m11 as i128) * (m20 as i128))
}

/// Triple products of bounded entries keep the 3x3 determinant far
/// inside the 128-bit range.
proof fn lemma_det3_bound(
    m00: int,
    m01: int,
    m02: int,
    m10: int,
    m11: int,
    m12: int,
    m20: int,
    m21: int,
    m22: int,
)
    requires
        abs_spec(m00) <= 2_000_000,
        abs_spec(m01) <= 2_000_000,
        abs_spec(m02) <= 2_000_000,
        abs_spec(m10) <= 2_000_000,
        abs_spec(m11) <= 2_000_000,
        abs_spec(m12) <= 2_000_000,
        abs_spec(m20) <= 2_000_000,
        abs_spec(m21) <= 2_000_000,
        abs_spec(m22) <= 2_000_000,
    ensures
        abs_spec(m11 * m22) <= 8_000_000_000_000,
        abs_spec(m12 * m21) <= 8_000_000_000_000,
        abs_spec(m10 * m22) <= 8_000_000_000_000,
        abs_spec(m12 * m20) <= 8_000_000_000_000,
        abs_spec(m10 * m21) <= 8_000_000_000_000,
        abs_spec(m11 * m20) <= 8_000_000_000_000,
        abs_spec(m00 * (m11 * m22 - m12 * m21)) <= 64_000_000_000_000_000_000,
        abs_spec(m01 * (m10 * m22 - m12 * m20)) <= 64_000_000_000_000_000_000,
        abs_spec(m02 * (m10 * m21 - m11 * m20)) <= 64_000_000_000_000_000_000,
        abs_spec(
            det3_spec(m00, m01, m02, m10, m11, m12, m20, m21, m22),
        ) <= 200_000_000_000_000_000_000,
{
    assert(abs_spec(m11 * m22) <= 8_000_000_000_000 && abs_spec(m12 * m21) <= 8_000_000_000_000
        && abs_spec(m10 * m22) <= 8_000_000_000_000 && abs_spec(m12 * m20) <= 8_000_000_000_000
        && abs_spec(m10 * m21) <= 8_000_000_000_000 && abs_spec(m11 * m20) <= 8_000_000_000_000)
        by (nonlinear_arith)
        requires
            abs_spec(m10) <= 2_000_000,
            abs_spec(m11) <= 2_000_000,
            abs_spec(m12) <= 2_000_000,
            abs_spec(m20) <= 2_000_000,
            abs_spec(m21) <= 2_000_000,
            abs_spec(m22) <= 2_000_000,
    ;
    assert(abs_spec(m00 * (m11 * m22 - m12 * m21)) <= 64_000_000_000_000_000_000 && abs_spec(
        m01 * (m10 * m22 - m12 * m20),
    ) <= 64_000_000_000_000_000_000 && abs_spec(m02 * (m10 * m21 - m11 * m20))
        <= 64_000_000_000_000_000_000) by (nonlinear_arith)
        requires
            abs_spec(m00) <= 2_000_000,
            abs_spec(m01) <= 2_000_000,
            abs_spec(m02) <= 2_000_000,
            abs_spec(m11 * m22) <= 8_000_000_000_000,
            abs_spec(m12 * m21) <= 8_000_000_000_000,
            abs_spec(m10 * m22) <= 8_000_000_000_000,
            abs_spec(m12 * m20) <= 8_000_000_000_000,
            abs_spec(m10 * m21) <= 8_000_000_000_000,
            abs_spec(m11 * m20) <= 8_000_000_000_000,
    ;
}

/// Decides exact positive semidefiniteness of a stored covariance.
pub fn check_covariance(m: &CovarianceMatrix) -> (r: bool)
    ensures
        r == cov_psd(*m),
{
    let in_range: bool = -COV_LIMIT <= m.a00 && m.a00 <= COV_LIMIT && -COV_LIMIT <= m.a01 && m.a01
        <= COV_LIMIT && -COV_LIMIT <= m.a11 && m.a11 <= COV_LIMIT && -COV_LIMIT <= m.b00 && m.b00
        <= COV_LIMIT && -COV_LIMIT <= m.b01 && m.b01 <= COV_LIMIT && -COV_LIMIT <= m.b10 && m.b10
        <= COV_LIMIT && -COV_LIMIT <= m.b11 && m.b11 <= COV_LIMIT && -COV_LIMIT <= m.c00 && m.c00
        <= COV_LIMIT && -COV_LIMIT <= m.c01 && m.c01 <= COV_LIMIT && -COV_LIMIT <= m.c11 && m.c11
        <= COV_LIMIT;
    if !in_range {
        return false;
    }
    if m.a00 < 0 || m.a11 < 0 || m.c00 < 0 || m.c11 < 0 {
        return false;
    }
    proof {
        lemma_small_products(m.a00 as int, m.a11 as int, m.a01 as int);
        lemma_small_products(m.a00 as int, m.c00 as int, m.b00 as int);
        lemma_small_products(m.a00 as int, m.c11 as int, m.b01 as int);
        lemma_small_products(m.a11 as int, m.c00 as int, m.b10 as int);
        lemma_small_products(m.a11 as int, m.c11 as int, m.b11 as int);
        lemma_small_products(m.c00 as int, m.c11 as int, m.c01 as int);
    }
    let d01: i128 = (m.a00 as i128) * (m.a11 as i128) - (m.a01 as i128) * (m.a01 as i128);
    let d02: i128 = (m.a00 as i128) * (m.c00 as i128) - (m.b00 as i128) * (m.b00 as i128);
    let d03: i128 = (m.a00 as i128) * (m.c11 as i128) - (m.b01 as i128) * (m.b01 as i128);
    let d12: i128 = (m.a11 as i128) * (m.c00 as i128) - (m.b10 as i128) * (m.b10 as i128);
    let d13: i128 = (m.a11 as i128) * (m.c11 as i128) - (m.b11 as i128) * (m.b11 as i128);
    let d23: i128 = (m.c00 as i128) * (m.c11 as i128) - (m.c01 as i128) * (m.c01 as i128);
    if d01 < 0 || d02 < 0 || d03 < 0 || d12 < 0 || d13 < 0 || d23 < 0 {
        return false;
    }
    let t012: i128 = det3(m.a00, m.a01, m.b00, m.a01, m.a11, m.b10, m.b00, m.b10, m.c00);
    let t013: i128 = det3(m.a00, m.a01, m.b01, m.a01, m.a11, m.b11, m.b01, m.b11, m.c11);
    let t023: i128 = det3(m.a00, m.b00, m.b01, m.b00, m.c00, m.c01, m.b01, m.c01, m.c11);
    let t123: i128 = det3(m.a11, m.b10, m.b11, m.b10, m.c00, m.c01, m.b11, m.c01, m.c11);
    if t012 < 0 || t013 < 0 || t023 < 0 || t123 < 0 {
        return false;
    }
    let s0: i128 = det3(m.a11, m.b10, m.b11, m.b10, m.c00, m.c01, m.b11, m.c01, m.c11);
    let s1: i128 = det3(m.a01, m.b10, m.b11, m.b00, m.c00, m.c01, m.b01, m.c01, m.c11);
    let s2: i128 = det3(m.a01, m.a11, m.b11, m.b00, m.b10, m.c01, m.b01, m.b11, m.c11);
    let s3: i128 = det3(m.a01, m.a11, m.b10, m.b00, m.b10, m.c00, m.b01, m.b11, m.c01);
    proof {
        lemma_det4_assembly(*m);
    }
    let det4: i128 = (m.a00 as i128) * s0 - (m.a01 as i128) * s1 + (m.b00 as i128) * s2 - (
    m.b01 as i128) * s3;
    det4 >= 0
}

/// The first-row expansion in `check_covariance` multiplies entries by
/// 3x3 determinants without overflowing, and assembles exactly the
/// 4x4 determinant.
proof fn lemma_det4_assembly(m: CovarianceMatrix)
    requires
        cov_in_range(m),
    ensures
        ({
            let s0 = det3_spec(
                m.a11 as int,
                m.b10 as int,
                m.b11 as int,
                m.b10 as int,
                m.c00 as int,
                m.c01 as int,
                m.b11 as int,
                m.c01 as int,
                m.c11 as int,
            );
            let s1 = det3_spec(
                m.a01 as int,
                m.b10 as int,
                m.b11 as int,
                m.b00 as int,
                m.c00 as int,
                m.c01 as int,
                m.b01 as int,
                m.c01 as int,
                m.c11 as int,
            );
            let s2 = det3_spec(
                m.a01 as int,
                m.a11 as int,
                m.b11 as int,
                m.b00 as int,
                m.b10 as int,
                m.c01 as int,
                m.b01 as int,
                m.b11 as int,
                m.c11 as int,
            );
            let s3 = det3_spec(
                m.a01 as int,
                m.a11 as int,
                m.b10 as int,
                m.b00 as int,
                m.b10 as int,
                m.c00 as int,
                m.b01 as int,
                m.b11 as int,
                m.c01 as int,
            );
            det4_spec(m) == m.a00 * s0 - m.a01 * s1 + m.b00 * s2 - m.b01 * s3 && abs_spec(
                m.a00 * s0,
            ) <= 200_000_000_000_000_000_000_000_000 && abs_spec(m.a01 * s1)
                <= 200_000_000_000_000_000_000_000_000 && abs_spec(m.b00 * s2)
                <= 200_000_000_000_000_000_000_000_000 && abs_spec(m.b01 * s3)
                <= 200_000_000_000_000_000_000_000_000
        }),
{
    let s0 = det3_spec(
        m.a11 as int,
        m.b10 as int,
        m.b11 as int,
        m.b10 as int,
        m.c00 as int,
        m.c01 as int,
        m.b11 as int,
        m.c01 as int,
        m.c11 as int,
    );
    let s1 = det3_spec(
        m.a01 as int,
        m.b10 as int,
        m.b11 as int,
        m.b00 as int,
        m.c00 as int,
        m.c01 as int,
        m.b01 as int,
        m.c01 as int,
        m.c11 as int,
    );
    let s2 = det3_spec(
        m.a01 as int,
        m.a11 as int,
        m.b11 as int,
        m.b00 as int,
        m.b10 as int,
        m.c01 as int,
        m.b01 as int,
        m.b11 as int,
        m.c11 as int,
    );
    let s3 = det3_spec(
        m.a01 as int,
        m.a11 as int,
        m.b10 as int,
        m.b00 as int,
        m.b10 as int,
        m.c00 as int,
        m.b01 as int,
        m.b11 as int,
        m.c01 as int,
    );
    lemma_det3_bound(
        m.a11 as int,
        m.b10 as int,
        m.b11 as int,
        m.b10 as int,
        m.c00 as int,
        m.c01 as int,
        m.b11 as int,
        m.c01 as int,
        m.c11 as int,
    );
    lemma_det3_bound(
        m.a01 as int,
        m.b10 as int,
        m.b11 as int,
        m.b00 as int,
        m.c00 as int,
        m.c01 as int,
        m.b01 as int,
        m.c01 as int,
        m.c11 as int,
    );
    lemma_det3_bound(
        m.a01 as int,
        m.a11 as int,
        m.b11 as int,
        m.b00 as int,
        m.b10 as int,
        m.c01 as int,
        m.b01 as int,
        m.b11 as int,
        m.c11 as int,
    );
    lemma_det3_bound(
        m.a01 as int,
        m.a11 as int,
        m.b10 as int,
        m.b00 as int,
        m.b10 as int,
        m.c00 as int,
        m.b01 as int,
        m.b11 as int,
        m.c01 as int,
    );
    assert(abs_spec(m.a00 * s0) <= 200_000_000_000_000_000_000_000_000 && abs_spec(m.a01 * s1)
        <= 200_000_000_000_000_000_000_000_000 && abs_spec(m.b00 * s2)
        <= 200_000_000_000_000_000_000_000_000 && abs_spec(m.b01 * s3)
        <= 200_000_000_000_000_000_000_000_000) by (nonlinear_arith)
        requires
            abs_spec(m.a00 as int) <= 1_000_000,
            abs_spec(m.a01 as int) <= 1_000_000,
            abs_spec(m.b00 as int) <= 1_000_000,
            abs_spec(m.b01 as int) <= 1_000_000,
            abs_spec(s0) <= 200_000_000_000_000_000_000,
            abs_spec(s1) <= 200_000_000_000_000_000_000,
            abs_spec(s2) <= 200_000_000_000_000_000_000,
            abs_spec(s3) <= 200_000_000_000_000_000_000,
    ;
}


/// The diagonal value a reseeded covariance starts from.
pub const RESEED_VARIANCE: i64 = 1_000_000;

/// The Gaussian a degenerate hypothesis is reset to: the given
/// position, zero velocity and a diagonal covariance.
pub open spec fn reseed_spec(px: int, py: int) -> MultivariateNormalDistribution {
    MultivariateNormalDistribution {
        mean_px: (if px > MEAN_LIMIT {
            MEAN_LIMIT as int
        } else if px < -MEAN_LIMIT {
            -(MEAN_LIMIT as int)
        } else {
            px
        }) as i64,
        mean_py: (if py > MEAN_LIMIT {
            MEAN_LIMIT as int
        } else if py < -MEAN_LIMIT {
            -(MEAN_LIMIT as int)
        } else {
            py
        }) as i64,
        mean_vx: 0,
        mean_vy: 0,
        covariance: CovarianceMatrix {
            a00: RESEED_VARIANCE,
            a01: 0,
            a11: RESEED_VARIANCE,
            b00: 0,
            b01: 0,
            b10: 0,
            b11: 0,
            c00: RESEED_VARIANCE,
            c01: 0,
            c11: RESEED_VARIANCE,
        },
    }
}

/// The reseed state is itself well formed.
pub proof fn lemma_reseed_wf(px: int, py: int)
    ensures
        distribution_wf(reseed_spec(px, py)),
{
    let d = reseed_spec(px, py);
    let m = d.covariance;
    assert(principal_minor2_spec(m, 0, 1) >= 0);
    assert(principal_minor2_spec(m, 0, 2) >= 0);
    assert(principal_minor2_spec(m, 0, 3) >= 0);
    assert(principal_minor2_spec(m, 1, 2) >= 0);
    assert(principal_minor2_spec(m, 1, 3) >= 0);
    assert(principal_minor2_spec(m, 2, 3) >= 0);
    assert(principal_minor3_spec(m, 0, 1, 2) >= 0);
    assert(principal_minor3_spec(m, 0, 1, 3) >= 0);
    assert(principal_minor3_spec(m, 0, 2, 3) >= 0);
    assert(principal_minor3_spec(m, 1, 2, 3) >= 0);
    assert(det4_spec(m) >= 0);
}

/// Reseeds from a position given as wide intermediates.
fn reseed_from(px: i128, py: i128) -> (r: MultivariateNormalDistribution)
    ensures
        r == reseed_spec(px as int, py as int),
        distribution_wf(r),
{
    proof {
        lemma_reseed_wf(px as int, py as int);
    }
    let cx: i128 = if px > MEAN_LIMIT as i128 {
        MEAN_LIMIT as i128
    } else if px < -(MEAN_LIMIT as i128) {
        -(MEAN_LIMIT as i128)
    } else {
        px
    };
    let cy: i128 = if py > MEAN_LIMIT as i128 {
        MEAN_LIMIT as i128
    } else if py < -(MEAN_LIMIT as i128) {
        -(MEAN_LIMIT as i128)
    } else {
        py
    };
    MultivariateNormalDistribution {
        mean_px: cx as i64,
        mean_py: cy as i64,
        mean_vx: 0,
        mean_vy: 0,
        covariance: CovarianceMatrix {
            a00: RESEED_VARIANCE,
            a01: 0,
            a11: RESEED_VARIANCE,
            b00: 0,
            b01: 0,
            b10: 0,
            b11: 0,
            c00: RESEED_VARIANCE,
            c01: 0,
            c11: RESEED_VARIANCE,
        },
    }
}

/// The ball's modelled motion regime; the tag is kept so a resting
/// regime can be added without breaking the filter's interface.
#[derive(Clone, Copy, Debug, PartialEq, Eq, Structural)]
pub enum BallMode {
    Moving(MultivariateNormalDistribution),
}

/// One tracked ball hypothesis: a state estimate, the stamp of the
/// last supporting measurement, and a validity score in thousandths.
#[derive(Clone, Copy, Debug, PartialEq, Eq, Structural)]
pub struct BallHypothesis {
    pub mode: BallMode,
    pub last_seen_ms: u64,
    pub validity: i64,
}

/// The machine bound on validity scores: the largest value whose
/// decay multiplication by a thousandths factor still fits in 64
/// bits.  Callers keep validities under it by the update
/// precondition; it is far beyond any reachable score.
pub const VALIDITY_LIMIT: i64 = 9_000_000_000_000_000;

/// A well-formed hypothesis: its Gaussian is well formed and its
/// validity is a nonnegative bounded score.
pub open spec fn hypothesis_wf(h: BallHypothesis) -> bool {
    &&& (match h.mode {
        BallMode::Moving(d) => distribution_wf(d),
    })
    &&& 0 <= h.validity <= VALIDITY_LIMIT
}

/// The Gaussian carried by a hypothesis.
pub open spec fn hypothesis_distribution(h: BallHypothesis) -> MultivariateNormalDistribution {
    match h.mode {
        BallMode::Moving(d) => d,
    }
}

/// The chi-square gate at two degrees of freedom and 99% confidence,
/// in thousandths.
pub const GATE_THRESHOLD_MILLI: i64 = 9_210;

/// Whether a position measurement gates into a state: the innovation's
/// squared Mahalanobis distance is at most the chi-square bound.  The
/// test is made exactly, multiplied through by the determinant of the
/// innovation covariance; a singular innovation covariance never
/// gates.
pub open spec fn gates_spec(d: MultivariateNormalDistribution, z: Measurement2) -> bool {
    let y0 = z.mean_x - d.mean_px;
    let y1 = z.mean_y - d.mean_py;
    let s00 = d.covariance.a00 + z.r00;
    let s01 = d.covariance.a01 + z.r01;
    let s11 = d.covariance.a11 + z.r11;
    let det = s00 * s11 - s01 * s01;
    let q = y0 * y0 * s11 - 2 * (y0 * y1 * s01) + y1 * y1 * s00;
    det > 0 && q * SCALE <= GATE_THRESHOLD_MILLI * det
}

/// Measurement noise entries stay within this magnitude.
pub const NOISE_LIMIT: i64 = 1_000_000_000_000;

/// A usable measurement: mean within the coordinate range, noise
/// entries bounded.
pub open spec fn measurement_wf(z: Measurement2) -> bool {
    &&& -MEAN_LIMIT <= z.mean_x <= MEAN_LIMIT
    &&& -MEAN_LIMIT <= z.mean_y <= MEAN_LIMIT
    &&& 0 <= z.r00 <= NOISE_LIMIT
    &&& -NOISE_LIMIT <= z.r01 <= NOISE_LIMIT
    &&& 0 <= z.r11 <= NOISE_LIMIT
}

/// Decides `gates_spec` exactly.
pub fn measurement_gates(d: &MultivariateNormalDistribution, z: &Measurement2) -> (r: bool)
    requires
        distribution_wf(*d),
        measurement_wf(*z),
    ensures
        r == gates_spec(*d, *z),
{
    let y0: i128 = (z.mean_x as i128) - (d.mean_px as i128);
    let y1: i128 = (z.mean_y as i128) - (d.mean_py as i128);
    let s00: i128 = (d.covariance.a00 as i128) + (z.r00 as i128);
    let s01: i128 = (d.covariance.a01 as i128) + (z.r01 as i128);
    let s11: i128 = (d.covariance.a11 as i128) + (z.r11 as i128);
    proof {
        crate::fixed::lemma_mul_bound(
            s00 as int,
            s11 as int,
            1_000_001_000_000,
            1_000_001_000_000,
        );
        crate::fixed::lemma_mul_bound(
            s01 as int,
            s01 as int,
            1_000_001_000_000,
            1_000_001_000_000,
        );
        crate::fixed::lemma_mul_bound(y0 as int, y0 as int, 2_000_000_001, 2_000_000_001);
        crate::fixed::lemma_mul_bound(y0 as int, y1 as int, 2_000_000_001, 2_000_000_001);
        crate::fixed::lemma_mul_bound(y1 as int, y1 as int, 2_000_000_001, 2_000_000_001);
        crate::fixed::lemma_mul_bound(
            (y0 * y0) as int,
            s11 as int,
            4_000_000_004_000_000_001,
            1_000_001_000_000,
        );
        crate::fixed::lemma_mul_bound(
            (y0 * y1) as int,
            s01 as int,
            4_000_000_004_000_000_001,
            1_000_001_000_000,
        );
        crate::fixed::lemma_mul_bound(
            (y1 * y1) as int,
            s00 as int,
            4_000_000_004_000_000_001,
            1_000_001_000_000,
        );
        crate::fixed::lemma_mul_bound(
            (s00 * s11 - s01 * s01) as int,
            GATE_THRESHOLD_MILLI as int,
            2_000_002_000_001_000_002_000_000_000_000,
            10_000,
        );
        crate::fixed::lemma_mul_bound(
            (y0 * y0 * s11 - 2 * (y0 * y1 * s01) + y1 * y1 * s00) as int,
            SCALE as int,
            17_000_000_000_000_000_000_000_000_000_000,
            1_000,
        );
        crate::fixed::lemma_mul_bound(
            GATE_THRESHOLD_MILLI as int,
            (s00 * s11 - s01 * s01) as int,
            10_000,
            2_000_002_000_001_000_002_000_000_000_000,
        );
    }
    let det: i128 = s00 * s11 - s01 * s01;
    let q: i128 = y0 * y0 * s11 - 2 * (y0 * y1 * s01) + y1 * y1 * s00;
    det > 0 && q * (SCALE as i128) <= (GATE_THRESHOLD_MILLI as i128) * det
}

impl BallHypothesis {
    /// A hypothesis freshly spawned from a state estimate; it starts
    /// at full validity.
    pub fn new(hypothesis: MultivariateNormalDistribution, last_seen_ms: u64) -> (r:
        BallHypothesis)
        requires
            distribution_wf(hypothesis),
        ensures
            r.mode == BallMode::Moving(hypothesis),
            r.last_seen_ms == last_seen_ms,
            r.validity == SCALE,
            hypothesis_wf(r),
    {
        BallHypothesis { mode: BallMode::Moving(hypothesis), last_seen_ms, validity: SCALE }
    }

    /// The published estimate: position, velocity and the last
    /// supporting stamp.
    pub fn position(&self) -> (r: BallPosition)
        ensures
            ({
                let d = hypothesis_distribution(*self);
                r.position.x == d.mean_px && r.position.y == d.mean_py && r.velocity.x == d.mean_vx
                    && r.velocity.y == d.mean_vy && r.last_seen_ms == self.last_seen_ms
            }),
    {
        match self.mode {
            BallMode::Moving(d) => BallPosition {
                position: Point2 { x: d.mean_px, y: d.mean_py },
                velocity: Vector2 { x: d.mean_vx, y: d.mean_vy },
                last_seen_ms: self.last_seen_ms,
            },
        }
    }

    /// The position block of the covariance.
    pub fn position_covariance(&self) -> (r: (i64, i64, i64))
        ensures
            ({
                let d = hypothesis_distribution(*self);
                r.0 == d.covariance.a00 && r.1 == d.covariance.a01 && r.2 == d.covariance.a11
            }),
    {
        match self.mode {
            BallMode::Moving(d) => (d.covariance.a00, d.covariance.a01, d.covariance.a11),
        }
    }
}


/// Wide multiplication with built-in range bookkeeping: factors of at
/// most a million million million keep the product well inside the
/// 128-bit range.
fn mul128(a: i128, b: i128) -> (r: i128)
    requires
        abs_spec(a as int) <= 1_000_000_000_000_000_000,
        abs_spec(b as int) <= 1_000_000_000_000_000_000,
    ensures
        r == a as int * b as int,
        abs_spec(r as int) <= 1_000_000_000_000_000_000_000_000_000_000_000_000,
{
    proof {
        crate::fixed::lemma_mul_bound(
            a as int,
            b as int,
            1_000_000_000_000_000_000,
            1_000_000_000_000_000_000,
        );
    }
    a * b
}

/// Wide multiplication of a small factor with a very wide one.
fn mul128w(a: i128, b: i128) -> (r: i128)
    requires
        abs_spec(a as int) <= 10_000_000,
        abs_spec(b as int) <= 10_000_000_000_000_000_000_000_000,
    ensures
        r == a as int * b as int,
        abs_spec(r as int) <= 100_000_000_000_000_000_000_000_000_000_000,
{
    proof {
        crate::fixed::lemma_mul_bound(
            a as int,
            b as int,
            10_000_000,
            10_000_000_000_000_000_000_000_000,
        );
    }
    a * b
}

/// The position mean after one prediction step: constant-velocity
/// advance, then the odometry transform.
pub open spec fn predict_px_spec(
    d: MultivariateNormalDistribution,
    dt_ms: int,
    odo: Transform2,
) -> int {
    apply_x_spec(
        odo,
        d.mean_px + mul_div_tz(d.mean_vx as int, dt_ms, SCALE as int),
        d.mean_py + mul_div_tz(d.mean_vy as int, dt_ms, SCALE as int),
    )
}

/// The y coordinate of the predicted position mean.
pub open spec fn predict_py_spec(
    d: MultivariateNormalDistribution,
    dt_ms: int,
    odo: Transform2,
) -> int {
    apply_y_spec(
        odo,
        d.mean_px + mul_div_tz(d.mean_vx as int, dt_ms, SCALE as int),
        d.mean_py + mul_div_tz(d.mean_vy as int, dt_ms, SCALE as int),
    )
}

/// The x velocity after one prediction step: exponential decay, then
/// the odometry rotation.
pub open spec fn predict_vx_spec(
    d: MultivariateNormalDistribution,
    decay: int,
    odo: Transform2,
) -> int {
    mul_div_tz(
        odo.rot.cos_milli as int,
        mul_div_tz(d.mean_vx as int, decay, SCALE as int),
        SCALE as int,
    ) - mul_div_tz(
        odo.rot.sin_milli as int,
        mul_div_tz(d.mean_vy as int, decay, SCALE as int),
        SCALE as int,
    )
}

/// The y velocity after one prediction step.
pub open spec fn predict_vy_spec(
    d: MultivariateNormalDistribution,
    decay: int,
    odo: Transform2,
) -> int {
    mul_div_tz(
        odo.rot.sin_milli as int,
        mul_div_tz(d.mean_vx as int, decay, SCALE as int),
        SCALE as int,
    ) + mul_div_tz(
        odo.rot.cos_milli as int,
        mul_div_tz(d.mean_vy as int, decay, SCALE as int),
        SCALE as int,
    )
}

/// The all-zero process noise.
pub open spec fn zero_noise_spec() -> CovarianceMatrix {
    CovarianceMatrix {
        a00: 0,
        a01: 0,
        a11: 0,
        b00: 0,
        b01: 0,
        b10: 0,
        b11: 0,
        c00: 0,
        c01: 0,
        c11: 0,
    }
}


/// The exact one-cycle prediction in the crate's truncating integer
/// arithmetic: constant-velocity advance with decay and process
/// noise, then the block-diagonal odometry rotation with the position
/// translated; an out-of-range result or a covariance that fails the
/// positive-semidefiniteness check falls back to the reseed state at
/// the predicted position.
#[verifier::opaque]
pub open spec fn predict_spec(
    d: MultivariateNormalDistribution,
    dt_ms: int,
    odo: Transform2,
    decay: int,
    q: CovarianceMatrix,
) -> MultivariateNormalDistribution {
    let m = d.covariance;
    let c = odo.rot.cos_milli as int;
    let sn = odo.rot.sin_milli as int;
    let px1 = d.mean_px + div_tz(d.mean_vx * dt_ms, SCALE as int);
    let py1 = d.mean_py + div_tz(d.mean_vy * dt_ms, SCALE as int);
    let vx1 = div_tz(d.mean_vx * decay, SCALE as int);
    let vy1 = div_tz(d.mean_vy * decay, SCALE as int);
    let px2 = odo.translation.x + div_tz(c * px1, SCALE as int) - div_tz(sn * py1, SCALE as int);
    let py2 = odo.translation.y + div_tz(sn * px1, SCALE as int) + div_tz(c * py1, SCALE as int);
    let vx2 = div_tz(c * vx1, SCALE as int) - div_tz(sn * vy1, SCALE as int);
    let vy2 = div_tz(sn * vx1, SCALE as int) + div_tz(c * vy1, SCALE as int);
    let dt2 = dt_ms * dt_ms;
    let scale2 = 1_000_000int;
    let a100 = m.a00 + div_tz(dt_ms * (2 * m.b00), SCALE as int) + div_tz(dt2 * m.c00, scale2)
        + q.a00;
    let a101 = m.a01 + div_tz(dt_ms * (m.b01 + m.b10), SCALE as int) + div_tz(
        dt2 * m.c01,
        scale2,
    ) + q.a01;
    let a111 = m.a11 + div_tz(dt_ms * (2 * m.b11), SCALE as int) + div_tz(dt2 * m.c11, scale2)
        + q.a11;
    let ddt = decay * dt_ms;
    let b100 = div_tz(decay * m.b00, SCALE as int) + div_tz(ddt * m.c00, scale2) + q.b00;
    let b101 = div_tz(decay * m.b01, SCALE as int) + div_tz(ddt * m.c01, scale2) + q.b01;
    let b110 = div_tz(decay * m.b10, SCALE as int) + div_tz(ddt * m.c01, scale2) + q.b10;
    let b111 = div_tz(decay * m.b11, SCALE as int) + div_tz(ddt * m.c11, scale2) + q.b11;
    let decay2 = decay * decay;
    let c100 = div_tz(decay2 * m.c00, scale2) + q.c00;
    let c101 = div_tz(decay2 * m.c01, scale2) + q.c01;
    let c111 = div_tz(decay2 * m.c11, scale2) + q.c11;
    let cc = c * c;
    let ss = sn * sn;
    let cs = c * sn;
    let a200 = div_tz(cc * a100 - 2 * (cs * a101) + ss * a111, scale2);
    let a201 = div_tz(cs * a100 + (cc - ss) * a101 - cs * a111, scale2);
    let a211 = div_tz(ss * a100 + 2 * (cs * a101) + cc * a111, scale2);
    let b200 = div_tz(cc * b100 - cs * b101 - cs * b110 + ss * b111, scale2);
    let b201 = div_tz(cs * b100 + cc * b101 - ss * b110 - cs * b111, scale2);
    let b210 = div_tz(cs * b100 - ss * b101 + cc * b110 - cs * b111, scale2);
    let b211 = div_tz(ss * b100 + cs * b101 + cs * b110 + cc * b111, scale2);
    let c200 = div_tz(cc * c100 - 2 * (cs * c101) + ss * c111, scale2);
    let c201 = div_tz(cs * c100 + (cc - ss) * c101 - cs * c111, scale2);
    let c211 = div_tz(ss * c100 + 2 * (cs * c101) + cc * c111, scale2);
    let in_range = {
        &&& -MEAN_LIMIT <= px2 <= MEAN_LIMIT
        &&& -MEAN_LIMIT <= py2 <= MEAN_LIMIT
        &&& -MEAN_LIMIT <= vx2 <= MEAN_LIMIT
        &&& -MEAN_LIMIT <= vy2 <= MEAN_LIMIT
        &&& -COV_LIMIT <= a200 <= COV_LIMIT
        &&& -COV_LIMIT <= a201 <= COV_LIMIT
        &&& -COV_LIMIT <= a211 <= COV_LIMIT
        &&& -COV_LIMIT <= b200 <= COV_LIMIT
        &&& -COV_LIMIT <= b201 <= COV_LIMIT
        &&& -COV_LIMIT <= b210 <= COV_LIMIT
        &&& -COV_LIMIT <= b211 <= COV_LIMIT
        &&& -COV_LIMIT <= c200 <= COV_LIMIT
        &&& -COV_LIMIT <= c201 <= COV_LIMIT
        &&& -COV_LIMIT <= c211 <= COV_LIMIT
    };
    let candidate = MultivariateNormalDistribution {
        mean_px: px2 as i64,
        mean_py: py2 as i64,
        mean_vx: vx2 as i64,
        mean_vy: vy2 as i64,
        covariance: CovarianceMatrix {
            a00: a200 as i64,
            a01: a201 as i64,
            a11: a211 as i64,
            b00: b200 as i64,
            b01: b201 as i64,
            b10: b210 as i64,
            b11: b211 as i64,
            c00: c200 as i64,
            c01: c201 as i64,
            c11: c211 as i64,
        },
    };
    if in_range && cov_psd(candidate.covariance) {
        candidate
    } else {
        reseed_spec(px2, py2)
    }
}

impl BallHypothesis {
    /// Propagates the hypothesis by one cycle: constant-velocity
    /// advance with velocity decay and process noise, then the
    /// odometry transform into the current ground frame.  A resulting
    /// state that leaves the numeric range or fails the
    /// positive-semidefiniteness check is reseeded from the predicted
    /// position, as a numerical degeneracy.
    #[verifier::rlimit(50)]
    pub fn predict(
        &mut self,
        delta_time_ms: u64,
        last_to_current_odometry: &Transform2,
        velocity_decay: i64,
        moving_process_noise: &CovarianceMatrix,
    )
        requires
            hypothesis_wf(*old(self)),
            delta_time_ms <= 60_000,
            0 <= velocity_decay <= SCALE,
            cov_in_range(*moving_process_noise),
            transform_wf(*last_to_current_odometry),
        ensures
            hypothesis_wf(*final(self)),
            final(self).validity == old(self).validity,
            final(self).last_seen_ms == old(self).last_seen_ms,
            ({
                let d0 = hypothesis_distribution(*old(self));
                let d1 = hypothesis_distribution(*final(self));
                let px = predict_px_spec(d0, delta_time_ms as int, *last_to_current_odometry);
                let py = predict_py_spec(d0, delta_time_ms as int, *last_to_current_odometry);
                &&& d1.mean_px == (if px > MEAN_LIMIT {
                    MEAN_LIMIT as int
                } else if px < -MEAN_LIMIT {
                    -(MEAN_LIMIT as int)
                } else {
                    px
                })
                &&& d1.mean_py == (if py > MEAN_LIMIT {
                    MEAN_LIMIT as int
                } else if py < -MEAN_LIMIT {
                    -(MEAN_LIMIT as int)
                } else {
                    py
                })
            }),
            final(self).mode == BallMode::Moving(
                predict_spec(
                    hypothesis_distribution(*old(self)),
                    delta_time_ms as int,
                    *last_to_current_odometry,
                    velocity_decay as int,
                    *moving_process_noise,
                ),
            ),
            ({
                let d0 = hypothesis_distribution(*old(self));
                let d1 = hypothesis_distribution(*final(self));
                (d1.mean_vx == predict_vx_spec(d0, velocity_decay as int, *last_to_current_odometry)
                    && d1.mean_vy == predict_vy_spec(
                    d0,
                    velocity_decay as int,
                    *last_to_current_odometry,
                )) || (d1.mean_vx == 0 && d1.mean_vy == 0 && d1.covariance == reseed_spec(
                    0,
                    0,
                ).covariance)
            }),
            (delta_time_ms == 0 && last_to_current_odometry.rot.cos_milli == SCALE
                && last_to_current_odometry.rot.sin_milli == 0
                && last_to_current_odometry.translation.x == 0
                && last_to_current_odometry.translation.y == 0 && velocity_decay == SCALE
                && moving_process_noise == zero_noise_spec()) ==> *final(self) == *old(self),
    {
        proof {
            reveal(predict_spec);
        }
        let d: MultivariateNormalDistribution = match self.mode {
            BallMode::Moving(d) => d,
        };
        let dt: i128 = delta_time_ms as i128;
        let decay: i128 = velocity_decay as i128;
        let c: i128 = last_to_current_odometry.rot.cos_milli as i128;
        let sn: i128 = last_to_current_odometry.rot.sin_milli as i128;
        let scale: i128 = SCALE as i128;
        proof {
            crate::fixed::lemma_mul_bound(d.mean_vx as int, dt as int, 1_000_000_000, 60_000);
            crate::fixed::lemma_mul_bound(d.mean_vy as int, dt as int, 1_000_000_000, 60_000);
            crate::fixed::lemma_mul_bound(d.mean_vx as int, decay as int, 1_000_000_000, 1_000);
            crate::fixed::lemma_mul_bound(d.mean_vy as int, decay as int, 1_000_000_000, 1_000);
        }
        // constant-velocity advance of the mean
        let px1: i128 = (d.mean_px as i128) + crate::fixed::div_i128(
            mul128(d.mean_vx as i128, dt),
            scale,
        );
        let py1: i128 = (d.mean_py as i128) + crate::fixed::div_i128(
            mul128(d.mean_vy as i128, dt),
            scale,
        );
        let vx1: i128 = crate::fixed::div_i128(mul128(d.mean_vx as i128, decay), scale);
        let vy1: i128 = crate::fixed::div_i128(mul128(d.mean_vy as i128, decay), scale);
        // odometry: rotate, and translate the position
        proof {
            crate::fixed::lemma_mul_bound(c as int, px1 as int, 1_000, 100_000_000_000_000);
            crate::fixed::lemma_mul_bound(sn as int, py1 as int, 1_000, 100_000_000_000_000);
            crate::fixed::lemma_mul_bound(sn as int, px1 as int, 1_000, 100_000_000_000_000);
            crate::fixed::lemma_mul_bound(c as int, py1 as int, 1_000, 100_000_000_000_000);
            crate::fixed::lemma_mul_bound(c as int, vx1 as int, 1_000, 1_000_000_000_000);
            crate::fixed::lemma_mul_bound(sn as int, vy1 as int, 1_000, 1_000_000_000_000);
            crate::fixed::lemma_mul_bound(sn as int, vx1 as int, 1_000, 1_000_000_000_000);
            crate::fixed::lemma_mul_bound(c as int, vy1 as int, 1_000, 1_000_000_000_000);
        }
        let px2: i128 = (last_to_current_odometry.translation.x as i128) + crate::fixed::div_i128(
            mul128(c, px1),
            scale,
        ) - crate::fixed::div_i128(mul128(sn, py1), scale);
        let py2: i128 = (last_to_current_odometry.translation.y as i128) + crate::fixed::div_i128(
            mul128(sn, px1),
            scale,
        ) + crate::fixed::div_i128(mul128(c, py1), scale);
        let vx2: i128 = crate::fixed::div_i128(mul128(c, vx1), scale) - crate::fixed::div_i128(
            mul128(sn, vy1),
            scale,
        );
        let vy2: i128 = crate::fixed::div_i128(mul128(sn, vx1), scale) + crate::fixed::div_i128(
            mul128(c, vy1),
            scale,
        );
        // covariance: motion model, then the block-diagonal rotation
        let m = d.covariance;
        let q = *moving_process_noise;
        let dt2: i128 = mul128(dt, dt);
        let scale2: i128 = 1_000_000;
        proof {
            crate::fixed::lemma_mul_bound(dt as int, dt as int, 60_000, 60_000);
            crate::fixed::lemma_mul_bound(dt as int, 2 * (m.b00 as int), 60_000, 2_000_000);
            crate::fixed::lemma_mul_bound(dt as int, 2 * (m.b11 as int), 60_000, 2_000_000);
            crate::fixed::lemma_mul_bound(
                dt as int,
                (m.b01 as int) + (m.b10 as int),
                60_000,
                2_000_000,
            );
            crate::fixed::lemma_mul_bound(dt2 as int, m.c00 as int, 3_600_000_000, 1_000_000);
            crate::fixed::lemma_mul_bound(dt2 as int, m.c01 as int, 3_600_000_000, 1_000_000);
            crate::fixed::lemma_mul_bound(dt2 as int, m.c11 as int, 3_600_000_000, 1_000_000);
        }
        let a100: i128 = (m.a00 as i128) + crate::fixed::div_i128(
            mul128(dt, 2 * (m.b00 as i128)),
            scale,
        ) + crate::fixed::div_i128(mul128(dt2, m.c00 as i128), scale2) + (q.a00 as i128);
        let a101: i128 = (m.a01 as i128) + crate::fixed::div_i128(
            mul128(dt, (m.b01 as i128) + (m.b10 as i128)),
            scale,
        ) + crate::fixed::div_i128(mul128(dt2, m.c01 as i128), scale2) + (q.a01 as i128);
        let a111: i128 = (m.a11 as i128) + crate::fixed::div_i128(
            mul128(dt, 2 * (m.b11 as i128)),
            scale,
        ) + crate::fixed::div_i128(mul128(dt2, m.c11 as i128), scale2) + (q.a11 as i128);
        let ddt: i128 = mul128(decay, dt);
        proof {
            crate::fixed::lemma_mul_bound(decay as int, dt as int, 1_000, 60_000);
            crate::fixed::lemma_mul_bound(decay as int, m.b00 as int, 1_000, 1_000_000);
            crate::fixed::lemma_mul_bound(decay as int, m.b01 as int, 1_000, 1_000_000);
            crate::fixed::lemma_mul_bound(decay as int, m.b10 as int, 1_000, 1_000_000);
            crate::fixed::lemma_mul_bound(decay as int, m.b11 as int, 1_000, 1_000_000);
            crate::fixed::lemma_mul_bound(ddt as int, m.c00 as int, 60_000_000, 1_000_000);
            crate::fixed::lemma_mul_bound(ddt as int, m.c01 as int, 60_000_000, 1_000_000);
            crate::fixed::lemma_mul_bound(ddt as int, m.c11 as int, 60_000_000, 1_000_000);
        }
        let b100: i128 = crate::fixed::div_i128(mul128(decay, m.b00 as i128), scale)
            + crate::fixed::div_i128(mul128(ddt, m.c00 as i128), scale2) + (q.b00 as i128);
        let b101: i128 = crate::fixed::div_i128(mul128(decay, m.b01 as i128), scale)
            + crate::fixed::div_i128(mul128(ddt, m.c01 as i128), scale2) + (q.b01 as i128);
        let b110: i128 = crate::fixed::div_i128(mul128(decay, m.b10 as i128), scale)
            + crate::fixed::div_i128(mul128(ddt, m.c01 as i128), scale2) + (q.b10 as i128);
        let b111: i128 = crate::fixed::div_i128(mul128(decay, m.b11 as i128), scale)
            + crate::fixed::div_i128(mul128(ddt, m.c11 as i128), scale2) + (q.b11 as i128);
        let decay2: i128 = mul128(decay, decay);
        proof {
            crate::fixed::lemma_mul_bound(decay as int, decay as int, 1_000, 1_000);
            crate::fixed::lemma_mul_bound(decay2 as int, m.c00 as int, 1_000_000, 1_000_000);
            crate::fixed::lemma_mul_bound(decay2 as int, m.c01 as int, 1_000_000, 1_000_000);
            crate::fixed::lemma_mul_bound(decay2 as int, m.c11 as int, 1_000_000, 1_000_000);
        }
        let c100: i128 = crate::fixed::div_i128(mul128(decay2, m.c00 as i128), scale2) + (
        q.c00 as i128);
        let c101: i128 = crate::fixed::div_i128(mul128(decay2, m.c01 as i128), scale2) + (
        q.c01 as i128);
        let c111: i128 = crate::fixed::div_i128(mul128(decay2, m.c11 as i128), scale2) + (
        q.c11 as i128);
        // rotation by the odometry heading
        let cc: i128 = mul128(c, c);
        let ss: i128 = mul128(sn, sn);
        let cs: i128 = mul128(c, sn);
        proof {
            crate::fixed::lemma_mul_bound(c as int, c as int, 1_000, 1_000);
            crate::fixed::lemma_mul_bound(sn as int, sn as int, 1_000, 1_000);
            crate::fixed::lemma_mul_bound(c as int, sn as int, 1_000, 1_000);
        }
        let a200: i128 = crate::fixed::div_i128(
            mul128(cc, a100) - 2 * mul128(cs, a101) + mul128(ss, a111),
            scale2,
        );
        let a201: i128 = crate::fixed::div_i128(
            mul128(cs, a100) + mul128(cc - ss, a101) - mul128(cs, a111),
            scale2,
        );
        let a211: i128 = crate::fixed::div_i128(
            mul128(ss, a100) + 2 * mul128(cs, a101) + mul128(cc, a111),
            scale2,
        );
        let b200: i128 = crate::fixed::div_i128(
            mul128(cc, b100) - mul128(cs, b101) - mul128(cs, b110) + mul128(ss, b111),
            scale2,
        );
        let b201: i128 = crate::fixed::div_i128(
            mul128(cs, b100) + mul128(cc, b101) - mul128(ss, b110) - mul128(cs, b111),
            scale2,
        );
        let b210: i128 = crate::fixed::div_i128(
            mul128(cs, b100) - mul128(ss, b101) + mul128(cc, b110) - mul128(cs, b111),
            scale2,
        );
        let b211: i128 = crate::fixed::div_i128(
            mul128(ss, b100) + mul128(cs, b101) + mul128(cs, b110) + mul128(cc, b111),
            scale2,
        );
        let c200: i128 = crate::fixed::div_i128(
            mul128(cc, c100) - 2 * mul128(cs, c101) + mul128(ss, c111),
            scale2,
        );
        let c201: i128 = crate::fixed::div_i128(
            mul128(cs, c100) + mul128(cc - ss, c101) - mul128(cs, c111),
            scale2,
        );
        let c211: i128 = crate::fixed::div_i128(
            mul128(ss, c100) + 2 * mul128(cs, c101) + mul128(cc, c111),
            scale2,
        );
        proof {
            if delta_time_ms == 0 && last_to_current_odometry.rot.cos_milli == SCALE
                && last_to_current_odometry.rot.sin_milli == 0
                && last_to_current_odometry.translation.x == 0
                && last_to_current_odometry.translation.y == 0 && velocity_decay == SCALE
                && *moving_process_noise == zero_noise_spec() {
                crate::fixed::lemma_zero_div(1000);
                crate::fixed::lemma_zero_div(1_000_000);
                assert((d.mean_vx as int) * 0 == 0) by (nonlinear_arith);
                assert((d.mean_vy as int) * 0 == 0) by (nonlinear_arith);
                assert(px1 == d.mean_px as int);
                assert(py1 == d.mean_py as int);
                assert((d.mean_vx as int) * 1000 == 1000 * (d.mean_vx as int)) by (
                nonlinear_arith);
                assert((d.mean_vy as int) * 1000 == 1000 * (d.mean_vy as int)) by (
                nonlinear_arith);
                crate::fixed::lemma_exact_cancel(d.mean_vx as int, 1000);
                crate::fixed::lemma_exact_cancel(d.mean_vy as int, 1000);
                assert(vx1 == d.mean_vx as int);
                assert(vy1 == d.mean_vy as int);
                crate::fixed::lemma_exact_cancel(px1 as int, 1000);
                crate::fixed::lemma_exact_cancel(py1 as int, 1000);
                crate::fixed::lemma_exact_cancel(vx1 as int, 1000);
                crate::fixed::lemma_exact_cancel(vy1 as int, 1000);
                assert(0int * (py1 as int) == 0) by (nonlinear_arith);
                assert(0int * (px1 as int) == 0) by (nonlinear_arith);
                assert(0int * (vy1 as int) == 0) by (nonlinear_arith);
                assert(0int * (vx1 as int) == 0) by (nonlinear_arith);
                assert(px2 == px1 && py2 == py1 && vx2 == vx1 && vy2 == vy1);
                // the motion step leaves the covariance untouched
                assert(0int * (2 * (m.b00 as int)) == 0) by (nonlinear_arith);
                assert(0int * (2 * (m.b11 as int)) == 0) by (nonlinear_arith);
                assert(0int * ((m.b01 as int) + (m.b10 as int)) == 0) by (nonlinear_arith);
                assert(dt2 == 0) by (nonlinear_arith)
                    requires
                        dt == 0,
                        dt2 == dt as int * dt as int,
                ;
                assert(0int * (m.c00 as int) == 0) by (nonlinear_arith);
                assert(0int * (m.c01 as int) == 0) by (nonlinear_arith);
                assert(0int * (m.c11 as int) == 0) by (nonlinear_arith);
                assert((1000int) * (m.b00 as int) == (m.b00 as int) * 1000) by (nonlinear_arith);
                assert((1000int) * (m.b01 as int) == (m.b01 as int) * 1000) by (nonlinear_arith);
                assert((1000int) * (m.b10 as int) == (m.b10 as int) * 1000) by (nonlinear_arith);
                assert((1000int) * (m.b11 as int) == (m.b11 as int) * 1000) by (nonlinear_arith);
                crate::fixed::lemma_exact_cancel(m.b00 as int, 1000);
                crate::fixed::lemma_exact_cancel(m.b01 as int, 1000);
                crate::fixed::lemma_exact_cancel(m.b10 as int, 1000);
                crate::fixed::lemma_exact_cancel(m.b11 as int, 1000);
                assert(ddt == 0) by (nonlinear_arith)
                    requires
                        dt == 0,
                        ddt == decay as int * dt as int,
                ;
                assert(decay2 == 1_000_000) by (nonlinear_arith)
                    requires
                        decay == 1000,
                        decay2 == decay as int * decay as int,
                ;
                assert((1_000_000int) * (m.c00 as int) == (m.c00 as int) * 1_000_000) by (
                nonlinear_arith);
                assert((1_000_000int) * (m.c01 as int) == (m.c01 as int) * 1_000_000) by (
                nonlinear_arith);
                assert((1_000_000int) * (m.c11 as int) == (m.c11 as int) * 1_000_000) by (
                nonlinear_arith);
                crate::fixed::lemma_exact_cancel(m.c00 as int, 1_000_000);
                crate::fixed::lemma_exact_cancel(m.c01 as int, 1_000_000);
                crate::fixed::lemma_exact_cancel(m.c11 as int, 1_000_000);
                assert(a100 == m.a00 as int && a101 == m.a01 as int && a111 == m.a11 as int);
                assert(b100 == m.b00 as int && b101 == m.b01 as int && b110 == m.b10 as int
                    && b111 == m.b11 as int);
                assert(c100 == m.c00 as int && c101 == m.c01 as int && c111 == m.c11 as int);
                // the identity rotation leaves every block untouched
                assert(cc == 1_000_000 && ss == 0 && cs == 0) by (nonlinear_arith)
                    requires
                        c == 1000,
                        sn == 0,
                        cc == c as int * c as int,
                        ss == sn as int * sn as int,
                        cs == c as int * sn as int,
                ;
                assert(0int * (a100 as int) == 0 && 0int * (a101 as int) == 0 && 0int * (
                a111 as int) == 0) by (nonlinear_arith);
                assert(0int * (b100 as int) == 0 && 0int * (b101 as int) == 0 && 0int * (
                b110 as int) == 0 && 0int * (b111 as int) == 0) by (nonlinear_arith);
                assert(0int * (c100 as int) == 0 && 0int * (c101 as int) == 0 && 0int * (
                c111 as int) == 0) by (nonlinear_arith);
                assert((1_000_000int) * (a100 as int) == (a100 as int) * 1_000_000 && (
                1_000_000int) * (a101 as int) == (a101 as int) * 1_000_000 && (1_000_000int) * (
                a111 as int) == (a111 as int) * 1_000_000) by (nonlinear_arith);
                assert((1_000_000int) * (b100 as int) == (b100 as int) * 1_000_000 && (
                1_000_000int) * (b101 as int) == (b101 as int) * 1_000_000 && (1_000_000int) * (
                b110 as int) == (b110 as int) * 1_000_000 && (1_000_000int) * (b111 as int) == (
                b111 as int) * 1_000_000) by (nonlinear_arith);
                assert((1_000_000int) * (c100 as int) == (c100 as int) * 1_000_000 && (
                1_000_000int) * (c101 as int) == (c101 as int) * 1_000_000 && (1_000_000int) * (
                c111 as int) == (c111 as int) * 1_000_000) by (nonlinear_arith);
                crate::fixed::lemma_exact_cancel(a100 as int, 1_000_000);
                crate::fixed::lemma_exact_cancel(a101 as int, 1_000_000);
                crate::fixed::lemma_exact_cancel(a111 as int, 1_000_000);
                crate::fixed::lemma_exact_cancel(b100 as int, 1_000_000);
                crate::fixed::lemma_exact_cancel(b101 as int, 1_000_000);
                crate::fixed::lemma_exact_cancel(b110 as int, 1_000_000);
                crate::fixed::lemma_exact_cancel(b111 as int, 1_000_000);
                crate::fixed::lemma_exact_cancel(c100 as int, 1_000_000);
                crate::fixed::lemma_exact_cancel(c101 as int, 1_000_000);
                crate::fixed::lemma_exact_cancel(c111 as int, 1_000_000);
                assert(a200 == m.a00 as int && a201 == m.a01 as int && a211 == m.a11 as int);
                assert(b200 == m.b00 as int && b201 == m.b01 as int && b210 == m.b10 as int
                    && b211 == m.b11 as int);
                assert(c200 == m.c00 as int && c201 == m.c01 as int && c211 == m.c11 as int);
            }
        }
        let lim: i128 = COV_LIMIT as i128;
        let mlim: i128 = MEAN_LIMIT as i128;
        let in_range: bool = -mlim <= px2 && px2 <= mlim && -mlim <= py2 && py2 <= mlim && -mlim
            <= vx2 && vx2 <= mlim && -mlim <= vy2 && vy2 <= mlim && -lim <= a200 && a200 <= lim
            && -lim <= a201 && a201 <= lim && -lim <= a211 && a211 <= lim && -lim <= b200 && b200
            <= lim && -lim <= b201 && b201 <= lim && -lim <= b210 && b210 <= lim && -lim <= b211
            && b211 <= lim && -lim <= c200 && c200 <= lim && -lim <= c201 && c201 <= lim && -lim
            <= c211 && c211 <= lim;
        if in_range {
            let candidate = MultivariateNormalDistribution {
                mean_px: px2 as i64,
                mean_py: py2 as i64,
                mean_vx: vx2 as i64,
                mean_vy: vy2 as i64,
                covariance: CovarianceMatrix {
                    a00: a200 as i64,
                    a01: a201 as i64,
                    a11: a211 as i64,
                    b00: b200 as i64,
                    b01: b201 as i64,
                    b10: b210 as i64,
                    b11: b211 as i64,
                    c00: c200 as i64,
                    c01: c201 as i64,
                    c11: c211 as i64,
                },
            };
            if check_covariance(&candidate.covariance) {
                proof {
                    lemma_predict_identity_case(
                        d,
                        delta_time_ms as int,
                        *last_to_current_odometry,
                        velocity_decay as int,
                        *moving_process_noise,
                    );
                }
                self.mode = BallMode::Moving(candidate);
                return ;
            }
        }
        proof {
            lemma_predict_identity_case(
                d,
                delta_time_ms as int,
                *last_to_current_odometry,
                velocity_decay as int,
                *moving_process_noise,
            );
        }
        self.mode = BallMode::Moving(reseed_from(px2, py2));
    }
}

/// Under the identity odometry, a zero time step, a unit decay and no
/// process noise, the prediction formulas fix the state.
proof fn lemma_predict_identity_case(
    d: MultivariateNormalDistribution,
    dt_ms: int,
    odo: Transform2,
    decay: int,
    noise: CovarianceMatrix,
)
    ensures
        (dt_ms == 0 && odo.rot.cos_milli == SCALE && odo.rot.sin_milli == 0 && odo.translation.x
            == 0 && odo.translation.y == 0 && decay == SCALE && noise == zero_noise_spec()) ==> (
        predict_px_spec(d, dt_ms, odo) == d.mean_px && predict_py_spec(d, dt_ms, odo) == d.mean_py
            && predict_vx_spec(d, decay, odo) == d.mean_vx && predict_vy_spec(d, decay, odo)
            == d.mean_vy),
{
    if dt_ms == 0 && odo.rot.cos_milli == SCALE && odo.rot.sin_milli == 0 && odo.translation.x == 0
        && odo.translation.y == 0 && decay == SCALE && noise == zero_noise_spec() {
        lemma_mul_div_zero(d.mean_vx as int);
        lemma_mul_div_zero(d.mean_vy as int);
        lemma_mul_div_unit(d.mean_vx as int);
        lemma_mul_div_unit(d.mean_vy as int);
        crate::odometry::lemma_identity_fixes_points(odo, d.mean_px as int, d.mean_py as int);
        lemma_mul_div_unit_left(d.mean_vx as int);
        lemma_mul_div_unit_left(d.mean_vy as int);
        lemma_mul_div_zero_left(d.mean_vx as int);
        lemma_mul_div_zero_left(d.mean_vy as int);
    }
}

/// `v * 0 / SCALE == 0`.
proof fn lemma_mul_div_zero(v: int)
    ensures
        mul_div_tz(v, 0, SCALE as int) == 0,
{
    assert(v * 0 == 0) by (nonlinear_arith);
    assert(0int / (SCALE as int) == 0) by (nonlinear_arith)
        requires
            SCALE == 1000,
    ;
}

/// `0 * v / SCALE == 0`.
proof fn lemma_mul_div_zero_left(v: int)
    ensures
        mul_div_tz(0, v, SCALE as int) == 0,
{
    assert(0int * v == 0) by (nonlinear_arith);
    assert(0int / (SCALE as int) == 0) by (nonlinear_arith)
        requires
            SCALE == 1000,
    ;
}

/// `v * SCALE / SCALE == v`.
proof fn lemma_mul_div_unit(v: int)
    ensures
        mul_div_tz(v, SCALE as int, SCALE as int) == v,
{
    crate::odometry::lemma_unit_cancel(v);
    assert(v * (SCALE as int) == (SCALE as int) * v) by (nonlinear_arith);
}

/// `SCALE * v / SCALE == v`.
proof fn lemma_mul_div_unit_left(v: int)
    ensures
        mul_div_tz(SCALE as int, v, SCALE as int) == v,
{
    crate::odometry::lemma_unit_cancel(v);
}



/// The exact posterior of the two-dimensional Kalman fusion, in the
/// crate's truncating integer arithmetic: the innovation covariance is
/// inverted through its adjugate, every gain application divides by
/// its determinant once, and a singular innovation covariance, an
/// out-of-range result or a posterior covariance that fails the
/// positive-semidefiniteness check falls back to the reseed state.
#[verifier::opaque]
pub open spec fn fuse_position_spec(
    d: MultivariateNormalDistribution,
    z: Measurement2,
) -> MultivariateNormalDistribution {
    let m = d.covariance;
    let y0 = z.mean_x - d.mean_px;
    let y1 = z.mean_y - d.mean_py;
    let s00 = m.a00 + z.r00;
    let s01 = m.a01 + z.r01;
    let s11 = m.a11 + z.r11;
    let det = s00 * s11 - s01 * s01;
    if det <= 0 {
        reseed_spec(d.mean_px as int, d.mean_py as int)
    } else {
        let n00 = s11;
        let n01 = -s01;
        let n11 = s00;
        let w0 = n00 * y0 + n01 * y1;
        let w1 = n01 * y0 + n11 * y1;
        let px = d.mean_px + div_tz(m.a00 * w0 + m.a01 * w1, det);
        let py = d.mean_py + div_tz(m.a01 * w0 + m.a11 * w1, det);
        let vx = d.mean_vx + div_tz(m.b00 * w0 + m.b10 * w1, det);
        let vy = d.mean_vy + div_tz(m.b01 * w0 + m.b11 * w1, det);
        let an00 = m.a00 * n00 + m.a01 * n01;
        let an01 = m.a00 * n01 + m.a01 * n11;
        let an10 = m.a01 * n00 + m.a11 * n01;
        let an11 = m.a01 * n01 + m.a11 * n11;
        let bn00 = m.b00 * n00 + m.b10 * n01;
        let bn01 = m.b00 * n01 + m.b10 * n11;
        let bn10 = m.b01 * n00 + m.b11 * n01;
        let bn11 = m.b01 * n01 + m.b11 * n11;
        let a00 = m.a00 - div_tz(m.a00 * an00 + m.a01 * an01, det);
        let a01 = m.a01 - div_tz(m.a01 * an00 + m.a11 * an01, det);
        let a11 = m.a11 - div_tz(m.a01 * an10 + m.a11 * an11, det);
        let b00 = m.b00 - div_tz(m.b00 * an00 + m.b10 * an01, det);
        let b01 = m.b01 - div_tz(m.b00 * an10 + m.b10 * an11, det);
        let b10 = m.b10 - div_tz(m.b01 * an00 + m.b11 * an01, det);
        let b11 = m.b11 - div_tz(m.b01 * an10 + m.b11 * an11, det);
        let c00 = m.c00 - div_tz(m.b00 * bn00 + m.b10 * bn01, det);
        let c01 = m.c01 - div_tz(m.b00 * bn10 + m.b10 * bn11, det);
        let c11 = m.c11 - div_tz(m.b01 * bn10 + m.b11 * bn11, det);
        let in_range = {
            &&& -MEAN_LIMIT <= px <= MEAN_LIMIT
            &&& -MEAN_LIMIT <= py <= MEAN_LIMIT
            &&& -MEAN_LIMIT <= vx <= MEAN_LIMIT
            &&& -MEAN_LIMIT <= vy <= MEAN_LIMIT
            &&& -COV_LIMIT <= a00 <= COV_LIMIT
            &&& -COV_LIMIT <= a01 <= COV_LIMIT
            &&& -COV_LIMIT <= a11 <= COV_LIMIT
            &&& -COV_LIMIT <= b00 <= COV_LIMIT
            &&& -COV_LIMIT <= b01 <= COV_LIMIT
            &&& -COV_LIMIT <= b10 <= COV_LIMIT
            &&& -COV_LIMIT <= b11 <= COV_LIMIT
            &&& -COV_LIMIT <= c00 <= COV_LIMIT
            &&& -COV_LIMIT <= c01 <= COV_LIMIT
            &&& -COV_LIMIT <= c11 <= COV_LIMIT
        };
        let candidate = MultivariateNormalDistribution {
            mean_px: px as i64,
            mean_py: py as i64,
            mean_vx: vx as i64,
            mean_vy: vy as i64,
            covariance: CovarianceMatrix {
                a00: a00 as i64,
                a01: a01 as i64,
                a11: a11 as i64,
                b00: b00 as i64,
                b01: b01 as i64,
                b10: b10 as i64,
                b11: b11 as i64,
                c00: c00 as i64,
                c01: c01 as i64,
                c11: c11 as i64,
            },
        };
        if in_range && cov_psd(candidate.covariance) {
            candidate
        } else {
            reseed_spec(px, py)
        }
    }
}

/// Kalman-fuses a two-dimensional position observation into a state.
/// The returned state is always well formed: a singular innovation
/// covariance, an out-of-range mean or a covariance that fails the
/// positive-semidefiniteness check reseeds from the fused position.
/// An observation equal to the current position mean with a regular
/// innovation covariance leaves the mean unchanged.
fn fuse_position(d: &MultivariateNormalDistribution, z: &Measurement2) -> (r:
    MultivariateNormalDistribution)
    requires
        distribution_wf(*d),
        measurement_wf(*z),
    ensures
        distribution_wf(r),
        r == fuse_position_spec(*d, *z),
        ({
            let s00 = d.covariance.a00 + z.r00;
            let s01 = d.covariance.a01 + z.r01;
            let s11 = d.covariance.a11 + z.r11;
            (z.mean_x == d.mean_px && z.mean_y == d.mean_py && s00 * s11 - s01 * s01 > 0) ==> (
            r.mean_px == d.mean_px && r.mean_py == d.mean_py)
        }),
{
    proof {
        reveal(fuse_position_spec);
    }
    let m = d.covariance;
    let y0: i128 = (z.mean_x as i128) - (d.mean_px as i128);
    let y1: i128 = (z.mean_y as i128) - (d.mean_py as i128);
    let s00: i128 = (m.a00 as i128) + (z.r00 as i128);
    let s01: i128 = (m.a01 as i128) + (z.r01 as i128);
    let s11: i128 = (m.a11 as i128) + (z.r11 as i128);
    let det: i128 = mul128(s00, s11) - mul128(s01, s01);
    if det <= 0 {
        return reseed_from(d.mean_px as i128, d.mean_py as i128);
    }
    // the adjugate of the innovation covariance
    let n00: i128 = s11;
    let n01: i128 = -s01;
    let n11: i128 = s00;
    // gain numerators: rows of the cross covariance times the adjugate
    proof {
        crate::fixed::lemma_mul_bound(n00 as int, y0 as int, 1_000_001_000_000, 2_000_000_001);
        crate::fixed::lemma_mul_bound(n01 as int, y1 as int, 1_000_001_000_000, 2_000_000_001);
        crate::fixed::lemma_mul_bound(n01 as int, y0 as int, 1_000_001_000_000, 2_000_000_001);
        crate::fixed::lemma_mul_bound(n11 as int, y1 as int, 1_000_001_000_000, 2_000_000_001);
    }
    let w0: i128 = mul128(n00, y0) + mul128(n01, y1);
    let w1: i128 = mul128(n01, y0) + mul128(n11, y1);
    let dpx: i128 = crate::fixed::div_i128(
        mul128w(m.a00 as i128, w0) + mul128w(m.a01 as i128, w1),
        det,
    );
    let dpy: i128 = crate::fixed::div_i128(
        mul128w(m.a01 as i128, w0) + mul128w(m.a11 as i128, w1),
        det,
    );
    let dvx: i128 = crate::fixed::div_i128(
        mul128w(m.b00 as i128, w0) + mul128w(m.b10 as i128, w1),
        det,
    );
    let dvy: i128 = crate::fixed::div_i128(
        mul128w(m.b01 as i128, w0) + mul128w(m.b11 as i128, w1),
        det,
    );
    proof {
        if y0 == 0 && y1 == 0 {
            assert(n00 as int * 0 == 0 && n01 as int * 0 == 0 && n11 as int * 0 == 0) by (
            nonlinear_arith);
            assert((m.a00 as int) * 0 == 0 && (m.a01 as int) * 0 == 0 && (m.a11 as int) * 0 == 0
                && (m.b00 as int) * 0 == 0 && (m.b01 as int) * 0 == 0 && (m.b10 as int) * 0 == 0
                && (m.b11 as int) * 0 == 0) by (nonlinear_arith);
            crate::fixed::lemma_zero_div(det as int);
        }
    }
    let px: i128 = (d.mean_px as i128) + dpx;
    let py: i128 = (d.mean_py as i128) + dpy;
    let vx: i128 = (d.mean_vx as i128) + dvx;
    let vy: i128 = (d.mean_vy as i128) + dvy;
    // covariance decrement: the cross covariance sandwiched around the
    // adjugate, rescaled by the determinant
    // position rows of the cross covariance: [a00 a01; a01 a11]
    // velocity rows: [b00 b10; b01 b11] (the transpose of the b block)
    proof {
        crate::fixed::lemma_mul_bound(m.a00 as int, n00 as int, 1_000_000, 1_000_001_000_000);
        crate::fixed::lemma_mul_bound(m.a00 as int, n01 as int, 1_000_000, 1_000_001_000_000);
        crate::fixed::lemma_mul_bound(m.a01 as int, n00 as int, 1_000_000, 1_000_001_000_000);
        crate::fixed::lemma_mul_bound(m.a01 as int, n01 as int, 1_000_000, 1_000_001_000_000);
        crate::fixed::lemma_mul_bound(m.a01 as int, n11 as int, 1_000_000, 1_000_001_000_000);
        crate::fixed::lemma_mul_bound(m.a11 as int, n00 as int, 1_000_000, 1_000_001_000_000);
        crate::fixed::lemma_mul_bound(m.a11 as int, n01 as int, 1_000_000, 1_000_001_000_000);
        crate::fixed::lemma_mul_bound(m.a11 as int, n11 as int, 1_000_000, 1_000_001_000_000);
        crate::fixed::lemma_mul_bound(m.b00 as int, n00 as int, 1_000_000, 1_000_001_000_000);
        crate::fixed::lemma_mul_bound(m.b00 as int, n01 as int, 1_000_000, 1_000_001_000_000);
        crate::fixed::lemma_mul_bound(m.b01 as int, n00 as int, 1_000_000, 1_000_001_000_000);
        crate::fixed::lemma_mul_bound(m.b01 as int, n01 as int, 1_000_000, 1_000_001_000_000);
        crate::fixed::lemma_mul_bound(m.b10 as int, n01 as int, 1_000_000, 1_000_001_000_000);
        crate::fixed::lemma_mul_bound(m.b10 as int, n11 as int, 1_000_000, 1_000_001_000_000);
        crate::fixed::lemma_mul_bound(m.b11 as int, n01 as int, 1_000_000, 1_000_001_000_000);
        crate::fixed::lemma_mul_bound(m.b11 as int, n11 as int, 1_000_000, 1_000_001_000_000);
    }
    let an00: i128 = mul128(m.a00 as i128, n00) + mul128(m.a01 as i128, n01);
    let an01: i128 = mul128(m.a00 as i128, n01) + mul128(m.a01 as i128, n11);
    let an10: i128 = mul128(m.a01 as i128, n00) + mul128(m.a11 as i128, n01);
    let an11: i128 = mul128(m.a01 as i128, n01) + mul128(m.a11 as i128, n11);
    let bn00: i128 = mul128(m.b00 as i128, n00) + mul128(m.b10 as i128, n01);
    let bn01: i128 = mul128(m.b00 as i128, n01) + mul128(m.b10 as i128, n11);
    let bn10: i128 = mul128(m.b01 as i128, n00) + mul128(m.b11 as i128, n01);
    let bn11: i128 = mul128(m.b01 as i128, n01) + mul128(m.b11 as i128, n11);
    let da00: i128 = crate::fixed::div_i128(
        mul128w(m.a00 as i128, an00) + mul128w(m.a01 as i128, an01),
        det,
    );
    let da01: i128 = crate::fixed::div_i128(
        mul128w(m.a01 as i128, an00) + mul128w(m.a11 as i128, an01),
        det,
    );
    let da11: i128 = crate::fixed::div_i128(
        mul128w(m.a01 as i128, an10) + mul128w(m.a11 as i128, an11),
        det,
    );
    let db00: i128 = crate::fixed::div_i128(
        mul128w(m.b00 as i128, an00) + mul128w(m.b10 as i128, an01),
        det,
    );
    let db01: i128 = crate::fixed::div_i128(
        mul128w(m.b00 as i128, an10) + mul128w(m.b10 as i128, an11),
        det,
    );
    let db10: i128 = crate::fixed::div_i128(
        mul128w(m.b01 as i128, an00) + mul128w(m.b11 as i128, an01),
        det,
    );
    let db11: i128 = crate::fixed::div_i128(
        mul128w(m.b01 as i128, an10) + mul128w(m.b11 as i128, an11),
        det,
    );
    let dc00: i128 = crate::fixed::div_i128(
        mul128w(m.b00 as i128, bn00) + mul128w(m.b10 as i128, bn01),
        det,
    );
    let dc01: i128 = crate::fixed::div_i128(
        mul128w(m.b00 as i128, bn10) + mul128w(m.b10 as i128, bn11),
        det,
    );
    let dc11: i128 = crate::fixed::div_i128(
        mul128w(m.b01 as i128, bn10) + mul128w(m.b11 as i128, bn11),
        det,
    );
    let a00: i128 = (m.a00 as i128) - da00;
    let a01: i128 = (m.a01 as i128) - da01;
    let a11: i128 = (m.a11 as i128) - da11;
    let b00: i128 = (m.b00 as i128) - db00;
    let b01: i128 = (m.b01 as i128) - db01;
    let b10: i128 = (m.b10 as i128) - db10;
    let b11: i128 = (m.b11 as i128) - db11;
    let c00: i128 = (m.c00 as i128) - dc00;
    let c01: i128 = (m.c01 as i128) - dc01;
    let c11: i128 = (m.c11 as i128) - dc11;
    let lim: i128 = COV_LIMIT as i128;
    let mlim: i128 = MEAN_LIMIT as i128;
    let in_range: bool = -mlim <= px && px <= mlim && -mlim <= py && py <= mlim && -mlim <= vx && vx
        <= mlim && -mlim <= vy && vy <= mlim && -lim <= a00 && a00 <= lim && -lim <= a01 && a01
        <= lim && -lim <= a11 && a11 <= lim && -lim <= b00 && b00 <= lim && -lim <= b01 && b01
        <= lim && -lim <= b10 && b10 <= lim && -lim <= b11 && b11 <= lim && -lim <= c00 && c00
        <= lim && -lim <= c01 && c01 <= lim && -lim <= c11 && c11 <= lim;
    if in_range {
        let candidate = MultivariateNormalDistribution {
            mean_px: px as i64,
            mean_py: py as i64,
            mean_vx: vx as i64,
            mean_vy: vy as i64,
            covariance: CovarianceMatrix {
                a00: a00 as i64,
                a01: a01 as i64,
                a11: a11 as i64,
                b00: b00 as i64,
                b01: b01 as i64,
                b10: b10 as i64,
                b11: b11 as i64,
                c00: c00 as i64,
                c01: c01 as i64,
                c11: c11 as i64,
            },
        };
        if check_covariance(&candidate.covariance) {
            return candidate;
        }
    }
    reseed_from(px, py)
}

impl BallHypothesis {
    /// Folds a position detection into the hypothesis: the state is
    /// fused by a Kalman update on the two position components, the
    /// validity rises by exactly the configured bonus, and the
    /// detection becomes the last supporting measurement.
    pub fn update(&mut self, detection_time_ms: u64, measurement: Measurement2, validity_bonus:
        i64)
        requires
            hypothesis_wf(*old(self)),
            measurement_wf(measurement),
            0 <= validity_bonus <= 1_000_000,
            old(self).validity + validity_bonus <= VALIDITY_LIMIT,
        ensures
            hypothesis_wf(*final(self)),
            final(self).last_seen_ms == detection_time_ms,
            final(self).validity == old(self).validity + validity_bonus,
            final(self).mode == BallMode::Moving(
                fuse_position_spec(hypothesis_distribution(*old(self)), measurement),
            ),
            ({
                let d0 = hypothesis_distribution(*old(self));
                let d1 = hypothesis_distribution(*final(self));
                let s00 = d0.covariance.a00 + measurement.r00;
                let s01 = d0.covariance.a01 + measurement.r01;
                let s11 = d0.covariance.a11 + measurement.r11;
                (measurement.mean_x == d0.mean_px && measurement.mean_y == d0.mean_py && s00 * s11
                    - s01 * s01 > 0) ==> (d1.mean_px == d0.mean_px && d1.mean_py == d0.mean_py)
            }),
    {
        self.last_seen_ms = detection_time_ms;
        self.validity = self.validity + validity_bonus;
        let d: MultivariateNormalDistribution = match self.mode {
            BallMode::Moving(d) => d,
        };
        self.mode = BallMode::Moving(fuse_position(&d, &measurement));
    }

    /// Kalman-fuses the other hypothesis into this one: a full
    /// four-dimensional update with the identity observation matrix,
    /// taking the other's mean as the observation and the other's
    /// covariance as its noise, keeping the larger of the two validity
    /// scores.
    pub fn merge(&mut self, other: &BallHypothesis)
        requires
            hypothesis_wf(*old(self)),
            hypothesis_wf(*other),
        ensures
            hypothesis_wf(*final(self)),
            final(self).last_seen_ms == old(self).last_seen_ms,
            final(self).validity == (if old(self).validity >= other.validity {
                old(self).validity
            } else {
                other.validity
            }),
            final(self).mode == BallMode::Moving(
                fuse_full_spec(
                    hypothesis_distribution(*old(self)),
                    hypothesis_distribution(*other),
                ),
            ),
    {
        let d: MultivariateNormalDistribution = match self.mode {
            BallMode::Moving(d) => d,
        };
        let o: MultivariateNormalDistribution = match other.mode {
            BallMode::Moving(o) => o,
        };
        self.mode = BallMode::Moving(fuse_full(&d, &o));
        if self.validity < other.validity {
            self.validity = other.validity;
        }
    }
}


/// The exact posterior of the full four-dimensional Kalman fusion
/// of two hypotheses, in the crate's truncating integer arithmetic:
/// the observation matrix is the identity, so the innovation
/// covariance is the sum of the two covariances; it is inverted
/// through its adjugate, and every gain application divides by its
/// determinant once.  A non-positive determinant, an out-of-range
/// result or a posterior covariance failing the
/// positive-semidefiniteness check falls back to the reseed state.
#[verifier::opaque]
pub open spec fn fuse_full_spec(
    d: MultivariateNormalDistribution,
    o: MultivariateNormalDistribution,
) -> MultivariateNormalDistribution {
    let m = d.covariance;
    let q = o.covariance;
    let s00 = m.a00 + q.a00;
    let s01 = m.a01 + q.a01;
    let s02 = m.b00 + q.b00;
    let s03 = m.b01 + q.b01;
    let s11 = m.a11 + q.a11;
    let s12 = m.b10 + q.b10;
    let s13 = m.b11 + q.b11;
    let s22 = m.c00 + q.c00;
    let s23 = m.c01 + q.c01;
    let s33 = m.c11 + q.c11;
    let adj00 = det3_spec(s11, s12, s13, s12, s22, s23, s13, s23, s33);
    let adj01 = -det3_spec(s01, s02, s03, s12, s22, s23, s13, s23, s33);
    let adj02 = det3_spec(s01, s02, s03, s11, s12, s13, s13, s23, s33);
    let adj03 = -det3_spec(s01, s02, s03, s11, s12, s13, s12, s22, s23);
    let adj11 = det3_spec(s00, s02, s03, s02, s22, s23, s03, s23, s33);
    let adj12 = -det3_spec(s00, s02, s03, s01, s12, s13, s03, s23, s33);
    let adj13 = det3_spec(s00, s02, s03, s01, s12, s13, s02, s22, s23);
    let adj22 = det3_spec(s00, s01, s03, s01, s11, s13, s03, s13, s33);
    let adj23 = -det3_spec(s00, s01, s03, s01, s11, s13, s02, s12, s23);
    let adj33 = det3_spec(s00, s01, s02, s01, s11, s12, s02, s12, s22);
    let det = s00 * adj00 + s01 * adj01 + s02 * adj02 + s03 * adj03;
    if det <= 0 {
        reseed_spec(d.mean_px as int, d.mean_py as int)
    } else {
        let y0 = o.mean_px - d.mean_px;
        let y1 = o.mean_py - d.mean_py;
        let y2 = o.mean_vx - d.mean_vx;
        let y3 = o.mean_vy - d.mean_vy;
        let w0 = adj00 * y0 + adj01 * y1 + adj02 * y2 + adj03 * y3;
        let w1 = adj01 * y0 + adj11 * y1 + adj12 * y2 + adj13 * y3;
        let w2 = adj02 * y0 + adj12 * y1 + adj22 * y2 + adj23 * y3;
        let w3 = adj03 * y0 + adj13 * y1 + adj23 * y2 + adj33 * y3;
        let px = d.mean_px + div_tz(m.a00 * w0 + m.a01 * w1 + m.b00 * w2 + m.b01 * w3, det);
        let py = d.mean_py + div_tz(m.a01 * w0 + m.a11 * w1 + m.b10 * w2 + m.b11 * w3, det);
        let vx = d.mean_vx + div_tz(m.b00 * w0 + m.b10 * w1 + m.c00 * w2 + m.c01 * w3, det);
        let vy = d.mean_vy + div_tz(m.b01 * w0 + m.b11 * w1 + m.c01 * w2 + m.c11 * w3, det);
        let v00 = m.a00 * adj00 + m.a01 * adj01 + m.b00 * adj02 + m.b01 * adj03;
        let v01 = m.a00 * adj01 + m.a01 * adj11 + m.b00 * adj12 + m.b01 * adj13;
        let v02 = m.a00 * adj02 + m.a01 * adj12 + m.b00 * adj22 + m.b01 * adj23;
        let v03 = m.a00 * adj03 + m.a01 * adj13 + m.b00 * adj23 + m.b01 * adj33;
        let v10 = m.a01 * adj00 + m.a11 * adj01 + m.b10 * adj02 + m.b11 * adj03;
        let v11 = m.a01 * adj01 + m.a11 * adj11 + m.b10 * adj12 + m.b11 * adj13;
        let v12 = m.a01 * adj02 + m.a11 * adj12 + m.b10 * adj22 + m.b11 * adj23;
        let v13 = m.a01 * adj03 + m.a11 * adj13 + m.b10 * adj23 + m.b11 * adj33;
        let v20 = m.b00 * adj00 + m.b10 * adj01 + m.c00 * adj02 + m.c01 * adj03;
        let v21 = m.b00 * adj01 + m.b10 * adj11 + m.c00 * adj12 + m.c01 * adj13;
        let v22 = m.b00 * adj02 + m.b10 * adj12 + m.c00 * adj22 + m.c01 * adj23;
        let v23 = m.b00 * adj03 + m.b10 * adj13 + m.c00 * adj23 + m.c01 * adj33;
        let v30 = m.b01 * adj00 + m.b11 * adj01 + m.c01 * adj02 + m.c11 * adj03;
        let v31 = m.b01 * adj01 + m.b11 * adj11 + m.c01 * adj12 + m.c11 * adj13;
        let v32 = m.b01 * adj02 + m.b11 * adj12 + m.c01 * adj22 + m.c11 * adj23;
        let v33 = m.b01 * adj03 + m.b11 * adj13 + m.c01 * adj23 + m.c11 * adj33;
        let t00 = div_tz(v00 * m.a00 + v01 * m.a01 + v02 * m.b00 + v03 * m.b01, det);
        let t01 = div_tz(v00 * m.a01 + v01 * m.a11 + v02 * m.b10 + v03 * m.b11, det);
        let t02 = div_tz(v00 * m.b00 + v01 * m.b10 + v02 * m.c00 + v03 * m.c01, det);
        let t03 = div_tz(v00 * m.b01 + v01 * m.b11 + v02 * m.c01 + v03 * m.c11, det);
        let t11 = div_tz(v10 * m.a01 + v11 * m.a11 + v12 * m.b10 + v13 * m.b11, det);
        let t12 = div_tz(v10 * m.b00 + v11 * m.b10 + v12 * m.c00 + v13 * m.c01, det);
        let t13 = div_tz(v10 * m.b01 + v11 * m.b11 + v12 * m.c01 + v13 * m.c11, det);
        let t22 = div_tz(v20 * m.b00 + v21 * m.b10 + v22 * m.c00 + v23 * m.c01, det);
        let t23 = div_tz(v20 * m.b01 + v21 * m.b11 + v22 * m.c01 + v23 * m.c11, det);
        let t33 = div_tz(v30 * m.b01 + v31 * m.b11 + v32 * m.c01 + v33 * m.c11, det);
        let n_a00 = m.a00 - t00;
        let n_a01 = m.a01 - t01;
        let n_b00 = m.b00 - t02;
        let n_b01 = m.b01 - t03;
        let n_a11 = m.a11 - t11;
        let n_b10 = m.b10 - t12;
        let n_b11 = m.b11 - t13;
        let n_c00 = m.c00 - t22;
        let n_c01 = m.c01 - t23;
        let n_c11 = m.c11 - t33;
        let in_range = {
            &&& -MEAN_LIMIT <= px <= MEAN_LIMIT
            &&& -MEAN_LIMIT <= py <= MEAN_LIMIT
            &&& -MEAN_LIMIT <= vx <= MEAN_LIMIT
            &&& -MEAN_LIMIT <= vy <= MEAN_LIMIT
            &&& -COV_LIMIT <= n_a00 <= COV_LIMIT
            &&& -COV_LIMIT <= n_a01 <= COV_LIMIT
            &&& -COV_LIMIT <= n_b00 <= COV_LIMIT
            &&& -COV_LIMIT <= n_b01 <= COV_LIMIT
            &&& -COV_LIMIT <= n_a11 <= COV_LIMIT
            &&& -COV_LIMIT <= n_b10 <= COV_LIMIT
            &&& -COV_LIMIT <= n_b11 <= COV_LIMIT
            &&& -COV_LIMIT <= n_c00 <= COV_LIMIT
            &&& -COV_LIMIT <= n_c01 <= COV_LIMIT
            &&& -COV_LIMIT <= n_c11 <= COV_LIMIT
        };
        let candidate = MultivariateNormalDistribution {
            mean_px: px as i64,
            mean_py: py as i64,
            mean_vx: vx as i64,
            mean_vy: vy as i64,
            covariance: CovarianceMatrix {
                a00: n_a00 as i64,
                a01: n_a01 as i64,
                a11: n_a11 as i64,
                b00: n_b00 as i64,
                b01: n_b01 as i64,
                b10: n_b10 as i64,
                b11: n_b11 as i64,
                c00: n_c00 as i64,
                c01: n_c01 as i64,
                c11: n_c11 as i64,
            },
        };
        if in_range && cov_psd(candidate.covariance) {
            candidate
        } else {
            reseed_spec(px, py)
        }
    }
}

/// Wide multiplication of a summed-covariance entry (or a prior
/// covariance entry) with an adjugate cofactor.
fn mul_sa(a: i64, b: i128) -> (r: i128)
    requires
        abs_spec(a as int) <= 2_000_000,
        abs_spec(b as int) <= 200_000_000_000_000_000_000,
    ensures
        r == a as int * b as int,
        abs_spec(r as int) <= 400_000_000_000_000_000_000_000_000,
{
    proof {
        crate::fixed::lemma_mul_bound(
            a as int,
            b as int,
            2_000_000,
            200_000_000_000_000_000_000,
        );
    }
    (a as i128) * b
}

/// Wide multiplication of an adjugate cofactor with an innovation
/// component.
fn mul_ay(a: i128, y: i128) -> (r: i128)
    requires
        abs_spec(a as int) <= 200_000_000_000_000_000_000,
        abs_spec(y as int) <= 2_000_000_000,
    ensures
        r == a as int * y as int,
        abs_spec(r as int) <= 400_000_000_000_000_000_000_000_000_000,
{
    proof {
        crate::fixed::lemma_mul_bound(
            a as int,
            y as int,
            200_000_000_000_000_000_000,
            2_000_000_000,
        );
    }
    a * y
}

/// Wide multiplication of a covariance entry with a gain numerator
/// component.
fn mul_pw(p: i64, w: i128) -> (r: i128)
    requires
        abs_spec(p as int) <= 1_000_000,
        abs_spec(w as int) <= 1_600_000_000_000_000_000_000_000_000_000,
    ensures
        r == p as int * w as int,
        abs_spec(r as int) <= 1_600_000_000_000_000_000_000_000_000_000_000_000,
{
    proof {
        crate::fixed::lemma_mul_bound(
            p as int,
            w as int,
            1_000_000,
            1_600_000_000_000_000_000_000_000_000_000,
        );
    }
    (p as i128) * w
}

/// Wide multiplication of a sandwich intermediate with a covariance
/// entry.
fn mul_vp(v: i128, p: i64) -> (r: i128)
    requires
        abs_spec(v as int) <= 2_000_000_000_000_000_000_000_000_000,
        abs_spec(p as int) <= 1_000_000,
    ensures
        r == v as int * p as int,
        abs_spec(r as int) <= 2_000_000_000_000_000_000_000_000_000_000_000,
{
    proof {
        crate::fixed::lemma_mul_bound(
            v as int,
            p as int,
            2_000_000_000_000_000_000_000_000_000,
            1_000_000,
        );
    }
    v * (p as i128)
}

/// Kalman-fuses one hypothesis's full four-dimensional Gaussian into
/// another's, with the identity observation matrix.  The returned
/// state is always well formed: degeneracies reseed from the fused
/// position.
#[verifier::rlimit(100)]
fn fuse_full(d: &MultivariateNormalDistribution, o: &MultivariateNormalDistribution) -> (r:
    MultivariateNormalDistribution)
    requires
        distribution_wf(*d),
        distribution_wf(*o),
    ensures
        distribution_wf(r),
        r == fuse_full_spec(*d, *o),
{
    proof {
        reveal(fuse_full_spec);
    }
    let m = d.covariance;
    let q = o.covariance;
    let s00: i64 = m.a00 + q.a00;
    let s01: i64 = m.a01 + q.a01;
    let s02: i64 = m.b00 + q.b00;
    let s03: i64 = m.b01 + q.b01;
    let s11: i64 = m.a11 + q.a11;
    let s12: i64 = m.b10 + q.b10;
    let s13: i64 = m.b11 + q.b11;
    let s22: i64 = m.c00 + q.c00;
    let s23: i64 = m.c01 + q.c01;
    let s33: i64 = m.c11 + q.c11;
    let adj00: i128 = det3(s11, s12, s13, s12, s22, s23, s13, s23, s33);
    let adj01: i128 = -det3(s01, s02, s03, s12, s22, s23, s13, s23, s33);
    let adj02: i128 = det3(s01, s02, s03, s11, s12, s13, s13, s23, s33);
    let adj03: i128 = -det3(s01, s02, s03, s11, s12, s13, s12, s22, s23);
    let adj11: i128 = det3(s00, s02, s03, s02, s22, s23, s03, s23, s33);
    let adj12: i128 = -det3(s00, s02, s03, s01, s12, s13, s03, s23, s33);
    let adj13: i128 = det3(s00, s02, s03, s01, s12, s13, s02, s22, s23);
    let adj22: i128 = det3(s00, s01, s03, s01, s11, s13, s03, s13, s33);
    let adj23: i128 = -det3(s00, s01, s03, s01, s11, s13, s02, s12, s23);
    let adj33: i128 = det3(s00, s01, s02, s01, s11, s12, s02, s12, s22);
    let det: i128 = mul_sa(s00, adj00) + mul_sa(s01, adj01) + mul_sa(s02, adj02) + mul_sa(
        s03,
        adj03,
    );
    if det <= 0 {
        return reseed_from(d.mean_px as i128, d.mean_py as i128);
    }
    let y0: i128 = (o.mean_px as i128) - (d.mean_px as i128);
    let y1: i128 = (o.mean_py as i128) - (d.mean_py as i128);
    let y2: i128 = (o.mean_vx as i128) - (d.mean_vx as i128);
    let y3: i128 = (o.mean_vy as i128) - (d.mean_vy as i128);
    let w0: i128 = mul_ay(adj00, y0) + mul_ay(adj01, y1) + mul_ay(adj02, y2) + mul_ay(adj03, y3);
    let w1: i128 = mul_ay(adj01, y0) + mul_ay(adj11, y1) + mul_ay(adj12, y2) + mul_ay(adj13, y3);
    let w2: i128 = mul_ay(adj02, y0) + mul_ay(adj12, y1) + mul_ay(adj22, y2) + mul_ay(adj23, y3);
    let w3: i128 = mul_ay(adj03, y0) + mul_ay(adj13, y1) + mul_ay(adj23, y2) + mul_ay(adj33, y3);
    let px: i128 = (d.mean_px as i128) + crate::fixed::div_i128(
        mul_pw(m.a00, w0) + mul_pw(m.a01, w1) + mul_pw(m.b00, w2) + mul_pw(m.b01, w3),
        det,
    );
    let py: i128 = (d.mean_py as i128) + crate::fixed::div_i128(
        mul_pw(m.a01, w0) + mul_pw(m.a11, w1) + mul_pw(m.b10, w2) + mul_pw(m.b11, w3),
        det,
    );
    let vx: i128 = (d.mean_vx as i128) + crate::fixed::div_i128(
        mul_pw(m.b00, w0) + mul_pw(m.b10, w1) + mul_pw(m.c00, w2) + mul_pw(m.c01, w3),
        det,
    );
    let vy: i128 = (d.mean_vy as i128) + crate::fixed::div_i128(
        mul_pw(m.b01, w0) + mul_pw(m.b11, w1) + mul_pw(m.c01, w2) + mul_pw(m.c11, w3),
        det,
    );
    let v00: i128 = mul_sa(m.a00, adj00) + mul_sa(m.a01, adj01) + mul_sa(m.b00, adj02) + mul_sa(m.b01, adj03);
    let v01: i128 = mul_sa(m.a00, adj01) + mul_sa(m.a01, adj11) + mul_sa(m.b00, adj12) + mul_sa(m.b01, adj13);
    let v02: i128 = mul_sa(m.a00, adj02) + mul_sa(m.a01, adj12) + mul_sa(m.b00, adj22) + mul_sa(m.b01, adj23);
    let v03: i128 = mul_sa(m.a00, adj03) + mul_sa(m.a01, adj13) + mul_sa(m.b00, adj23) + mul_sa(m.b01, adj33);
    let v10: i128 = mul_sa(m.a01, adj00) + mul_sa(m.a11, adj01) + mul_sa(m.b10, adj02) + mul_sa(m.b11, adj03);
    let v11: i128 = mul_sa(m.a01, adj01) + mul_sa(m.a11, adj11) + mul_sa(m.b10, adj12) + mul_sa(m.b11, adj13);
    let v12: i128 = mul_sa(m.a01, adj02) + mul_sa(m.a11, adj12) + mul_sa(m.b10, adj22) + mul_sa(m.b11, adj23);
    let v13: i128 = mul_sa(m.a01, adj03) + mul_sa(m.a11, adj13) + mul_sa(m.b10, adj23) + mul_sa(m.b11, adj33);
    let v20: i128 = mul_sa(m.b00, adj00) + mul_sa(m.b10, adj01) + mul_sa(m.c00, adj02) + mul_sa(m.c01, adj03);
    let v21: i128 = mul_sa(m.b00, adj01) + mul_sa(m.b10, adj11) + mul_sa(m.c00, adj12) + mul_sa(m.c01, adj13);
    let v22: i128 = mul_sa(m.b00, adj02) + mul_sa(m.b10, adj12) + mul_sa(m.c00, adj22) + mul_sa(m.c01, adj23);
    let v23: i128 = mul_sa(m.b00, adj03) + mul_sa(m.b10, adj13) + mul_sa(m.c00, adj23) + mul_sa(m.c01, adj33);
    let v30: i128 = mul_sa(m.b01, adj00) + mul_sa(m.b11, adj01) + mul_sa(m.c01, adj02) + mul_sa(m.c11, adj03);
    let v31: i128 = mul_sa(m.b01, adj01) + mul_sa(m.b11, adj11) + mul_sa(m.c01, adj12) + mul_sa(m.c11, adj13);
    let v32: i128 = mul_sa(m.b01, adj02) + mul_sa(m.b11, adj12) + mul_sa(m.c01, adj22) + mul_sa(m.c11, adj23);
    let v33: i128 = mul_sa(m.b01, adj03) + mul_sa(m.b11, adj13) + mul_sa(m.c01, adj23) + mul_sa(m.c11, adj33);
    let t00: i128 = crate::fixed::div_i128(mul_vp(v00, m.a00) + mul_vp(v01, m.a01) + mul_vp(v02, m.b00) + mul_vp(v03, m.b01), det);
    let t01: i128 = crate::fixed::div_i128(mul_vp(v00, m.a01) + mul_vp(v01, m.a11) + mul_vp(v02, m.b10) + mul_vp(v03, m.b11), det);
    let t02: i128 = crate::fixed::div_i128(mul_vp(v00, m.b00) + mul_vp(v01, m.b10) + mul_vp(v02, m.c00) + mul_vp(v03, m.c01), det);
    let t03: i128 = crate::fixed::div_i128(mul_vp(v00, m.b01) + mul_vp(v01, m.b11) + mul_vp(v02, m.c01) + mul_vp(v03, m.c11), det);
    let t11: i128 = crate::fixed::div_i128(mul_vp(v10, m.a01) + mul_vp(v11, m.a11) + mul_vp(v12, m.b10) + mul_vp(v13, m.b11), det);
    let t12: i128 = crate::fixed::div_i128(mul_vp(v10, m.b00) + mul_vp(v11, m.b10) + mul_vp(v12, m.c00) + mul_vp(v13, m.c01), det);
    let t13: i128 = crate::fixed::div_i128(mul_vp(v10, m.b01) + mul_vp(v11, m.b11) + mul_vp(v12, m.c01) + mul_vp(v13, m.c11), det);
    let t22: i128 = crate::fixed::div_i128(mul_vp(v20, m.b00) + mul_vp(v21, m.b10) + mul_vp(v22, m.c00) + mul_vp(v23, m.c01), det);
    let t23: i128 = crate::fixed::div_i128(mul_vp(v20, m.b01) + mul_vp(v21, m.b11) + mul_vp(v22, m.c01) + mul_vp(v23, m.c11), det);
    let t33: i128 = crate::fixed::div_i128(mul_vp(v30, m.b01) + mul_vp(v31, m.b11) + mul_vp(v32, m.c01) + mul_vp(v33, m.c11), det);
    let n_a00: i128 = (m.a00 as i128) - t00;
    let n_a01: i128 = (m.a01 as i128) - t01;
    let n_b00: i128 = (m.b00 as i128) - t02;
    let n_b01: i128 = (m.b01 as i128) - t03;
    let n_a11: i128 = (m.a11 as i128) - t11;
    let n_b10: i128 = (m.b10 as i128) - t12;
    let n_b11: i128 = (m.b11 as i128) - t13;
    let n_c00: i128 = (m.c00 as i128) - t22;
    let n_c01: i128 = (m.c01 as i128) - t23;
    let n_c11: i128 = (m.c11 as i128) - t33;
    let lim: i128 = COV_LIMIT as i128;
    let mlim: i128 = MEAN_LIMIT as i128;
    let in_range: bool = -mlim <= px && px <= mlim && -mlim <= py && py <= mlim && -mlim <= vx && vx <= mlim && -mlim <= vy && vy <= mlim && -lim <= n_a00 && n_a00 <= lim && -lim <= n_a01 && n_a01 <= lim && -lim <= n_a11 && n_a11 <= lim && -lim <= n_b00 && n_b00 <= lim && -lim <= n_b01 && n_b01 <= lim && -lim <= n_b10 && n_b10 <= lim && -lim <= n_b11 && n_b11 <= lim && -lim <= n_c00 && n_c00 <= lim && -lim <= n_c01 && n_c01 <= lim && -lim <= n_c11 && n_c11 <= lim;
    if in_range {
        let candidate = MultivariateNormalDistribution {
            mean_px: px as i64,
            mean_py: py as i64,
            mean_vx: vx as i64,
            mean_vy: vy as i64,
            covariance: CovarianceMatrix {
                a00: n_a00 as i64,
                a01: n_a01 as i64,
                a11: n_a11 as i64,
                b00: n_b00 as i64,
                b01: n_b01 as i64,
                b10: n_b10 as i64,
                b11: n_b11 as i64,
                c00: n_c00 as i64,
                c01: n_c01 as i64,
                c11: n_c11 as i64,
            },
        };
        if check_covariance(&candidate.covariance) {
            return candidate;
        }
    }
    reseed_from(px, py)
}

/// The published estimate of a hypothesis, at specification level.
pub open spec fn position_of(h: BallHypothesis) -> BallPosition {
    let d = hypothesis_distribution(h);
    BallPosition {
        position: Point2 { x: d.mean_px, y: d.mean_py },
        velocity: Vector2 { x: d.mean_vx, y: d.mean_vy },
        last_seen_ms: h.last_seen_ms,
    }
}

/// The bank of tracked hypotheses.
#[derive(Clone, Debug)]
pub struct BallFilter {
    pub hypotheses: Vec<BallHypothesis>,
}

/// Every carried hypothesis is well formed.
pub open spec fn filter_wf(f: BallFilter) -> bool {
    forall|i: int| 0 <= i < f.hypotheses@.len() ==> hypothesis_wf(#[trigger] f.hypotheses@[i])
}

impl BallFilter {
    /// An empty bank.
    pub fn new() -> (r: BallFilter)
        ensures
            r.hypotheses@.len() == 0,
            filter_wf(r),
    {
        BallFilter { hypotheses: Vec::new() }
    }

    /// Propagates every hypothesis by one cycle, element by element.
    pub fn predict(
        &mut self,
        delta_time_ms: u64,
        last_to_current_odometry: &Transform2,
        velocity_decay: i64,
        moving_process_noise: &CovarianceMatrix,
    )
        requires
            filter_wf(*old(self)),
            delta_time_ms <= 60_000,
            0 <= velocity_decay <= SCALE,
            cov_in_range(*moving_process_noise),
            transform_wf(*last_to_current_odometry),
        ensures
            filter_wf(*final(self)),
            final(self).hypotheses@.len() == old(self).hypotheses@.len(),
            forall|i: int|
                0 <= i < old(self).hypotheses@.len() ==> final(self).hypotheses@[i] == (
                BallHypothesis {
                    mode: BallMode::Moving(
                        predict_spec(
                            hypothesis_distribution(#[trigger] old(self).hypotheses@[i]),
                            delta_time_ms as int,
                            *last_to_current_odometry,
                            velocity_decay as int,
                            *moving_process_noise,
                        ),
                    ),
                    last_seen_ms: old(self).hypotheses@[i].last_seen_ms,
                    validity: old(self).hypotheses@[i].validity,
                }),
    {
        let n: usize = self.hypotheses.len();
        let mut i: usize = 0;
        while i < n
            invariant
                i <= n,
                n == self.hypotheses@.len(),
                filter_wf(*self),
                delta_time_ms <= 60_000,
                0 <= velocity_decay <= SCALE,
                cov_in_range(*moving_process_noise),
                transform_wf(*last_to_current_odometry),
                forall|k: int| i <= k < n ==> self.hypotheses@[k] == old(self).hypotheses@[k],
                forall|k: int|
                    0 <= k < i ==> self.hypotheses@[k] == (BallHypothesis {
                        mode: BallMode::Moving(
                            predict_spec(
                                hypothesis_distribution(#[trigger] old(self).hypotheses@[k]),
                                delta_time_ms as int,
                                *last_to_current_odometry,
                                velocity_decay as int,
                                *moving_process_noise,
                            ),
                        ),
                        last_seen_ms: old(self).hypotheses@[k].last_seen_ms,
                        validity: old(self).hypotheses@[k].validity,
                    }),
            decreases n - i,
        {
            let mut h: BallHypothesis = self.hypotheses[i];
            h.predict(
                delta_time_ms,
                last_to_current_odometry,
                velocity_decay,
                moving_process_noise,
            );
            self.hypotheses[i] = h;
            i = i + 1;
        }
    }

    /// Folds a detection into the gating hypothesis of highest
    /// validity, leaving every other hypothesis untouched; when the
    /// detection gates nowhere, a fresh hypothesis seeded with the
    /// measured position, zero velocity and the reseed covariance is
    /// appended at full validity.
    #[verifier::rlimit(50)]
    pub fn update(&mut self, detection_time_ms: u64, measurement: Measurement2, validity_bonus:
        i64)
        requires
            filter_wf(*old(self)),
            measurement_wf(measurement),
            0 <= validity_bonus <= 1_000_000,
            old(self).hypotheses@.len() < 1000,
            forall|i: int|
                0 <= i < old(self).hypotheses@.len() ==> (#[trigger] old(self).hypotheses@[i]).validity + validity_bonus <= VALIDITY_LIMIT,
        ensures
            filter_wf(*final(self)),
            (forall|i: int|
                0 <= i < old(self).hypotheses@.len() ==> !gates_spec(
                    hypothesis_distribution(#[trigger] old(self).hypotheses@[i]),
                    measurement,
                )) ==> (final(self).hypotheses@.len() == old(self).hypotheses@.len() + 1 && (
            forall|i: int|
                0 <= i < old(self).hypotheses@.len() ==> final(self).hypotheses@[i] == old(self).hypotheses@[i]) && final(self).hypotheses@.last() == (BallHypothesis {
                mode: BallMode::Moving(
                    reseed_spec(measurement.mean_x as int, measurement.mean_y as int),
                ),
                last_seen_ms: detection_time_ms,
                validity: SCALE,
            })),
            (exists|i: int|
                0 <= i < old(self).hypotheses@.len() && gates_spec(
                    hypothesis_distribution(#[trigger] old(self).hypotheses@[i]),
                    measurement,
                )) ==> (final(self).hypotheses@.len() == old(self).hypotheses@.len() && (exists|b: int|
                {
                    &&& 0 <= b < old(self).hypotheses@.len()
                    &&& gates_spec(
                        hypothesis_distribution(#[trigger] old(self).hypotheses@[b]),
                        measurement,
                    )
                    &&& (forall|k: int|
                        (0 <= k < old(self).hypotheses@.len() && gates_spec(
                            hypothesis_distribution(#[trigger] old(self).hypotheses@[k]),
                            measurement,
                        )) ==> old(self).hypotheses@[k].validity <= old(self).hypotheses@[b].validity)
                    &&& final(self).hypotheses@[b] == (BallHypothesis {
                        mode: BallMode::Moving(
                            fuse_position_spec(
                                hypothesis_distribution(old(self).hypotheses@[b]),
                                measurement,
                            ),
                        ),
                        last_seen_ms: detection_time_ms,
                        validity: (old(self).hypotheses@[b].validity + validity_bonus) as i64,
                    })
                    &&& (forall|k: int|
                        (0 <= k < old(self).hypotheses@.len() && k != b) ==> final(self).hypotheses@[k] == old(self).hypotheses@[k])
                })),
    {
        let n: usize = self.hypotheses.len();
        let mut best: usize = n;
        let mut i: usize = 0;
        while i < n
            invariant
                i <= n,
                n == self.hypotheses@.len(),
                filter_wf(*self),
                *self == *old(self),
                measurement_wf(measurement),
                best <= n,
                best < n ==> gates_spec(
                    hypothesis_distribution(self.hypotheses@[best as int]),
                    measurement,
                ),
                best < n ==> forall|k: int|
                    (0 <= k < i && gates_spec(
                        hypothesis_distribution(#[trigger] self.hypotheses@[k]),
                        measurement,
                    )) ==> self.hypotheses@[k].validity <= self.hypotheses@[best as int].validity,
                best == n ==> forall|k: int|
                    0 <= k < i ==> !gates_spec(
                        hypothesis_distribution(#[trigger] self.hypotheses@[k]),
                        measurement,
                    ),
            decreases n - i,
        {
            let h: BallHypothesis = self.hypotheses[i];
            let d: MultivariateNormalDistribution = match h.mode {
                BallMode::Moving(d) => d,
            };
            if measurement_gates(&d, &measurement) {
                if best == n {
                    best = i;
                } else {
                    let hb: BallHypothesis = self.hypotheses[best];
                    if h.validity > hb.validity {
                        best = i;
                    }
                }
            }
            i = i + 1;
        }
        if best < n {
            let mut h: BallHypothesis = self.hypotheses[best];
            h.update(detection_time_ms, measurement, validity_bonus);
            self.hypotheses[best] = h;
            proof {
                let b = best as int;
                assert(gates_spec(
                    hypothesis_distribution(old(self).hypotheses@[b]),
                    measurement,
                ));
                assert(self.hypotheses@[b] == (BallHypothesis {
                    mode: BallMode::Moving(
                        fuse_position_spec(
                            hypothesis_distribution(old(self).hypotheses@[b]),
                            measurement,
                        ),
                    ),
                    last_seen_ms: detection_time_ms,
                    validity: (old(self).hypotheses@[b].validity + validity_bonus) as i64,
                }));
            }
        } else {
            let seeded = MultivariateNormalDistribution {
                mean_px: measurement.mean_x,
                mean_py: measurement.mean_y,
                mean_vx: 0,
                mean_vy: 0,
                covariance: CovarianceMatrix {
                    a00: RESEED_VARIANCE,
                    a01: 0,
                    a11: RESEED_VARIANCE,
                    b00: 0,
                    b01: 0,
                    b10: 0,
                    b11: 0,
                    c00: RESEED_VARIANCE,
                    c01: 0,
                    c11: RESEED_VARIANCE,
                },
            };
            proof {
                lemma_reseed_wf(measurement.mean_x as int, measurement.mean_y as int);
                assert(seeded == reseed_spec(measurement.mean_x as int, measurement.mean_y as int));
            }
            let h = BallHypothesis::new(seeded, detection_time_ms);
            self.hypotheses.push(h);
        }
    }

    /// Ages every hypothesis by one cycle (the validity decays by the
    /// given thousandths factor) and drops those below the validity
    /// floor or unseen for longer than the timeout: the result is
    /// exactly the aged survivors, in their original order.
    pub fn decay_and_prune(
        &mut self,
        now_ms: u64,
        keep_factor_milli: i64,
        min_validity: i64,
        hypothesis_timeout_ms: u64,
    )
        requires
            filter_wf(*old(self)),
            0 <= keep_factor_milli <= SCALE,
            min_validity >= 0,
        ensures
            filter_wf(*final(self)),
            final(self).hypotheses@ == aged_survivors_spec(
                old(self).hypotheses@,
                0,
                now_ms,
                keep_factor_milli as int,
                min_validity as int,
                hypothesis_timeout_ms,
            ),
            forall|i: int|
                0 <= i < final(self).hypotheses@.len() ==> (#[trigger] final(self).hypotheses@[i]).validity >= min_validity,
            forall|i: int|
                0 <= i < final(self).hypotheses@.len() ==> elapsed_ms_spec(
                    now_ms,
                    (#[trigger] final(self).hypotheses@[i]).last_seen_ms,
                ) <= hypothesis_timeout_ms,
    {
        let n: usize = self.hypotheses.len();
        let mut kept: Vec<BallHypothesis> = Vec::new();
        let mut i: usize = 0;
        while i < n
            invariant
                i <= n,
                n == self.hypotheses@.len(),
                filter_wf(*self),
                *self == *old(self),
                0 <= keep_factor_milli <= SCALE,
                min_validity >= 0,
                aged_survivors_spec(
                    self.hypotheses@,
                    0,
                    now_ms,
                    keep_factor_milli as int,
                    min_validity as int,
                    hypothesis_timeout_ms,
                ) == kept@ + aged_survivors_spec(
                    self.hypotheses@,
                    i as int,
                    now_ms,
                    keep_factor_milli as int,
                    min_validity as int,
                    hypothesis_timeout_ms,
                ),
                forall|k: int| 0 <= k < kept@.len() ==> hypothesis_wf(#[trigger] kept@[k]),
                forall|k: int|
                    0 <= k < kept@.len() ==> (#[trigger] kept@[k]).validity >= min_validity,
                forall|k: int|
                    0 <= k < kept@.len() ==> elapsed_ms_spec(
                        now_ms,
                        (#[trigger] kept@[k]).last_seen_ms,
                    ) <= hypothesis_timeout_ms,
            decreases n - i,
        {
            let h: BallHypothesis = self.hypotheses[i];
            proof {
                crate::fixed::lemma_mul_div_fraction(
                    h.validity as int,
                    keep_factor_milli as int,
                    SCALE as int,
                );
            }
            let decayed_validity: i64 = crate::fixed::mul_div(
                h.validity,
                keep_factor_milli,
                SCALE,
            );
            let aged = BallHypothesis {
                mode: h.mode,
                last_seen_ms: h.last_seen_ms,
                validity: decayed_validity,
            };
            let fresh: bool = crate::fixed::saturating_elapsed(now_ms, h.last_seen_ms)
                <= hypothesis_timeout_ms;
            proof {
                assert(kept@ + aged_survivors_spec(
                    self.hypotheses@,
                    i as int,
                    now_ms,
                    keep_factor_milli as int,
                    min_validity as int,
                    hypothesis_timeout_ms,
                ) =~= (if decayed_validity >= min_validity && fresh {
                    kept@.push(aged)
                } else {
                    kept@
                }) + aged_survivors_spec(
                    self.hypotheses@,
                    i as int + 1,
                    now_ms,
                    keep_factor_milli as int,
                    min_validity as int,
                    hypothesis_timeout_ms,
                ));
            }
            if decayed_validity >= min_validity && fresh {
                kept.push(aged);
            }
            i = i + 1;
        }
        proof {
            assert(kept@ + aged_survivors_spec(
                self.hypotheses@,
                n as int,
                now_ms,
                keep_factor_milli as int,
                min_validity as int,
                hypothesis_timeout_ms,
            ) =~= kept@);
        }
        self.hypotheses = kept;
    }

    /// The estimate of the hypothesis with the highest validity, if
    /// any hypothesis is tracked at all.
    pub fn best_position(&self) -> (r: Option<BallPosition>)
        requires
            filter_wf(*self),
        ensures
            (self.hypotheses@.len() == 0) == (r is None),
            r matches Some(p) ==> exists|i: int|
                0 <= i < self.hypotheses@.len() && p == position_of(
                    #[trigger] self.hypotheses@[i],
                ) && forall|k: int|
                    0 <= k < self.hypotheses@.len() ==> (#[trigger] self.hypotheses@[k]).validity
                        <= self.hypotheses@[i].validity,
    {
        let n: usize = self.hypotheses.len();
        if n == 0 {
            return None;
        }
        let mut best: usize = 0;
        let mut i: usize = 1;
        while i < n
            invariant
                1 <= i <= n,
                n == self.hypotheses@.len(),
                best < i,
                forall|k: int|
                    0 <= k < i ==> (#[trigger] self.hypotheses@[k]).validity
                        <= self.hypotheses@[best as int].validity,
            decreases n - i,
        {
            let h: BallHypothesis = self.hypotheses[i];
            let hb: BallHypothesis = self.hypotheses[best];
            if h.validity > hb.validity {
                best = i;
            }
            i = i + 1;
        }
        let h: BallHypothesis = self.hypotheses[best];
        Some(h.position())
    }
}


/// The aged survivors of the bank from position `i` on: each
/// hypothesis's validity is decayed by the keep factor, and only those
/// above the validity floor and seen within the timeout remain, in
/// order.
pub open spec fn aged_survivors_spec(
    s: Seq<BallHypothesis>,
    i: int,
    now_ms: u64,
    keep_factor_milli: int,
    min_validity: int,
    hypothesis_timeout_ms: u64,
) -> Seq<BallHypothesis>
    decreases s.len() - i,
{
    if i < 0 || i >= s.len() {
        Seq::empty()
    } else {
        let h = s[i];
        let aged = BallHypothesis {
            mode: h.mode,
            last_seen_ms: h.last_seen_ms,
            validity: crate::fixed::mul_div_tz(
                h.validity as int,
                keep_factor_milli,
                SCALE as int,
            ) as i64,
        };
        let keep_it = aged.validity >= min_validity && elapsed_ms_spec(now_ms, h.last_seen_ms)
            <= hypothesis_timeout_ms;
        let rest = aged_survivors_spec(
            s,
            i + 1,
            now_ms,
            keep_factor_milli,
            min_validity,
            hypothesis_timeout_ms,
        );
        if keep_it {
            seq![aged] + rest
        } else {
            rest
        }
    }
}

/// Elapsed milliseconds, clamped at zero, as a specification value.
pub open spec fn elapsed_ms_spec(now_ms: u64, earlier_ms: u64) -> int {
    if now_ms >= earlier_ms {
        now_ms - earlier_ms
    } else {
        0
    }
}

} // verus!




