//! The ball hypothesis filter: gating, idempotence and the validity
//! lifecycle.  Distances are millimetres, variances square
//! millimetres.

use control_core::ball_filter::{
    BallFilter, BallHypothesis, BallMode, CovarianceMatrix, Measurement2,
    MultivariateNormalDistribution,
};
use control_core::odometry::Transform2;

fn diagonal_covariance(position: i64, velocity: i64) -> CovarianceMatrix {
    CovarianceMatrix {
        a00: position,
        a01: 0,
        a11: position,
        b00: 0,
        b01: 0,
        b10: 0,
        b11: 0,
        c00: velocity,
        c01: 0,
        c11: velocity,
    }
}

fn zero_noise() -> CovarianceMatrix {
    diagonal_covariance(0, 0)
}

fn origin_hypothesis() -> BallHypothesis {
    // mean at the origin with resting velocity; position variance a
    // tenth of a square metre, velocity variance a square metre
    let distribution = MultivariateNormalDistribution {
        mean_px: 0,
        mean_py: 0,
        mean_vx: 0,
        mean_vy: 0,
        covariance: diagonal_covariance(100_000, 1_000_000),
    };
    BallHypothesis::new(distribution, 0)
}

#[test]
fn far_measurement_spawns_and_near_measurement_gates() {
    let mut filter = BallFilter::new();
    filter.hypotheses.push(origin_hypothesis());

    // a detection ten metres away must not gate into the origin
    // hypothesis: a second hypothesis is spawned
    let far = Measurement2 {
        mean_x: 10_000,
        mean_y: 10_000,
        r00: 10_000,
        r01: 0,
        r11: 10_000,
    };
    filter.update(10, far, 100);
    assert_eq!(filter.hypotheses.len(), 2);

    // a detection right next to the origin gates into the original
    // hypothesis: no new hypothesis appears
    let near = Measurement2 {
        mean_x: 50,
        mean_y: 30,
        r00: 10_000,
        r01: 0,
        r11: 10_000,
    };
    filter.update(20, near, 100);
    assert_eq!(filter.hypotheses.len(), 2);
    assert_eq!(filter.hypotheses[0].last_seen_ms, 20);
    // the posterior is the exact truncating Kalman update: the gain
    // 100/110 pulls the mean to (45, 27) and shrinks the position
    // variance to a hundred and ten thousandths of its prior
    let fused = filter.hypotheses[0].position();
    assert_eq!(fused.position.x, 45);
    assert_eq!(fused.position.y, 27);
    let (a00, a01, a11) = filter.hypotheses[0].position_covariance();
    assert_eq!(a00, 9091);
    assert_eq!(a01, 0);
    assert_eq!(a11, 9091);
}

#[test]
fn predict_with_zero_step_and_identity_odometry_is_identity() {
    let mut hypothesis = origin_hypothesis();
    let before = hypothesis;
    let identity = Transform2::identity();
    hypothesis.predict(0, &identity, 1000, &zero_noise());
    assert_eq!(hypothesis, before);
}

#[test]
fn predict_advances_position_by_velocity() {
    let distribution = MultivariateNormalDistribution {
        mean_px: 1000,
        mean_py: 0,
        mean_vx: 500,
        mean_vy: -250,
        covariance: diagonal_covariance(100_000, 1_000_000),
    };
    let mut hypothesis = BallHypothesis::new(distribution, 0);
    let identity = Transform2::identity();
    // one hundred milliseconds at half a metre per second
    hypothesis.predict(100, &identity, 1000, &zero_noise());
    let position = hypothesis.position();
    assert_eq!(position.position.x, 1050);
    assert_eq!(position.position.y, -25);
}

#[test]
fn update_with_the_mean_and_huge_noise_changes_nothing() {
    let mut hypothesis = origin_hypothesis();
    let before = hypothesis;
    // a measurement equal to the mean with near-infinite noise: the
    // gain underflows to zero and the state is untouched, while the
    // bookkeeping still records the supporting detection
    let vague = Measurement2 {
        mean_x: 0,
        mean_y: 0,
        r00: 1_000_000_000_000,
        r01: 0,
        r11: 1_000_000_000_000,
    };
    hypothesis.update(42, vague, 100);
    let d_before = match before.mode {
        BallMode::Moving(d) => d,
    };
    let d_after = match hypothesis.mode {
        BallMode::Moving(d) => d,
    };
    assert_eq!(d_after, d_before);
    assert_eq!(hypothesis.last_seen_ms, 42);
    assert_eq!(hypothesis.validity, before.validity + 100);
}

#[test]
fn update_pulls_the_mean_toward_the_measurement() {
    let mut hypothesis = origin_hypothesis();
    let measurement = Measurement2 {
        mean_x: 1000,
        mean_y: 0,
        r00: 100_000,
        r01: 0,
        r11: 100_000,
    };
    hypothesis.update(10, measurement, 100);
    let position = hypothesis.position();
    // equal variances pull the mean halfway toward the measurement
    assert_eq!(position.position.x, 500);
    assert_eq!(position.position.y, 0);
}

#[test]
fn merge_keeps_the_larger_validity() {
    let mut first = origin_hypothesis();
    let mut second = origin_hypothesis();
    second.validity = 5000;
    first.merge(&second);
    assert_eq!(first.validity, 5000);
}

#[test]
fn merge_fuses_the_full_state_including_velocity() {
    // two hypotheses at the same position with equal covariances but
    // different velocities: the identity-observation fusion averages
    // the velocity and halves the covariance
    let mut first = origin_hypothesis();
    let moving = MultivariateNormalDistribution {
        mean_px: 0,
        mean_py: 0,
        mean_vx: 1000,
        mean_vy: 0,
        covariance: diagonal_covariance(100_000, 1_000_000),
    };
    let second = BallHypothesis::new(moving, 5);
    first.merge(&second);
    let d = match first.mode {
        BallMode::Moving(d) => d,
    };
    assert_eq!(d.mean_px, 0);
    assert_eq!(d.mean_py, 0);
    assert_eq!(d.mean_vx, 500);
    assert_eq!(d.mean_vy, 0);
    assert_eq!(d.covariance, diagonal_covariance(50_000, 500_000));
}

#[test]
fn merge_matches_the_exact_fused_posterior() {
    // a fusion with cross terms, against the exact truncating values
    let first_distribution = MultivariateNormalDistribution {
        mean_px: 1000,
        mean_py: -500,
        mean_vx: 200,
        mean_vy: 0,
        covariance: CovarianceMatrix {
            a00: 100_000,
            a01: 5_000,
            a11: 120_000,
            b00: 20_000,
            b01: 0,
            b10: 0,
            b11: 10_000,
            c00: 900_000,
            c01: -30_000,
            c11: 800_000,
        },
    };
    let second_distribution = MultivariateNormalDistribution {
        mean_px: 1100,
        mean_py: -450,
        mean_vx: -300,
        mean_vy: 100,
        covariance: CovarianceMatrix {
            a00: 80_000,
            a01: -4_000,
            a11: 90_000,
            b00: 0,
            b01: 0,
            b10: 0,
            b11: 0,
            c00: 700_000,
            c01: 0,
            c11: 600_000,
        },
    };
    let mut first = BallHypothesis::new(first_distribution, 3);
    let second = BallHypothesis::new(second_distribution, 4);
    first.merge(&second);
    let d = match first.mode {
        BallMode::Moving(d) => d,
    };
    assert_eq!(d.mean_px, 1053);
    assert_eq!(d.mean_py, -469);
    assert_eq!(d.mean_vx, -76);
    assert_eq!(d.mean_vy, 62);
    assert_eq!(
        d.covariance,
        CovarianceMatrix {
            a00: 44_301,
            a01: -314,
            a11: 51_307,
            b00: 3_895,
            b01: -19,
            b10: -175,
            b11: 1_835,
            c00: 393_201,
            c01: -5_637,
            c11: 342_667,
        }
    );
    assert_eq!(first.last_seen_ms, 3);
}

#[test]
fn decay_and_prune_drops_stale_hypotheses() {
    let mut filter = BallFilter::new();
    filter.hypotheses.push(origin_hypothesis());
    let mut old = origin_hypothesis();
    old.last_seen_ms = 0;
    old.validity = 100;
    filter.hypotheses.push(old);

    filter.hypotheses[0].last_seen_ms = 9_500;
    // at ten seconds, with a two-second timeout and a validity floor,
    // only the freshly seen hypothesis survives
    filter.decay_and_prune(10_000, 900, 80, 2_000);
    assert_eq!(filter.hypotheses.len(), 1);
    assert_eq!(filter.hypotheses[0].last_seen_ms, 9_500);
}

#[test]
fn best_position_selects_the_highest_validity() {
    let mut filter = BallFilter::new();
    assert!(filter.best_position().is_none());
    let mut weak = origin_hypothesis();
    weak.validity = 100;
    let strong_distribution = MultivariateNormalDistribution {
        mean_px: 777,
        mean_py: -3,
        mean_vx: 0,
        mean_vy: 0,
        covariance: diagonal_covariance(100_000, 1_000_000),
    };
    let strong = BallHypothesis::new(strong_distribution, 7);
    filter.hypotheses.push(weak);
    filter.hypotheses.push(strong);
    let best = filter.best_position().unwrap();
    assert_eq!(best.position.x, 777);
    assert_eq!(best.last_seen_ms, 7);
}
