//! The walking engine's catching overlay: when the zero-moment point
//! escapes the support polygon spanned by the soles, the swing foot is
//! displaced toward the escape point, within anatomic bounds.
//!
//! All positions live in the walk frame (support-foot fixed), in
//! millimetres.

use vstd::prelude::*;
use crate::command::Side;
use crate::fixed::{mul_div_tz, SCALE};
use crate::geometry::{cross_spec, Orientation, Point2};
use crate::odometry::{apply_x_spec, apply_y_spec, transform_wf, Transform2};

verus! {

/// A planar pose: a position and a heading.
#[derive(Clone, Copy, Debug, PartialEq, Eq, Structural)]
pub struct Pose2 {
    pub position: Point2,
    pub orientation: Orientation,
}

impl Pose2 {
    /// The pose seen as the rigid motion that carries the origin onto
    /// it.
    pub open spec fn as_transform_spec(self) -> Transform2 {
        Transform2 {
            rot: self.orientation,
            translation: crate::geometry::Vector2 { x: self.position.x, y: self.position.y },
        }
    }
}

/// Both soles of the robot in the walk frame.
#[derive(Clone, Copy, Debug, PartialEq, Eq, Structural)]
pub struct Feet {
    pub support_sole: Pose2,
    pub swing_sole: Pose2,
}

/// The plan of one step: which side supports and how the feet travel.
#[derive(Clone, Copy, Debug, PartialEq, Eq, Structural)]
pub struct StepPlan {
    pub support_side: Side,
    pub start_feet: Feet,
    pub end_feet: Feet,
}

/// The executing step: its plan and the time spent in it.
#[derive(Clone, Copy, Debug, PartialEq, Eq, Structural)]
pub struct StepState {
    pub plan: StepPlan,
    pub time_since_start_ms: u64,
}

/// The tunables of the catching overlay, in millimetres and
/// thousandths.
#[derive(Clone, Copy, Debug, PartialEq, Eq, Structural)]
pub struct CatchingStepsParameters {
    pub enabled: bool,
    pub max_target_distance_x: i64,
    pub max_target_distance_y: i64,
    pub target_x_scale_forward_milli: i64,
    pub target_x_scale_backward_milli: i64,
    pub target_y_scale_milli: i64,
    pub over_estimation_factor_milli: i64,
    pub foot_support_min_x: i64,
    pub foot_support_max_x: i64,
    pub foot_support_min_y: i64,
    pub foot_support_max_y: i64,
    pub swing_reach_min_x: i64,
    pub swing_reach_max_x: i64,
    pub swing_reach_min_y: i64,
    pub swing_reach_max_y: i64,
    pub swing_base_offset_x: i64,
    pub swing_base_offset_y_left_support: i64,
    pub swing_base_offset_y_right_support: i64,
}

/// Sensible catching parameters: scales within a unit range, bounds
/// ordered and within the coordinate range.
pub open spec fn catching_parameters_wf(p: CatchingStepsParameters) -> bool {
    &&& 0 <= p.target_x_scale_forward_milli <= 10 * SCALE
    &&& 0 <= p.target_x_scale_backward_milli <= 10 * SCALE
    &&& 0 <= p.target_y_scale_milli <= 10 * SCALE
    &&& 0 <= p.over_estimation_factor_milli <= 10 * SCALE
    &&& 0 < p.max_target_distance_x <= 1_000_000
    &&& 0 < p.max_target_distance_y <= 1_000_000
    &&& -1_000_000 <= p.foot_support_min_x <= p.foot_support_max_x <= 1_000_000
    &&& -1_000_000 <= p.foot_support_min_y <= p.foot_support_max_y <= 1_000_000
    &&& -1_000_000 <= p.swing_reach_min_x <= p.swing_reach_max_x <= 1_000_000
    &&& -1_000_000 <= p.swing_reach_min_y <= p.swing_reach_max_y <= 1_000_000
    &&& -1_000_000 <= p.swing_base_offset_x <= 1_000_000
    &&& -1_000_000 <= p.swing_base_offset_y_left_support <= 1_000_000
    &&& -1_000_000 <= p.swing_base_offset_y_right_support <= 1_000_000
}

/// Whether the pair `(i, j)` of the cloud spans a line with every
/// cloud point on its counterclockwise side and the target strictly on
/// the other: a witness that the target lies outside the convex hull.
pub open spec fn separating_pair_spec(points: Seq<Point2>, i: int, j: int, target: Point2) -> bool {
    &&& (forall|k: int|
        0 <= k < points.len() ==> cross_spec(points[i], points[j], #[trigger] points[k]) >= 0)
    &&& cross_spec(points[i], points[j], target) < 0
}

/// The target lies inside the convex hull of the cloud exactly when no
/// pair of cloud points separates it.  (For a full-dimensional cloud
/// this is the standard support characterisation of the hull.)
pub open spec fn inside_hull_spec(points: Seq<Point2>, target: Point2) -> bool {
    !(exists|i: int, j: int|
        0 <= i < points.len() && 0 <= j < points.len() && separating_pair_spec(
            points,
            i,
            j,
            target,
        ))
}

/// Whether the directed pair `(i, j)` separates the target from the
/// whole cloud.
fn pair_separates(points: &Vec<Point2>, i: usize, j: usize, target: Point2) -> (r: bool)
    requires
        i < points@.len(),
        j < points@.len(),
        forall|k: int| 0 <= k < points@.len() ==> (#[trigger] points@[k]).wf(),
        target.wf(),
    ensures
        r == separating_pair_spec(points@, i as int, j as int, target),
{
    let a: Point2 = points[i];
    let b: Point2 = points[j];
    let n: usize = points.len();
    let mut k: usize = 0;
    while k < n
        invariant
            k <= n,
            n == points@.len(),
            i < n,
            j < n,
            a == points@[i as int],
            b == points@[j as int],
            target.wf(),
            forall|m: int| 0 <= m < points@.len() ==> (#[trigger] points@[m]).wf(),
            forall|m: int| 0 <= m < k ==> cross_spec(a, b, #[trigger] points@[m]) >= 0,
        decreases n - k,
    {
        let p: Point2 = points[k];
        proof {
            crate::geometry::lemma_cross_fits(a, b, p);
        }
        let cx: i128 = ((b.x - a.x) as i128) * ((p.y - a.y) as i128) - ((b.y - a.y) as i128) * ((
        p.x - a.x) as i128);
        if cx < 0 {
            return false;
        }
        k = k + 1;
    }
    proof {
        crate::geometry::lemma_cross_fits(a, b, target);
    }
    let ct: i128 = ((b.x - a.x) as i128) * ((target.y - a.y) as i128) - ((b.y - a.y) as i128) * ((
    target.x - a.x) as i128);
    ct < 0
}

/// Decides `inside_hull_spec` by scanning all directed pairs.
pub fn is_inside_convex_hull(points: &Vec<Point2>, target: Point2) -> (r: bool)
    requires
        forall|k: int| 0 <= k < points@.len() ==> (#[trigger] points@[k]).wf(),
        target.wf(),
    ensures
        r == inside_hull_spec(points@, target),
{
    let n: usize = points.len();
    let mut i: usize = 0;
    while i < n
        invariant
            i <= n,
            n == points@.len(),
            target.wf(),
            forall|k: int| 0 <= k < points@.len() ==> (#[trigger] points@[k]).wf(),
            forall|a: int, b: int|
                0 <= a < i && 0 <= b < n ==> !separating_pair_spec(points@, a, b, target),
        decreases n - i,
    {
        let mut j: usize = 0;
        while j < n
            invariant
                i < n,
                j <= n,
                n == points@.len(),
                target.wf(),
                forall|k: int| 0 <= k < points@.len() ==> (#[trigger] points@[k]).wf(),
                forall|b: int| 0 <= b < j ==> !separating_pair_spec(points@, i as int, b, target),
            decreases n - j,
        {
            if pair_separates(points, i, j, target) {
                return false;
            }
            j = j + 1;
        }
        proof {
            assert(forall|b: int|
                0 <= b < n ==> !separating_pair_spec(points@, i as int, b, target));
        }
        i = i + 1;
    }
    true
}


/// How far the sole corners reach from the ankle, in millimetres.
pub const SOLE_FRONT: i64 = 110;

/// How far the sole reaches backwards.
pub const SOLE_BACK: i64 = -50;

/// The outer sole edge, positive toward the outside of the foot.
pub const SOLE_OUTER: i64 = 50;

/// The inner sole edge.
pub const SOLE_INNER: i64 = -40;

/// The corners of one sole in its own frame: front-outer, front-inner,
/// back-inner, back-outer.  The left foot's outer edge points left
/// (positive y), the right foot's outer edge right.
pub open spec fn sole_corner_spec(side: Side, k: int) -> Point2 {
    let outer = if side == Side::Left {
        SOLE_OUTER as int
    } else {
        -(SOLE_OUTER as int)
    };
    let inner = if side == Side::Left {
        SOLE_INNER as int
    } else {
        -(SOLE_INNER as int)
    };
    if k == 0 {
        Point2 { x: SOLE_FRONT, y: outer as i64 }
    } else if k == 1 {
        Point2 { x: SOLE_FRONT, y: inner as i64 }
    } else if k == 2 {
        Point2 { x: SOLE_BACK, y: inner as i64 }
    } else {
        Point2 { x: SOLE_BACK, y: outer as i64 }
    }
}

/// A sole pose that keeps all transformed corners in the coordinate
/// range.
pub open spec fn sole_pose_wf(pose: Pose2) -> bool {
    &&& transform_wf(pose.as_transform_spec())
    &&& -900_000_000 <= pose.position.x <= 900_000_000
    &&& -900_000_000 <= pose.position.y <= 900_000_000
}

/// The four corners of a sole carried into the walk frame.
pub open spec fn sole_outline_spec(pose: Pose2, side: Side) -> Seq<Point2> {
    Seq::new(
        4,
        |k: int|
            Point2 {
                x: apply_x_spec(
                    pose.as_transform_spec(),
                    sole_corner_spec(side, k).x as int,
                    sole_corner_spec(side, k).y as int,
                ) as i64,
                y: apply_y_spec(
                    pose.as_transform_spec(),
                    sole_corner_spec(side, k).x as int,
                    sole_corner_spec(side, k).y as int,
                ) as i64,
            },
    )
}

/// A transformed sole corner stays well inside the coordinate range.
proof fn lemma_outline_point_wf(pose: Pose2, side: Side, k: int)
    requires
        sole_pose_wf(pose),
        0 <= k < 4,
    ensures
        sole_outline_spec(pose, side)[k].wf(),
        sole_outline_spec(pose, side)[k].x == apply_x_spec(
            pose.as_transform_spec(),
            sole_corner_spec(side, k).x as int,
            sole_corner_spec(side, k).y as int,
        ),
        sole_outline_spec(pose, side)[k].y == apply_y_spec(
            pose.as_transform_spec(),
            sole_corner_spec(side, k).x as int,
            sole_corner_spec(side, k).y as int,
        ),
{
    let t = pose.as_transform_spec();
    let c = sole_corner_spec(side, k);
    crate::odometry::lemma_rot_term_bound(t.rot.cos_milli as int, c.x as int);
    crate::odometry::lemma_rot_term_bound(t.rot.sin_milli as int, c.y as int);
    crate::odometry::lemma_rot_term_bound(t.rot.sin_milli as int, c.x as int);
    crate::odometry::lemma_rot_term_bound(t.rot.cos_milli as int, c.y as int);
}

/// Appends the four transformed corners of a sole to the outline.
fn push_sole_outline(points: &mut Vec<Point2>, pose: &Pose2, side: Side)
    requires
        sole_pose_wf(*pose),
        forall|k: int| 0 <= k < old(points)@.len() ==> (#[trigger] old(points)@[k]).wf(),
    ensures
        final(points)@ == old(points)@ + sole_outline_spec(*pose, side),
        forall|k: int| 0 <= k < final(points)@.len() ==> (#[trigger] final(points)@[k]).wf(),
{
    let transform = Transform2 {
        rot: pose.orientation,
        translation: crate::geometry::Vector2 { x: pose.position.x, y: pose.position.y },
    };
    let outer: i64 = if side == Side::Left {
        SOLE_OUTER
    } else {
        -SOLE_OUTER
    };
    let inner: i64 = if side == Side::Left {
        SOLE_INNER
    } else {
        -SOLE_INNER
    };
    proof {
        lemma_outline_point_wf(*pose, side, 0);
        lemma_outline_point_wf(*pose, side, 1);
        lemma_outline_point_wf(*pose, side, 2);
        lemma_outline_point_wf(*pose, side, 3);
    }
    let c0: Point2 = transform.apply(Point2 { x: SOLE_FRONT, y: outer });
    let c1: Point2 = transform.apply(Point2 { x: SOLE_FRONT, y: inner });
    let c2: Point2 = transform.apply(Point2 { x: SOLE_BACK, y: inner });
    let c3: Point2 = transform.apply(Point2 { x: SOLE_BACK, y: outer });
    points.push(c0);
    points.push(c1);
    points.push(c2);
    points.push(c3);
    proof {
        assert(final(points)@ =~= old(points)@ + sole_outline_spec(*pose, side));
    }
}

/// The combined outline the catching test works on: the support sole,
/// the swing sole where it stands, and the swing sole where the step
/// plan will put it.
pub open spec fn catching_outline_spec(
    current_feet: Feet,
    end_feet: Feet,
    support_side: Side,
) -> Seq<Point2> {
    let swing_side = if support_side == Side::Left {
        Side::Right
    } else {
        Side::Left
    };
    sole_outline_spec(current_feet.support_sole, support_side) + sole_outline_spec(
        current_feet.swing_sole,
        swing_side,
    ) + sole_outline_spec(end_feet.swing_sole, swing_side)
}

/// Whether the (already scaled) target point escapes the support
/// polygon spanned by the soles.
pub fn is_outside_support_polygon(
    end_feet: Feet,
    support_side: Side,
    target: Point2,
    current_feet: Feet,
) -> (r: bool)
    requires
        sole_pose_wf(current_feet.support_sole),
        sole_pose_wf(current_feet.swing_sole),
        sole_pose_wf(end_feet.swing_sole),
        target.wf(),
    ensures
        r == !inside_hull_spec(catching_outline_spec(current_feet, end_feet, support_side), target),
{
    let swing_side: Side = if support_side == Side::Left {
        Side::Right
    } else {
        Side::Left
    };
    let mut feet_outlines: Vec<Point2> = Vec::new();
    push_sole_outline(&mut feet_outlines, &current_feet.support_sole, support_side);
    push_sole_outline(&mut feet_outlines, &current_feet.swing_sole, swing_side);
    push_sole_outline(&mut feet_outlines, &end_feet.swing_sole, swing_side);
    proof {
        assert(feet_outlines@ =~= catching_outline_spec(current_feet, end_feet, support_side));
    }
    !is_inside_convex_hull(&feet_outlines, target)
}

/// The zero-moment point scaled into the catching target: the forward
/// component is scaled by the forward or backward factor depending on
/// its sign, the lateral component by the lateral factor.
pub open spec fn scaled_zmp_spec(zmp: Point2, p: CatchingStepsParameters) -> Point2 {
    let sx = if zmp.x >= 0 {
        p.target_x_scale_forward_milli
    } else {
        p.target_x_scale_backward_milli
    };
    Point2 {
        x: mul_div_tz(zmp.x as int, sx as int, SCALE as int) as i64,
        y: mul_div_tz(zmp.y as int, p.target_y_scale_milli as int, SCALE as int) as i64,
    }
}

/// Whether a catching step should fire: catching is enabled and the
/// scaled zero-moment point escapes the support polygon.
pub fn should_catch(
    parameters: &CatchingStepsParameters,
    end_feet: Feet,
    support_side: Side,
    zero_moment_point: Point2,
    current_feet: Feet,
) -> (r: bool)
    requires
        catching_parameters_wf(*parameters),
        sole_pose_wf(current_feet.support_sole),
        sole_pose_wf(current_feet.swing_sole),
        sole_pose_wf(end_feet.swing_sole),
        -90_000_000 <= zero_moment_point.x <= 90_000_000,
        -90_000_000 <= zero_moment_point.y <= 90_000_000,
    ensures
        r == (parameters.enabled && !inside_hull_spec(
            catching_outline_spec(current_feet, end_feet, support_side),
            scaled_zmp_spec(zero_moment_point, *parameters),
        )),
{
    if !parameters.enabled {
        return false;
    }
    let sx: i64 = if zero_moment_point.x >= 0 {
        parameters.target_x_scale_forward_milli
    } else {
        parameters.target_x_scale_backward_milli
    };
    proof {
        lemma_scaled_target_small(zero_moment_point.x as int, sx as int);
        lemma_scaled_target_small(
            zero_moment_point.y as int,
            parameters.target_y_scale_milli as int,
        );
    }
    let tx: i64 = crate::fixed::mul_div(zero_moment_point.x, sx, SCALE);
    let ty: i64 = crate::fixed::mul_div(zero_moment_point.y, parameters.target_y_scale_milli, SCALE);
    is_outside_support_polygon(end_feet, support_side, Point2 { x: tx, y: ty }, current_feet)
}

/// Scaling a bounded coordinate by at most a tenfold factor keeps it
/// in the coordinate range.
proof fn lemma_scaled_target_small(v: int, s: int)
    requires
        -90_000_000 <= v <= 90_000_000,
        0 <= s <= 10 * SCALE,
    ensures
        crate::fixed::abs_spec(mul_div_tz(v, s, SCALE as int)) <= 900_000_000,
{
    let p = v * s;
    assert(crate::fixed::abs_spec(p) <= 900_000_000 * SCALE) by (nonlinear_arith)
        requires
            -90_000_000 <= v <= 90_000_000,
            0 <= s <= 10 * SCALE,
            p == v * s,
            SCALE == 1000,
    ;
    if p >= 0 {
        assert(p / (SCALE as int) <= 900_000_000 && p / (SCALE as int) >= 0) by (nonlinear_arith)
            requires
                0 <= p <= 900_000_000 * SCALE,
                SCALE == 1000,
        ;
    } else {
        assert((-p) / (SCALE as int) <= 900_000_000 && (-p) / (SCALE as int) >= 0) by (
        nonlinear_arith)
            requires
                p < 0,
                -p <= 900_000_000 * SCALE,
                SCALE == 1000,
        ;
    }
}


/// Clamping into an interval, at specification level.
pub open spec fn clamp_spec(v: int, lo: int, hi: int) -> int {
    if v < lo {
        lo
    } else if v > hi {
        hi
    } else {
        v
    }
}

/// Where the swing sole should land to catch the fall: the target is
/// clamped to the reachable distance, the part of it sticking out of
/// the supported region becomes the displacement, and the swing base
/// offset plus the over-estimated displacement is clamped into the
/// anatomic reach.
pub open spec fn catching_swing_target_spec(
    p: CatchingStepsParameters,
    support_side: Side,
    zmp: Point2,
) -> Point2 {
    let ctx = clamp_spec(zmp.x as int, -p.max_target_distance_x as int, p.max_target_distance_x as int);
    let cty = clamp_spec(zmp.y as int, -p.max_target_distance_y as int, p.max_target_distance_y as int);
    let dx = ctx - clamp_spec(ctx, p.foot_support_min_x as int, p.foot_support_max_x as int);
    let dy = cty - clamp_spec(cty, p.foot_support_min_y as int, p.foot_support_max_y as int);
    let base_y = if support_side == Side::Left {
        p.swing_base_offset_y_left_support as int
    } else {
        p.swing_base_offset_y_right_support as int
    };
    Point2 {
        x: clamp_spec(
            p.swing_base_offset_x + mul_div_tz(dx, p.over_estimation_factor_milli as int, SCALE as int),
            p.swing_reach_min_x as int,
            p.swing_reach_max_x as int,
        ) as i64,
        y: clamp_spec(
            base_y + mul_div_tz(dy, p.over_estimation_factor_milli as int, SCALE as int),
            p.swing_reach_min_y as int,
            p.swing_reach_max_y as int,
        ) as i64,
    }
}

/// The matching support-sole recoil: half the over-estimated
/// displacement, taken backwards.
pub open spec fn catching_support_target_spec(p: CatchingStepsParameters, zmp: Point2) -> Point2 {
    let ctx = clamp_spec(zmp.x as int, -p.max_target_distance_x as int, p.max_target_distance_x as int);
    let cty = clamp_spec(zmp.y as int, -p.max_target_distance_y as int, p.max_target_distance_y as int);
    let dx = ctx - clamp_spec(ctx, p.foot_support_min_x as int, p.foot_support_max_x as int);
    let dy = cty - clamp_spec(cty, p.foot_support_min_y as int, p.foot_support_max_y as int);
    Point2 {
        x: (0 - mul_div_tz(dx, p.over_estimation_factor_milli as int, 2 * SCALE as int)) as i64,
        y: (0 - mul_div_tz(dy, p.over_estimation_factor_milli as int, 2 * SCALE as int)) as i64,
    }
}

/// The whole catching step a fresh catching entry plans: the step's
/// starting feet are kept, the swing sole aims at the clamped catching
/// target and the support sole recoils by half the displacement, both
/// with a neutral heading.
pub open spec fn catching_plan_spec(
    p: CatchingStepsParameters,
    last_step_state: StepState,
    support_side: Side,
    zmp: Point2,
) -> Catching {
    Catching {
        step: StepState {
            plan: StepPlan {
                support_side,
                start_feet: last_step_state.plan.start_feet,
                end_feet: Feet {
                    support_sole: Pose2 {
                        position: catching_support_target_spec(p, zmp),
                        orientation: Orientation { cos_milli: SCALE, sin_milli: 0 },
                    },
                    swing_sole: Pose2 {
                        position: catching_swing_target_spec(p, support_side, zmp),
                        orientation: Orientation { cos_milli: SCALE, sin_milli: 0 },
                    },
                },
            },
            time_since_start_ms: last_step_state.time_since_start_ms,
        },
    }
}

/// The catching mode: it replaces the executing step's plan with one
/// that moves the swing sole under the escaping zero-moment point.
#[derive(Clone, Copy, Debug, PartialEq, Eq, Structural)]
pub struct Catching {
    pub step: StepState,
}

/// The per-cycle command of the catching mode: the interpolated feet
/// and the stiffness the joints are driven with.
#[derive(Clone, Copy, Debug, PartialEq, Eq, Structural)]
pub struct MotorCommands {
    pub feet: Feet,
    pub leg_stiffness_milli: i64,
    pub arm_stiffness_milli: i64,
}

/// Linear interpolation from `a` to `b` by thousandths.
pub open spec fn lerp_spec(a: int, b: int, t: int) -> int {
    a + mul_div_tz(b - a, t, SCALE as int)
}

impl Catching {
    /// Starts a catching step: the new plan keeps the step's starting
    /// feet and aims the swing sole at the clamped catching target,
    /// with the support sole recoiling from the walk-frame origin by
    /// half the displacement.  The target is taken as given, with no
    /// balance-region mirroring applied to it.
    pub fn new(
        parameters: &CatchingStepsParameters,
        last_step_state: StepState,
        support_side: Side,
        zero_moment_point: Point2,
    ) -> (r: Catching)
        requires
            catching_parameters_wf(*parameters),
            zero_moment_point.wf(),
        ensures
            r == catching_plan_spec(*parameters, last_step_state, support_side, zero_moment_point),
    {
        let p = parameters;
        let ctx: i64 = crate::fixed::clamp_i64(
            zero_moment_point.x,
            -p.max_target_distance_x,
            p.max_target_distance_x,
        );
        let cty: i64 = crate::fixed::clamp_i64(
            zero_moment_point.y,
            -p.max_target_distance_y,
            p.max_target_distance_y,
        );
        let dx: i64 = ctx - crate::fixed::clamp_i64(ctx, p.foot_support_min_x, p.foot_support_max_x);
        let dy: i64 = cty - crate::fixed::clamp_i64(cty, p.foot_support_min_y, p.foot_support_max_y);
        proof {
            crate::fixed::lemma_mul_bound(
                dx as int,
                p.over_estimation_factor_milli as int,
                2_000_000,
                10_000,
            );
            crate::fixed::lemma_mul_bound(
                dy as int,
                p.over_estimation_factor_milli as int,
                2_000_000,
                10_000,
            );
            lemma_small_scaled(dx as int, p.over_estimation_factor_milli as int);
            lemma_small_scaled(dy as int, p.over_estimation_factor_milli as int);
        }
        let over_x: i64 = crate::fixed::mul_div(dx, p.over_estimation_factor_milli, SCALE);
        let over_y: i64 = crate::fixed::mul_div(dy, p.over_estimation_factor_milli, SCALE);
        let recoil_x: i64 = crate::fixed::mul_div(dx, p.over_estimation_factor_milli, 2 * SCALE);
        let recoil_y: i64 = crate::fixed::mul_div(dy, p.over_estimation_factor_milli, 2 * SCALE);
        let base_y: i64 = if support_side == Side::Left {
            p.swing_base_offset_y_left_support
        } else {
            p.swing_base_offset_y_right_support
        };
        let swing = Point2 {
            x: crate::fixed::clamp_i64(
                p.swing_base_offset_x + over_x,
                p.swing_reach_min_x,
                p.swing_reach_max_x,
            ),
            y: crate::fixed::clamp_i64(base_y + over_y, p.swing_reach_min_y, p.swing_reach_max_y),
        };
        let support = Point2 { x: 0 - recoil_x, y: 0 - recoil_y };
        Catching {
            step: StepState {
                plan: StepPlan {
                    support_side,
                    start_feet: last_step_state.plan.start_feet,
                    end_feet: Feet {
                        support_sole: Pose2 {
                            position: support,
                            orientation: Orientation { cos_milli: SCALE, sin_milli: 0 },
                        },
                        swing_sole: Pose2 {
                            position: swing,
                            orientation: Orientation { cos_milli: SCALE, sin_milli: 0 },
                        },
                    },
                },
                time_since_start_ms: last_step_state.time_since_start_ms,
            },
        }
    }

    /// Re-enters catching: a fresh catching step replaces the current
    /// one only when it would displace the swing sole further.
    pub fn new_from_catching(
        self,
        parameters: &CatchingStepsParameters,
        last_step_state: StepState,
        support_side: Side,
        zero_moment_point: Point2,
    ) -> (r: Catching)
        requires
            catching_parameters_wf(*parameters),
            zero_moment_point.wf(),
            self.step.plan.end_feet.swing_sole.position.wf(),
        ensures
            ({
                let fresh = catching_plan_spec(
                    *parameters,
                    last_step_state,
                    support_side,
                    zero_moment_point,
                );
                let fresh_target = fresh.step.plan.end_feet.swing_sole.position;
                let own = self.step.plan.end_feet.swing_sole.position;
                if fresh_target.x * fresh_target.x + fresh_target.y * fresh_target.y > own.x
                    * own.x + own.y * own.y {
                    r == fresh
                } else {
                    r == self
                }
            }),
    {
        let fresh = Catching::new(parameters, last_step_state, support_side, zero_moment_point);
        let own: Point2 = self.step.plan.end_feet.swing_sole.position;
        let target: Point2 = fresh.step.plan.end_feet.swing_sole.position;
        proof {
            crate::fixed::lemma_mul_bound(own.x as int, own.x as int, 1_000_000_000, 1_000_000_000);
            crate::fixed::lemma_mul_bound(own.y as int, own.y as int, 1_000_000_000, 1_000_000_000);
            crate::fixed::lemma_mul_bound(
                target.x as int,
                target.x as int,
                1_000_000_000,
                1_000_000_000,
            );
            crate::fixed::lemma_mul_bound(
                target.y as int,
                target.y as int,
                1_000_000_000,
                1_000_000_000,
            );
        }
        let own_norm: i128 = (own.x as i128) * (own.x as i128) + (own.y as i128) * (own.y as i128);
        let new_norm: i128 = (target.x as i128) * (target.x as i128) + (target.y as i128) * (
        target.y as i128);
        if new_norm > own_norm {
            fresh
        } else {
            self
        }
    }

    /// The joint command of this cycle: both soles interpolated from
    /// the step's start feet toward its planned end feet, driven with
    /// the walking leg stiffness.
    pub fn compute_commands(
        &self,
        step_duration_ms: u64,
        leg_stiffness_walk_milli: i64,
        arm_stiffness_milli: i64,
    ) -> (r: MotorCommands)
        requires
            step_duration_ms >= 1,
            step_duration_ms <= 10_000,
            self.step.time_since_start_ms <= 1_000_000,
            self.step.plan.start_feet.support_sole.position.wf(),
            self.step.plan.start_feet.swing_sole.position.wf(),
            self.step.plan.end_feet.support_sole.position.wf(),
            self.step.plan.end_feet.swing_sole.position.wf(),
        ensures
            r.leg_stiffness_milli == leg_stiffness_walk_milli,
            r.arm_stiffness_milli == arm_stiffness_milli,
            ({
                let t = if self.step.time_since_start_ms >= step_duration_ms {
                    SCALE as int
                } else {
                    (self.step.time_since_start_ms * SCALE) as int / (step_duration_ms as int)
                };
                let start = self.step.plan.start_feet;
                let end = self.step.plan.end_feet;
                r.feet.swing_sole.position.x == lerp_spec(
                    start.swing_sole.position.x as int,
                    end.swing_sole.position.x as int,
                    t,
                ) && r.feet.swing_sole.position.y == lerp_spec(
                    start.swing_sole.position.y as int,
                    end.swing_sole.position.y as int,
                    t,
                ) && r.feet.support_sole.position.x == lerp_spec(
                    start.support_sole.position.x as int,
                    end.support_sole.position.x as int,
                    t,
                ) && r.feet.support_sole.position.y == lerp_spec(
                    start.support_sole.position.y as int,
                    end.support_sole.position.y as int,
                    t,
                )
            }),
    {
        let elapsed: u64 = self.step.time_since_start_ms;
        let t: i64 = if elapsed >= step_duration_ms {
            SCALE
        } else {
            proof {
                assert((elapsed * SCALE) as int / (step_duration_ms as int) <= SCALE) by (
                nonlinear_arith)
                    requires
                        elapsed < step_duration_ms,
                        1 <= step_duration_ms <= 10_000,
                        elapsed <= 1_000_000,
                        SCALE == 1000,
                ;
            }
            ((elapsed * (SCALE as u64)) / step_duration_ms) as i64
        };
        let start = self.step.plan.start_feet;
        let end = self.step.plan.end_feet;
        let feet = Feet {
            support_sole: Pose2 {
                position: Point2 {
                    x: lerp(start.support_sole.position.x, end.support_sole.position.x, t),
                    y: lerp(start.support_sole.position.y, end.support_sole.position.y, t),
                },
                orientation: end.support_sole.orientation,
            },
            swing_sole: Pose2 {
                position: Point2 {
                    x: lerp(start.swing_sole.position.x, end.swing_sole.position.x, t),
                    y: lerp(start.swing_sole.position.y, end.swing_sole.position.y, t),
                },
                orientation: end.swing_sole.orientation,
            },
        };
        MotorCommands {
            feet,
            leg_stiffness_milli: leg_stiffness_walk_milli,
            arm_stiffness_milli: arm_stiffness_milli,
        }
    }

    /// Advances the step's phase time by the last cycle's duration.
    pub fn tick(&mut self, last_cycle_duration_ms: u64)
        requires
            old(self).step.time_since_start_ms + last_cycle_duration_ms <= u64::MAX,
        ensures
            final(self).step.time_since_start_ms == old(self).step.time_since_start_ms
                + last_cycle_duration_ms,
            final(self).step.plan == old(self).step.plan,
    {
        self.step.time_since_start_ms = self.step.time_since_start_ms + last_cycle_duration_ms;
    }
}

/// Interpolates one coordinate by thousandths.
fn lerp(a: i64, b: i64, t: i64) -> (r: i64)
    requires
        0 <= t <= SCALE,
        -1_000_000_000 <= a <= 1_000_000_000,
        -1_000_000_000 <= b <= 1_000_000_000,
    ensures
        r == lerp_spec(a as int, b as int, t as int),
{
    proof {
        crate::fixed::lemma_mul_div_fraction((b - a) as int, t as int, SCALE as int);
    }
    a + crate::fixed::mul_div(b - a, t, SCALE)
}

/// A displacement scaled by at most tenfold stays within the
/// coordinate range.
proof fn lemma_small_scaled(d: int, over: int)
    requires
        -2_000_000 <= d <= 2_000_000,
        0 <= over <= 10_000,
    ensures
        crate::fixed::abs_spec(mul_div_tz(d, over, SCALE as int)) <= 20_000_000,
        crate::fixed::abs_spec(mul_div_tz(d, over, 2 * SCALE as int)) <= 20_000_000,
{
    let p = d * over;
    assert(crate::fixed::abs_spec(p) <= 20_000_000_000) by (nonlinear_arith)
        requires
            -2_000_000 <= d <= 2_000_000,
            0 <= over <= 10_000,
            p == d * over,
    ;
    if p >= 0 {
        assert(p / (SCALE as int) <= 20_000_000 && p / (2 * SCALE as int) <= 20_000_000 && p / (
        SCALE as int) >= 0 && p / (2 * SCALE as int) >= 0) by (nonlinear_arith)
            requires
                0 <= p <= 20_000_000_000,
                SCALE == 1000,
        ;
    } else {
        assert((-p) / (SCALE as int) <= 20_000_000 && (-p) / (2 * SCALE as int) <= 20_000_000 && (
        -p) / (SCALE as int) >= 0 && (-p) / (2 * SCALE as int) >= 0) by (nonlinear_arith)
            requires
                p < 0,
                -p <= 20_000_000_000,
                SCALE == 1000,
        ;
    }
}

} // verus!


