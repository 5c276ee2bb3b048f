//! Planar geometry over fixed-point coordinates.
//!
//! Points and vectors carry millimetre coordinates.  Orientation tests
//! are exact sign tests of integer cross products, so segment
//! intersection is decided without any rounding at all.

use vstd::prelude::*;
use crate::fixed::{abs_spec, div_tz, SCALE};

verus! {

/// Coordinates are kept within this bound so that differences, dot
/// products and cross products of two points always fit in 64 bits.
pub const COORD_LIMIT: i64 = 1_000_000_000;

/// A point of the plane, in millimetres.
#[derive(Clone, Copy, Debug, PartialEq, Eq, Structural)]
pub struct Point2 {
    pub x: i64,
    pub y: i64,
}

/// A displacement of the plane, in millimetres.
#[derive(Clone, Copy, Debug, PartialEq, Eq, Structural)]
pub struct Vector2 {
    pub x: i64,
    pub y: i64,
}

/// A heading of the plane, stored as a direction vector scaled by a
/// thousand: a well-formed orientation has `cos_milli^2 + sin_milli^2`
/// close to one million.
#[derive(Clone, Copy, Debug, PartialEq, Eq, Structural)]
pub struct Orientation {
    pub cos_milli: i64,
    pub sin_milli: i64,
}

impl Orientation {
    /// The heading along the positive x axis.
    pub fn identity() -> (r: Orientation)
        ensures
            r.cos_milli == SCALE,
            r.sin_milli == 0,
    {
        Orientation { cos_milli: SCALE, sin_milli: 0 }
    }
}

/// A circle, in millimetres.
#[derive(Clone, Copy, Debug, PartialEq, Eq, Structural)]
pub struct Circle {
    pub center: Point2,
    pub radius: i64,
}

/// A circular arc; the boundary rays are unit directions from the
/// circle's centre.
#[derive(Clone, Copy, Debug, PartialEq, Eq, Structural)]
pub struct ArcPath {
    pub circle: Circle,
    pub start: Orientation,
    pub end: Orientation,
    pub clockwise: bool,
}

/// Which side of a directed line a point lies on.
#[derive(Clone, Copy, Debug, PartialEq, Eq, Structural)]
pub enum Direction {
    Clockwise,
    Counterclockwise,
    Collinear,
}

impl Point2 {
    pub open spec fn wf(self) -> bool {
        -COORD_LIMIT <= self.x <= COORD_LIMIT && -COORD_LIMIT <= self.y <= COORD_LIMIT
    }

    pub fn new(x: i64, y: i64) -> (r: Point2)
        ensures
            r.x == x,
            r.y == y,
    {
        Point2 { x, y }
    }
}

impl Vector2 {
    pub open spec fn wf(self) -> bool {
        -COORD_LIMIT <= self.x <= COORD_LIMIT && -COORD_LIMIT <= self.y <= COORD_LIMIT
    }

    pub fn new(x: i64, y: i64) -> (r: Vector2)
        ensures
            r.x == x,
            r.y == y,
    {
        Vector2 { x, y }
    }
}

/// The cross product `(b - a) x (p - a)`, the doubled signed area of the
/// triangle `a b p`.
pub open spec fn cross_spec(a: Point2, b: Point2, p: Point2) -> int {
    (b.x - a.x) * (p.y - a.y) - ((b.y - a.y) * (p.x - a.x))
}

/// A segment between two points; the endpoints are public exactly as in
/// the rest of the crate's records.
#[derive(Clone, Copy, Debug, PartialEq, Eq, Structural)]
pub struct LineSegment(pub Point2, pub Point2);

/// Where `p` lies relative to the directed segment: on its clockwise
/// side (negative cross product side when walking from start to end), on
/// its counterclockwise side, or on the carrying line.
pub open spec fn direction_spec(s: LineSegment, p: Point2) -> Direction {
    let c = cross_spec(s.0, s.1, p);
    if c == 0 {
        Direction::Collinear
    } else if c < 0 {
        Direction::Clockwise
    } else {
        Direction::Counterclockwise
    }
}

/// Whether `p` lies strictly inside the axis-aligned bounding box of the
/// segment; on the boundary counts as outside, exactly as the segment
/// overlap test wants it.
pub open spec fn bbox_contains_spec(s: LineSegment, p: Point2) -> bool {
    let lo_x = if s.0.x <= s.1.x {
        s.0.x
    } else {
        s.1.x
    };
    let hi_x = if s.0.x <= s.1.x {
        s.1.x
    } else {
        s.0.x
    };
    let lo_y = if s.0.y <= s.1.y {
        s.0.y
    } else {
        s.1.y
    };
    let hi_y = if s.0.y <= s.1.y {
        s.1.y
    } else {
        s.0.y
    };
    lo_x < p.x < hi_x && lo_y < p.y < hi_y
}

/// Two collinear segments overlap when an endpoint of one lies strictly
/// inside the bounding box of the other.
pub open spec fn collinear_overlap_spec(s: LineSegment, o: LineSegment) -> bool {
    bbox_contains_spec(s, o.0) || bbox_contains_spec(s, o.1) || bbox_contains_spec(o, s.0)
        || bbox_contains_spec(o, s.1)
}

/// The exact orientation characterisation of segment intersection: the
/// segments straddle each other's carrying lines, or are collinear and
/// overlap.
pub open spec fn segments_intersect_spec(s: LineSegment, o: LineSegment) -> bool {
    let d0 = direction_spec(s, o.0);
    let d1 = direction_spec(s, o.1);
    if (d0 == Direction::Counterclockwise && d1 == Direction::Counterclockwise) || (d0
        == Direction::Clockwise && d1 == Direction::Clockwise) {
        false
    } else if d0 == Direction::Collinear && d1 == Direction::Collinear {
        collinear_overlap_spec(s, o)
    } else {
        let e0 = direction_spec(o, s.0);
        let e1 = direction_spec(o, s.1);
        e0 != e1 || e0 == Direction::Collinear
    }
}

impl LineSegment {
    pub open spec fn wf(self) -> bool {
        self.0.wf() && self.1.wf()
    }

    pub fn new(start: Point2, end: Point2) -> (r: Self)
        ensures
            r == LineSegment(start, end),
    {
        LineSegment(start, end)
    }

    /// The same segment walked in the opposite sense.
    pub fn flip(self) -> (r: Self)
        ensures
            r == LineSegment(self.1, self.0),
    {
        LineSegment(self.1, self.0)
    }

    /// Squared length in square millimetres; exact.
    pub fn length_squared(&self) -> (r: u64)
        requires
            self.wf(),
        ensures
            r == (self.1.x - self.0.x) * (self.1.x - self.0.x) + (self.1.y - self.0.y) * (self.1.y
                - self.0.y),
    {
        let dx: i64 = self.1.x - self.0.x;
        let dy: i64 = self.1.y - self.0.y;
        proof {
            lemma_square_bound(dx as int);
            lemma_square_bound(dy as int);
        }
        (dx * dx) as u64 + (dy * dy) as u64
    }

    /// Length in millimetres, rounded down to the nearest integer.
    pub fn length(&self) -> (r: u64)
        requires
            self.wf(),
        ensures
            r * r <= (self.1.x - self.0.x) * (self.1.x - self.0.x) + (self.1.y - self.0.y) * (
            self.1.y - self.0.y),
            (self.1.x - self.0.x) * (self.1.x - self.0.x) + (self.1.y - self.0.y) * (self.1.y
                - self.0.y) < ((r + 1) * (r + 1)),
            r == crate::fixed::sqrt_floor(
                (self.1.x - self.0.x) * (self.1.x - self.0.x) + (self.1.y - self.0.y) * (self.1.y
                    - self.0.y),
            ),
    {
        let sq: u64 = self.length_squared();
        crate::fixed::isqrt(sq as u128)
    }

    /// Midpoint, each coordinate truncated toward zero.
    pub fn center(&self) -> (r: Point2)
        ensures
            r.x == div_tz(self.0.x + self.1.x, 2),
            r.y == div_tz(self.0.y + self.1.y, 2),
    {
        Point2 { x: avg_i64(self.0.x, self.1.x), y: avg_i64(self.0.y, self.1.y) }
    }

    /// On which side of this segment the point lies; an exact integer
    /// sign test along the segment's clockwise normal, so a negative
    /// cross product means `Clockwise`.
    pub fn get_direction(&self, point: Point2) -> (r: Direction)
        requires
            self.wf(),
            point.wf(),
        ensures
            r == direction_spec(*self, point),
    {
        let dx: i64 = self.1.x - self.0.x;
        let dy: i64 = self.1.y - self.0.y;
        let px: i64 = point.x - self.0.x;
        let py: i64 = point.y - self.0.y;
        proof {
            lemma_prod_fits(dx as int, py as int);
            lemma_prod_fits(dy as int, px as int);
        }
        let cross: i128 = (dx as i128) * (py as i128) - (dy as i128) * (px as i128);
        if cross == 0 {
            Direction::Collinear
        } else if cross < 0 {
            Direction::Clockwise
        } else {
            Direction::Counterclockwise
        }
    }

    /// Whether the point lies strictly inside this segment's bounding
    /// box.
    pub fn bounding_box_contains(&self, point: Point2) -> (r: bool)
        ensures
            r == bbox_contains_spec(*self, point),
    {
        let min_x: i64 = if self.0.x <= self.1.x {
            self.0.x
        } else {
            self.1.x
        };
        let max_x: i64 = if self.0.x <= self.1.x {
            self.1.x
        } else {
            self.0.x
        };
        let min_y: i64 = if self.0.y <= self.1.y {
            self.0.y
        } else {
            self.1.y
        };
        let max_y: i64 = if self.0.y <= self.1.y {
            self.1.y
        } else {
            self.0.y
        };
        min_x < point.x && point.x < max_x && min_y < point.y && point.y < max_y
    }

    /// Overlap test for two segments already known to be collinear.
    pub fn overlaps_collinear_line_segment(&self, other: LineSegment) -> (r: bool)
        ensures
            r == collinear_overlap_spec(*self, other),
    {
        self.bounding_box_contains(other.0) || self.bounding_box_contains(other.1)
            || other.bounding_box_contains(self.0) || other.bounding_box_contains(self.1)
    }

    /// Exact segment intersection by orientation tests.
    pub fn intersects_line_segment(&self, other: LineSegment) -> (r: bool)
        requires
            self.wf(),
            other.wf(),
        ensures
            r == segments_intersect_spec(*self, other),
    {
        let d0 = self.get_direction(other.0);
        let d1 = self.get_direction(other.1);
        if (d0 == Direction::Counterclockwise && d1 == Direction::Counterclockwise) || (d0
            == Direction::Clockwise && d1 == Direction::Clockwise) {
            false
        } else if d0 == Direction::Collinear && d1 == Direction::Collinear {
            self.overlaps_collinear_line_segment(other)
        } else {
            let e0 = other.get_direction(self.0);
            let e1 = other.get_direction(self.1);
            e0 != e1 || e0 == Direction::Collinear
        }
    }


    /// Whether this segment crosses the arc: it passes nearer the
    /// circle's centre than the radius, and one of the two chord
    /// points both projects inside the segment and lies within the
    /// arc's sweep.
    pub fn overlaps_arc(&self, arc: ArcPath) -> (r: bool)
        requires
            arc_inputs_wf(*self, arc),
        ensures
            r == arc_overlap_spec(*self, arc),
    {
        proof {
            reveal(arc_overlap_spec);
        }
        let c: Point2 = arc.circle.center;
        let radius: i64 = arc.circle.radius;
        proof {
            crate::fixed::lemma_mul_bound(radius as int, radius as int, 1_000_000, 1_000_000);
        }
        let rr: i128 = (radius as i128) * (radius as i128);
        let dq: u64 = self.squared_distance_to(c);
        if (dq as i128) >= rr {
            return false;
        }
        let dx: i64 = self.1.x - self.0.x;
        let dy: i64 = self.1.y - self.0.y;
        proof {
            lemma_prod_fits(dx as int, dx as int);
            lemma_prod_fits(dy as int, dy as int);
            lemma_prod_fits((c.x - self.0.x) as int, dx as int);
            lemma_prod_fits((c.y - self.0.y) as int, dy as int);
            assert((dx as int) * (dx as int) + (dy as int) * (dy as int) >= 1) by (nonlinear_arith)
                requires
                    dx != 0 || dy != 0,
            ;
        }
        let norm2: i128 = (dx as i128) * (dx as i128) + (dy as i128) * (dy as i128);
        let len: u64 = crate::fixed::isqrt(norm2 as u128);
        proof {
            assert(len >= 1) by (nonlinear_arith)
                requires
                    norm2 >= 1,
                    (len as int + 1) * (len as int + 1) > norm2,
                    len >= 0,
            ;
            assert(abs_spec(dx as int) <= len && abs_spec(dy as int) <= len) by (nonlinear_arith)
                requires
                    (dx as int) * (dx as int) + (dy as int) * (dy as int) < ((len as int + 1) * (
                    len as int + 1)),
                    len >= 1,
            ;
            assert(abs_spec(dx as int) <= norm2 && abs_spec(dy as int) <= norm2) by (
            nonlinear_arith)
                requires
                    norm2 == (dx as int) * (dx as int) + (dy as int) * (dy as int),
            ;
        }
        proof {
            crate::fixed::lemma_mul_bound((c.x - self.0.x) as int, dx as int, 2_000_000, 2_000_000);
            crate::fixed::lemma_mul_bound((c.y - self.0.y) as int, dy as int, 2_000_000, 2_000_000);
        }
        let dot: i128 = ((c.x - self.0.x) as i128) * (dx as i128) + ((c.y - self.0.y) as i128) * (
        dy as i128);
        proof {
            crate::fixed::lemma_mul_bound(
                dx as int,
                dot as int,
                8_000_000_000_000,
                8_000_000_000_000,
            );
            crate::fixed::lemma_mul_bound(
                dy as int,
                dot as int,
                8_000_000_000_000,
                8_000_000_000_000,
            );
            lemma_div_product_bound(dx as int, dot as int, norm2 as int, 8_000_000_000_000);
            lemma_div_product_bound(dy as int, dot as int, norm2 as int, 8_000_000_000_000);
        }
        let bx: i128 = (self.0.x as i128) + crate::fixed::div_i128((dx as i128) * dot, norm2);
        let by: i128 = (self.0.y as i128) + crate::fixed::div_i128((dy as i128) * dot, norm2);
        proof {
            crate::fixed::lemma_mul_bound(
                (bx - c.x as i128) as int,
                (bx - c.x as i128) as int,
                9_000_000_000_000,
                9_000_000_000_000,
            );
            crate::fixed::lemma_mul_bound(
                (by - c.y as i128) as int,
                (by - c.y as i128) as int,
                9_000_000_000_000,
                9_000_000_000_000,
            );
        }
        let d2: i128 = (bx - c.x as i128) * (bx - c.x as i128) + (by - c.y as i128) * (by
            - c.y as i128);
        if d2 > rr {
            return false;
        }
        proof {
            assert(abs_spec((bx - c.x as i128) as int) <= 1_000_000 && abs_spec(
                (by - c.y as i128) as int,
            ) <= 1_000_000) by (nonlinear_arith)
                requires
                    (bx - c.x as i128) as int * ((bx - c.x as i128) as int) + (
                    by - c.y as i128) as int * ((by - c.y as i128) as int) <= rr,
                    rr <= 1_000_000_000_000,
            ;
        }
        let h: u64 = crate::fixed::isqrt((rr - d2) as u128);
        proof {
            assert(h <= 1_000_000) by (nonlinear_arith)
                requires
                    (h as int) * (h as int) <= rr - d2,
                    rr <= 1_000_000_000_000,
                    d2 == (bx - c.x as i128) as int * ((bx - c.x as i128) as int) + (
                    by - c.y as i128) as int * ((by - c.y as i128) as int),
                    h >= 0,
            ;
            lemma_div_product_bound(dx as int, h as int, len as int, 1_000_000);
            lemma_div_product_bound(dy as int, h as int, len as int, 1_000_000);
            crate::fixed::lemma_mul_bound(dx as int, h as int, 2_000_000, 1_000_000);
            crate::fixed::lemma_mul_bound(dy as int, h as int, 2_000_000, 1_000_000);
        }
        let offx: i128 = crate::fixed::div_i128((dx as i128) * (h as i128), len as i128);
        let offy: i128 = crate::fixed::div_i128((dy as i128) * (h as i128), len as i128);
        let start_angle: i64 = atan2_milli(arc.start.sin_milli, arc.start.cos_milli);
        let end_angle: i64 = atan2_milli(arc.end.sin_milli, arc.end.cos_milli);
        let end_sweep: i64 = sweep_between(start_angle, end_angle, arc.clockwise);
        let first = arc_point_hits(
            self,
            &arc,
            (bx + offx) as i64,
            (by + offy) as i64,
            start_angle,
            end_sweep,
        );
        if first {
            return true;
        }
        arc_point_hits(
            self,
            &arc,
            (bx - offx) as i64,
            (by - offy) as i64,
            start_angle,
            end_sweep,
        )
    }


    /// Maps both endpoints through the fallible mapper, start first:
    /// the first failure is returned, otherwise the mapped segment.
    pub fn try_map<E, F: Fn(Point2) -> Result<Point2, E>>(self, mapper: F) -> (r: Result<
        LineSegment,
        E,
    >)
        requires
            mapper.requires((self.0,)),
            mapper.requires((self.1,)),
        ensures
            r matches Ok(mapped) ==> (exists|start: Point2, end: Point2|
                #[trigger] mapper.ensures((self.0,), Ok(start)) && #[trigger] mapper.ensures(
                    (self.1,),
                    Ok(end),
                ) && mapped == LineSegment(start, end)),
            r matches Err(e) ==> (mapper.ensures((self.0,), Err::<Point2, E>(e)) || (exists|
                start: Point2,
            |
                #[trigger] mapper.ensures((self.0,), Ok(start)) && mapper.ensures(
                    (self.1,),
                    Err::<Point2, E>(e),
                ))),
    {
        let start: Point2 = match mapper(self.0) {
            Ok(point) => point,
            Err(error) => {
                return Err(error);
            },
        };
        let end: Point2 = match mapper(self.1) {
            Ok(point) => point,
            Err(error) => {
                return Err(error);
            },
        };
        Ok(LineSegment(start, end))
    }

    /// Both endpoints moved by the same displacement.
    pub fn translate(&self, translation: Vector2) -> (r: Self)
        requires
            self.wf(),
            translation.wf(),
        ensures
            r.0.x == self.0.x + translation.x,
            r.0.y == self.0.y + translation.y,
            r.1.x == self.1.x + translation.x,
            r.1.y == self.1.y + translation.y,
    {
        LineSegment(
            Point2 { x: self.0.x + translation.x, y: self.0.y + translation.y },
            Point2 { x: self.1.x + translation.x, y: self.1.y + translation.y },
        )
    }

    /// Where the orthogonal projection of `point` falls on the segment,
    /// as a thousandths fraction of the way from start to end, clamped
    /// into the segment.
    pub fn projection_factor_clamped(&self, point: Point2) -> (t: i64)
        requires
            self.wf(),
            point.wf(),
            self.0 != self.1,
        ensures
            0 <= t <= SCALE,
            t == clamped_projection_spec(*self, point),
    {
        let dx: i64 = self.1.x - self.0.x;
        let dy: i64 = self.1.y - self.0.y;
        let px: i64 = point.x - self.0.x;
        let py: i64 = point.y - self.0.y;
        proof {
            lemma_prod_fits(px as int, dx as int);
            lemma_prod_fits(py as int, dy as int);
        }
        let dot: i128 = (px as i128) * (dx as i128) + (py as i128) * (dy as i128);
        proof {
            lemma_prod_fits(dx as int, dx as int);
            lemma_prod_fits(dy as int, dy as int);
        }
        let len2: i128 = (dx as i128) * (dx as i128) + (dy as i128) * (dy as i128);
        proof {
            lemma_square_bound(dx as int);
            lemma_square_bound(dy as int);
            assert(len2 > 0) by {
                if dx != 0 {
                    assert((dx as int) * (dx as int) > 0) by (nonlinear_arith)
                        requires
                            dx != 0,
                    ;
                } else {
                    assert(dy != 0);
                    assert((dy as int) * (dy as int) > 0) by (nonlinear_arith)
                        requires
                            dy != 0,
                    ;
                }
                assert((dx as int) * (dx as int) >= 0) by (nonlinear_arith);
                assert((dy as int) * (dy as int) >= 0) by (nonlinear_arith);
            }
        }
        if dot <= 0 {
            0
        } else if dot >= len2 {
            SCALE
        } else {
            proof {
                assert(dot * (SCALE as int) < 0x8000_0000_0000_0000_0000_0000)
                    by (nonlinear_arith)
                    requires
                        0 < dot < 0x4000_0000_0000_0000_0000,
                ;
            }
            let scaled: i128 = dot * (SCALE as i128);
            let t: i128 = scaled / len2;
            proof {
                assert(0 <= scaled / len2 && scaled / len2 <= SCALE) by (nonlinear_arith)
                    requires
                        0 < dot < len2,
                        scaled == dot * (SCALE as i128),
                        SCALE > 0,
                ;
            }
            t as i64
        }
    }

    /// The point of the segment closest to `point` up to the thousandth
    /// resolution of the projection factor.
    pub fn closest_point(&self, point: Point2) -> (r: Point2)
        requires
            self.wf(),
            point.wf(),
            self.0 != self.1,
        ensures
            ({
                let t = clamped_projection_spec(*self, point);
                r.x == self.0.x + div_tz((self.1.x - self.0.x) * t, SCALE as int) && r.y == self.0.y
                    + div_tz((self.1.y - self.0.y) * t, SCALE as int)
            }),
    {
        let t: i64 = self.projection_factor_clamped(point);
        let dx: i64 = self.1.x - self.0.x;
        let dy: i64 = self.1.y - self.0.y;
        proof {
            lemma_mul_div_small(dx as int, t as int);
            lemma_mul_div_small(dy as int, t as int);
        }
        let ox: i64 = crate::fixed::mul_div(dx, t, SCALE);
        let oy: i64 = crate::fixed::mul_div(dy, t, SCALE);
        Point2 { x: self.0.x + ox, y: self.0.y + oy }
    }

    /// Squared distance from the point to the segment, through the
    /// clamped projection.
    pub fn squared_distance_to(&self, point: Point2) -> (r: u64)
        requires
            self.wf(),
            point.wf(),
            self.0 != self.1,
        ensures
            ({
                let c = closest_point_spec(*self, point);
                r == (point.x - c.x) * (point.x - c.x) + (point.y - c.y) * (point.y - c.y)
            }),
    {
        let c: Point2 = self.closest_point(point);
        proof {
            lemma_clamped_projection_bounds(*self, point);
            lemma_mul_div_small(self.1.x - self.0.x, clamped_projection_spec(*self, point));
            lemma_mul_div_small(self.1.y - self.0.y, clamped_projection_spec(*self, point));
        }
        let dx: i64 = point.x - c.x;
        let dy: i64 = point.y - c.y;
        proof {
            lemma_square_bound(dx as int);
            lemma_square_bound(dy as int);
        }
        (dx * dx) as u64 + (dy * dy) as u64
    }

    /// Distance from the point to the segment in millimetres, rounded
    /// down.
    pub fn distance_to(&self, point: Point2) -> (r: u64)
        requires
            self.wf(),
            point.wf(),
            self.0 != self.1,
        ensures
            ({
                let c = closest_point_spec(*self, point);
                let sq = (point.x - c.x) * (point.x - c.x) + (point.y - c.y) * (point.y - c.y);
                r * r <= sq && sq < ((r + 1) * (r + 1))
            }),
    {
        let sq: u64 = self.squared_distance_to(point);
        crate::fixed::isqrt(sq as u128)
    }
}

/// The clamped thousandths projection factor of `point` onto the
/// segment.
pub open spec fn clamped_projection_spec(s: LineSegment, p: Point2) -> int {
    let dx = s.1.x - s.0.x;
    let dy = s.1.y - s.0.y;
    let dot = (p.x - s.0.x) * dx + ((p.y - s.0.y) * dy);
    let len2 = dx * dx + dy * dy;
    if dot <= 0 {
        0
    } else if dot >= len2 {
        SCALE as int
    } else {
        (dot * (SCALE as int)) / len2
    }
}

/// The closest point of the segment, at thousandth resolution.
pub open spec fn closest_point_spec(s: LineSegment, p: Point2) -> Point2 {
    let t = clamped_projection_spec(s, p);
    Point2 {
        x: (s.0.x + div_tz((s.1.x - s.0.x) * t, SCALE as int)) as i64,
        y: (s.0.y + div_tz((s.1.y - s.0.y) * t, SCALE as int)) as i64,
    }
}


/// The quarter and half turn in milliradians.
pub const QUARTER_TURN_MILLI: i64 = 1571;

/// Half a turn in milliradians.
pub const HALF_TURN_MILLI: i64 = 3142;



/// The swept angle from one heading angle to another, in the given
/// rotational sense, in milliradians within one full turn.
pub open spec fn sweep_milli_spec(from_milli: int, to_milli: int, clockwise: bool) -> int {
    let ccw = if to_milli >= from_milli {
        to_milli - from_milli
    } else {
        to_milli - from_milli + 6284
    };
    if clockwise {
        6284 - ccw
    } else {
        ccw
    }
}

/// Computes `sweep_milli_spec` for two angles of the arctangent's
/// range.
pub fn sweep_between(from_milli: i64, to_milli: i64, clockwise: bool) -> (r: i64)
    requires
        -HALF_TURN_MILLI <= from_milli <= HALF_TURN_MILLI,
        -HALF_TURN_MILLI <= to_milli <= HALF_TURN_MILLI,
    ensures
        r == sweep_milli_spec(from_milli as int, to_milli as int, clockwise),
{
    let ccw: i64 = if to_milli >= from_milli {
        to_milli - from_milli
    } else {
        to_milli - from_milli + 6284
    };
    if clockwise {
        6284 - ccw
    } else {
        ccw
    }
}

/// A product scaled back down by a divisor at least as large as one
/// factor stays within the other factor's bound.
proof fn lemma_div_product_bound(a: int, b: int, d: int, bound: int)
    requires
        d >= 1,
        bound >= 0,
        abs_spec(a) <= d,
        abs_spec(b) <= bound,
    ensures
        abs_spec(div_tz(a * b, d)) <= bound,
{
    let p = a * b;
    assert(abs_spec(p) <= d * bound) by (nonlinear_arith)
        requires
            d >= 1,
            bound >= 0,
            abs_spec(a) <= d,
            abs_spec(b) <= bound,
            p == a * b,
    ;
    if p >= 0 {
        assert(p / d <= bound && p / d >= 0) by (nonlinear_arith)
            requires
                0 <= p <= d * bound,
                d >= 1,
        ;
    } else {
        assert((-p) / d <= bound && (-p) / d >= 0) by (nonlinear_arith)
            requires
                p < 0,
                -p <= d * bound,
                d >= 1,
        ;
    }
}

/// Whether a chord point counts as an arc crossing: its projection
/// falls inside the segment and the sweep from the arc's start ray to
/// the point, in the arc's sense, stays short of the sweep to the end
/// ray.
pub open spec fn arc_point_hits_spec(
    seg: LineSegment,
    arc: ArcPath,
    ix: int,
    iy: int,
    start_angle: int,
    end_sweep: int,
) -> bool {
    let dx = seg.1.x - seg.0.x;
    let dy = seg.1.y - seg.0.y;
    let norm2 = dx * dx + dy * dy;
    let t_num = (ix - seg.0.x) * dx + ((iy - seg.0.y) * dy);
    &&& 0 <= t_num
    &&& t_num < norm2
    &&& sweep_milli_spec(
        start_angle,
        atan2_spec(iy - arc.circle.center.y, ix - arc.circle.center.x),
        arc.clockwise,
    ) < end_sweep
}

/// The inputs the fixed-point arc-crossing test accepts: everything
/// within a kilometre, the segment not degenerate, the boundary rays
/// within one unit.
pub open spec fn arc_inputs_wf(seg: LineSegment, arc: ArcPath) -> bool {
    &&& -1_000_000 <= seg.0.x <= 1_000_000
    &&& -1_000_000 <= seg.0.y <= 1_000_000
    &&& -1_000_000 <= seg.1.x <= 1_000_000
    &&& -1_000_000 <= seg.1.y <= 1_000_000
    &&& seg.0 != seg.1
    &&& -1_000_000 <= arc.circle.center.x <= 1_000_000
    &&& -1_000_000 <= arc.circle.center.y <= 1_000_000
    &&& 0 <= arc.circle.radius <= 1_000_000
    &&& -SCALE <= arc.start.cos_milli <= SCALE
    &&& -SCALE <= arc.start.sin_milli <= SCALE
    &&& -SCALE <= arc.end.cos_milli <= SCALE
    &&& -SCALE <= arc.end.sin_milli <= SCALE
}

/// Whether the segment crosses the arc, by the crate's fixed-point
/// procedure: the segment must pass nearer the circle's centre than
/// the radius; the chord points come from the perpendicular foot of
/// the centre with rounded-down square roots; a chord point counts
/// when it projects inside the segment and lies within the arc's
/// sweep.
#[verifier::opaque]
pub open spec fn arc_overlap_spec(seg: LineSegment, arc: ArcPath) -> bool {
    let c = arc.circle.center;
    let r = arc.circle.radius;
    let cp = closest_point_spec(seg, c);
    let dq = (c.x - cp.x) * (c.x - cp.x) + (c.y - cp.y) * (c.y - cp.y);
    if dq >= r * r {
        false
    } else {
        let dx = seg.1.x - seg.0.x;
        let dy = seg.1.y - seg.0.y;
        let norm2 = dx * dx + dy * dy;
        let len = crate::fixed::sqrt_floor(norm2);
        let dot = (c.x - seg.0.x) * dx + ((c.y - seg.0.y) * dy);
        let bx = seg.0.x + div_tz(dx * dot, norm2);
        let by = seg.0.y + div_tz(dy * dot, norm2);
        let d2 = (bx - c.x) * (bx - c.x) + (by - c.y) * (by - c.y);
        if d2 > r * r {
            false
        } else {
            let h = crate::fixed::sqrt_floor(r * r - d2);
            let offx = div_tz(dx * h, len);
            let offy = div_tz(dy * h, len);
            let start_angle = atan2_spec(arc.start.sin_milli as int, arc.start.cos_milli as int);
            let end_sweep = sweep_milli_spec(
                start_angle,
                atan2_spec(arc.end.sin_milli as int, arc.end.cos_milli as int),
                arc.clockwise,
            );
            arc_point_hits_spec(seg, arc, bx + offx, by + offy, start_angle, end_sweep)
                || arc_point_hits_spec(seg, arc, bx - offx, by - offy, start_angle, end_sweep)
        }
    }
}

/// Decides `arc_point_hits_spec` for one chord point.
fn arc_point_hits(
    seg: &LineSegment,
    arc: &ArcPath,
    ix: i64,
    iy: i64,
    start_angle: i64,
    end_sweep: i64,
) -> (r: bool)
    requires
        arc_inputs_wf(*seg, *arc),
        -3_000_000 <= ix <= 3_000_000,
        -3_000_000 <= iy <= 3_000_000,
        -HALF_TURN_MILLI <= start_angle <= HALF_TURN_MILLI,
    ensures
        r == arc_point_hits_spec(*seg, *arc, ix as int, iy as int, start_angle as int,
        end_sweep as int),
{
    let dx: i64 = seg.1.x - seg.0.x;
    let dy: i64 = seg.1.y - seg.0.y;
    proof {
        lemma_prod_fits(dx as int, dx as int);
        lemma_prod_fits(dy as int, dy as int);
        lemma_prod_fits((ix - seg.0.x) as int, dx as int);
        lemma_prod_fits((iy - seg.0.y) as int, dy as int);
    }
    let norm2: i128 = (dx as i128) * (dx as i128) + (dy as i128) * (dy as i128);
    let t_num: i128 = ((ix - seg.0.x) as i128) * (dx as i128) + ((iy - seg.0.y) as i128) * (
    dy as i128);
    if t_num < 0 || t_num >= norm2 {
        return false;
    }
    let point_angle: i64 = atan2_milli(iy - arc.circle.center.y, ix - arc.circle.center.x);
    sweep_between(start_angle, point_angle, arc.clockwise) < end_sweep
}

/// The quadratic arctangent approximation on the unit interval, in
/// thousandths: `z * pi/4 + 0.273 * z * (1 - z)` with every division
/// rounded down.
pub open spec fn atan_unit_spec(z: int) -> int {
    (785 * z) / 1000 + (273 * z * (1000 - z)) / 1_000_000
}

/// The crate's fixed-point arctangent of the vector `(x, y)`, in
/// milliradians: the quadrant is decided by the signs, the core ratio
/// by the rounded-down thousandths quotient of the smaller magnitude
/// over the larger.
pub open spec fn atan2_spec(y: int, x: int) -> int {
    if y == 0 {
        if x >= 0 {
            0
        } else {
            HALF_TURN_MILLI as int
        }
    } else {
        let ax = abs_spec(x);
        let ay = abs_spec(y);
        let base = if ax == 0 {
            QUARTER_TURN_MILLI as int
        } else if ay <= ax {
            atan_unit_spec((ay * 1000) / ax)
        } else {
            QUARTER_TURN_MILLI - atan_unit_spec((ax * 1000) / ay)
        };
        if x >= 0 {
            if y > 0 {
                base
            } else {
                -base
            }
        } else {
            if y > 0 {
                HALF_TURN_MILLI - base
            } else {
                base - HALF_TURN_MILLI
            }
        }
    }
}

/// The angle of the vector `(x, y)` in milliradians, by the quadratic
/// arctangent approximation.  The result lies in the closed half-turn
/// range, is zero on the positive x axis, a half turn on the negative
/// x axis, a signed quarter turn on the y axis, and carries the sign
/// of `y` elsewhere.
pub fn atan2_milli(y: i64, x: i64) -> (r: i64)
    requires
        -1_000_000_000 <= y <= 1_000_000_000,
        -1_000_000_000 <= x <= 1_000_000_000,
    ensures
        r == atan2_spec(y as int, x as int),
        -HALF_TURN_MILLI <= r <= HALF_TURN_MILLI,
        (y == 0 && x >= 0) ==> r == 0,
        (y == 0 && x < 0) ==> r == HALF_TURN_MILLI,
        (x == 0 && y > 0) ==> r == QUARTER_TURN_MILLI,
        (x == 0 && y < 0) ==> r == -QUARTER_TURN_MILLI,
        y > 0 ==> r >= 0,
        y < 0 ==> r <= 0,
{
    if y == 0 {
        if x >= 0 {
            return 0;
        }
        return HALF_TURN_MILLI;
    }
    let ax: u64 = crate::fixed::abs_i64(x);
    let ay: u64 = crate::fixed::abs_i64(y);
    let base: i64 = if ax == 0 {
        QUARTER_TURN_MILLI
    } else if ay <= ax {
        proof {
            assert((ay * 1000) as int / (ax as int) <= 1000) by (nonlinear_arith)
                requires
                    0 < ax,
                    ay <= ax,
                    ay * 1000 <= ax * 1000,
            ;
            assert(ay * 1000 <= ax * 1000) by (nonlinear_arith)
                requires
                    ay <= ax,
            ;
        }
        atan_unit((ay * 1000 / ax) as i64)
    } else {
        proof {
            assert(ax * 1000 <= ay * 1000) by (nonlinear_arith)
                requires
                    ax <= ay,
            ;
            assert((ax * 1000) as int / (ay as int) <= 1000) by (nonlinear_arith)
                requires
                    0 < ay,
                    ax <= ay,
                    ax * 1000 <= ay * 1000,
            ;
        }
        QUARTER_TURN_MILLI - atan_unit((ax * 1000 / ay) as i64)
    };
    if x >= 0 {
        if y > 0 {
            base
        } else {
            -base
        }
    } else {
        if y > 0 {
            HALF_TURN_MILLI - base
        } else {
            base - HALF_TURN_MILLI
        }
    }
}

/// The arctangent of `z / 1000` for `z` between zero and a thousand,
/// in milliradians: the quadratic approximation
/// `z * pi/4 + 0.273 * z * (1 - z)`.
fn atan_unit(z: i64) -> (r: i64)
    requires
        0 <= z <= 1000,
    ensures
        r == atan_unit_spec(z as int),
        0 <= r <= QUARTER_TURN_MILLI,
        z == 0 ==> r == 0,
{
    let linear: i64 = 785 * z / 1000;
    proof {
        assert(785 * z >= 0 && 785 * z <= 785_000) by (nonlinear_arith)
            requires
                0 <= z <= 1000,
        ;
        assert(0 <= (785 * z) / 1000 <= 785) by (nonlinear_arith)
            requires
                0 <= 785 * z <= 785_000,
        ;
        assert(0 <= 273 * z * (1000 - z) <= 68_250_000_000) by (nonlinear_arith)
            requires
                0 <= z <= 1000,
        ;
        assert(0 <= (273 * z * (1000 - z)) / 1_000_000 <= 69) by (nonlinear_arith)
            requires
                0 <= 273 * z * (1000 - z) <= 68_250_000_000,
        ;
        if z == 0 {
            assert(785int * 0 == 0) by (nonlinear_arith);
            assert(0int / 1000 == 0) by (nonlinear_arith);
            assert(273int * 0 * (1000 - 0) == 0) by (nonlinear_arith);
            assert(0int / 1_000_000 == 0) by (nonlinear_arith);
        }
    }
    let curve: i64 = 273 * z * (1000 - z) / 1_000_000;
    linear + curve
}

/// Truncating average of two machine integers, without overflow.
fn avg_i64(a: i64, b: i64) -> (r: i64)
    ensures
        r == div_tz(a + b, 2),
{
    let s: i128 = a as i128 + b as i128;
    if s >= 0 {
        ((s as u128) / 2) as i64
    } else {
        -(((-s) as u128 / 2) as i128) as i64
    }
}

/// Products of differences of in-range coordinates stay far inside the
/// 128-bit range.
proof fn lemma_prod_fits(a: int, b: int)
    requires
        -4_000_000_000 <= a <= 4_000_000_000,
        -4_000_000_000 <= b <= 4_000_000_000,
    ensures
        -0x1000_0000_0000_0000_0000 <= a * b <= 0x1000_0000_0000_0000_0000,
{
    assert(-0x1000_0000_0000_0000_0000 <= a * b <= 0x1000_0000_0000_0000_0000)
        by (nonlinear_arith)
        requires
            -4_000_000_000 <= a <= 4_000_000_000,
            -4_000_000_000 <= b <= 4_000_000_000,
    ;
}


/// The two products of a cross product of in-range points stay far
/// inside the 128-bit range.
pub proof fn lemma_cross_fits(a: Point2, b: Point2, p: Point2)
    requires
        a.wf(),
        b.wf(),
        p.wf(),
    ensures
        -0x1000_0000_0000_0000_0000 <= ((b.x - a.x) as int) * ((p.y - a.y) as int)
            <= 0x1000_0000_0000_0000_0000,
        -0x1000_0000_0000_0000_0000 <= ((b.y - a.y) as int) * ((p.x - a.x) as int)
            <= 0x1000_0000_0000_0000_0000,
{
    lemma_prod_fits((b.x - a.x) as int, (p.y - a.y) as int);
    lemma_prod_fits((b.y - a.y) as int, (p.x - a.x) as int);
}

/// The clamped projection factor really is a fraction in thousandths.
pub proof fn lemma_clamped_projection_bounds(s: LineSegment, p: Point2)
    ensures
        0 <= clamped_projection_spec(s, p) <= SCALE,
{
    let dx = s.1.x - s.0.x;
    let dy = s.1.y - s.0.y;
    let dot = (p.x - s.0.x) * dx + ((p.y - s.0.y) * dy);
    let len2 = dx * dx + dy * dy;
    if 0 < dot < len2 {
        assert(0 <= (dot * (SCALE as int)) / len2 <= SCALE) by (nonlinear_arith)
            requires
                0 < dot < len2,
                SCALE > 0,
        ;
    }
}

proof fn lemma_square_bound(v: int)
    requires
        -2_000_000_000 <= v <= 2_000_000_000,
    ensures
        0 <= v * v <= 4_000_000_000_000_000_000,
{
    assert(0 <= v * v <= 4_000_000_000_000_000_000) by (nonlinear_arith)
        requires
            -2_000_000_000 <= v <= 2_000_000_000,
    ;
}

/// `d * t / SCALE` lies between `0` and `d` when `0 <= t <= SCALE`.
proof fn lemma_mul_div_small(d: int, t: int)
    requires
        0 <= t <= SCALE,
    ensures
        abs_spec(crate::fixed::mul_div_tz(d, t, SCALE as int)) <= abs_spec(d),
        d >= 0 ==> 0 <= crate::fixed::mul_div_tz(d, t, SCALE as int) <= d,
        d < 0 ==> d <= crate::fixed::mul_div_tz(d, t, SCALE as int) <= 0,
{
    let p = d * t;
    assert(abs_spec(p) <= abs_spec(d) * SCALE) by (nonlinear_arith)
        requires
            0 <= t <= SCALE,
            p == d * t,
    ;
    if p >= 0 {
        assert(p / (SCALE as int) <= abs_spec(d) && p / (SCALE as int) >= 0) by (nonlinear_arith)
            requires
                0 <= p <= abs_spec(d) * SCALE,
                SCALE > 0,
        ;
        if d < 0 {
            assert(d * t == 0) by (nonlinear_arith)
                requires
                    d < 0,
                    t >= 0,
                    d * t >= 0,
            ;
        }
    } else {
        assert((-p) / (SCALE as int) <= abs_spec(d) && (-p) / (SCALE as int) >= 0)
            by (nonlinear_arith)
            requires
                p < 0,
                -p <= abs_spec(d) * SCALE,
                SCALE > 0,
        ;
        assert(d < 0) by (nonlinear_arith)
            requires
                d * t < 0,
                t >= 0,
        ;
    }
}

} // verus!
