//! Segment geometry, in millimetre fixed-point coordinates: one
//! metre is a thousand millimetres.

use control_core::geometry::{ArcPath, Circle, Direction, LineSegment, Orientation, Point2, Vector2};

fn p(x: i64, y: i64) -> Point2 {
    Point2 { x, y }
}

fn test_all_permutations(
    reference_line_segment: LineSegment,
    line_segment: LineSegment,
    intersects: bool,
) {
    assert_eq!(
        reference_line_segment.intersects_line_segment(line_segment),
        intersects
    );
    assert_eq!(
        reference_line_segment.intersects_line_segment(line_segment.flip()),
        intersects
    );
    assert_eq!(
        reference_line_segment
            .flip()
            .intersects_line_segment(line_segment),
        intersects
    );
    assert_eq!(
        reference_line_segment
            .flip()
            .intersects_line_segment(line_segment.flip()),
        intersects
    );
    assert_eq!(
        line_segment.intersects_line_segment(reference_line_segment),
        intersects
    );
    assert_eq!(
        line_segment.intersects_line_segment(reference_line_segment.flip()),
        intersects
    );
    assert_eq!(
        line_segment
            .flip()
            .intersects_line_segment(reference_line_segment),
        intersects
    );
    assert_eq!(
        line_segment
            .flip()
            .intersects_line_segment(reference_line_segment.flip()),
        intersects
    );
}

#[test]
fn parallel_lines_intersection() {
    let reference_line_segment = LineSegment(p(0, 0), p(1000, 0));
    let line_segment = LineSegment(p(1000, 1000), p(2000, 1000));
    test_all_permutations(reference_line_segment, line_segment, false);
}

#[test]
fn crossing_lines_intersection() {
    let reference_line_segment = LineSegment(p(0, 0), p(1000, 0));
    let line_segment = LineSegment(p(500, -1000), p(500, 1000));
    test_all_permutations(reference_line_segment, line_segment, true);
}

#[test]
fn t_shaped_lines_intersection() {
    let reference_line_segment = LineSegment(p(0, 0), p(1000, 0));
    let line_segment = LineSegment(p(1100, -1000), p(1100, 1000));
    test_all_permutations(reference_line_segment, line_segment, false);
}

#[test]
fn skew_lines_intersection() {
    let reference_line_segment = LineSegment(p(0, 0), p(1000, 0));
    let line_segment = LineSegment(p(5000, 4000), p(4000, 5000));
    test_all_permutations(reference_line_segment, line_segment, false);
}

#[test]
fn line_segment_lengths() {
    let line_segment = LineSegment(p(0, 0), p(0, 5000));
    assert_eq!(line_segment.length(), 5000);
    assert_eq!(line_segment.length_squared(), 5000 * 5000);
    let diagonal = LineSegment(p(-1000, -1000), p(1000, 1000));
    // the length of the unit diagonal is the square root of eight,
    // rounded down at millimetre resolution
    assert_eq!(diagonal.length(), 2828);
    assert_eq!(diagonal.length_squared(), 8_000_000);
}

#[test]
fn shortest_distance_between_point_and_line_segment() {
    let line_segment = LineSegment(p(-1000, 0), p(1000, 0));

    assert_eq!(line_segment.distance_to(p(-1000, 0)), 0);
    assert_eq!(line_segment.distance_to(p(1000, 0)), 0);
    assert_eq!(line_segment.distance_to(p(0, 1000)), 1000);
    // the square root of two at millimetre resolution
    assert_eq!(line_segment.distance_to(p(2000, -1000)), 1414);
    assert_eq!(line_segment.distance_to(p(-500, -500)), 500);
}

#[test]
fn closest_point_clamps_to_the_segment() {
    let line_segment = LineSegment(p(-1000, 0), p(1000, 0));
    assert_eq!(line_segment.closest_point(p(2000, -1000)), p(1000, 0));
    assert_eq!(line_segment.closest_point(p(-500, -500)), p(-500, 0));
    assert_eq!(line_segment.closest_point(p(250, 400)), p(250, 0));
}

#[test]
fn direction_of_points_around_a_segment() {
    let segment = LineSegment(p(0, 0), p(1000, 0));
    assert_eq!(segment.get_direction(p(500, 1000)), Direction::Counterclockwise);
    assert_eq!(segment.get_direction(p(500, -1000)), Direction::Clockwise);
    assert_eq!(segment.get_direction(p(2000, 0)), Direction::Collinear);
}

#[test]
fn translate_moves_both_endpoints() {
    let segment = LineSegment(p(0, 0), p(1000, 0));
    let moved = segment.translate(Vector2 { x: 10, y: -20 });
    assert_eq!(moved, LineSegment(p(10, -20), p(1010, -20)));
}

#[test]
fn center_is_the_midpoint() {
    let segment = LineSegment(p(0, 0), p(1000, 500));
    assert_eq!(segment.center(), p(500, 250));
}

fn quarter_arc(clockwise: bool) -> ArcPath {
    // a unit-metre arc around (1, 1) from the positive x ray to the
    // positive y ray
    ArcPath {
        circle: Circle {
            center: p(1000, 1000),
            radius: 1000,
        },
        start: Orientation {
            cos_milli: 1000,
            sin_milli: 0,
        },
        end: Orientation {
            cos_milli: 0,
            sin_milli: 1000,
        },
        clockwise,
    }
}

#[test]
fn arc_intersections() {
    let arc = quarter_arc(false);

    assert!(!LineSegment(p(0, 2000), p(2000, 0)).overlaps_arc(arc));
    assert!(!LineSegment(p(2000, 2000), p(3000, 3000)).overlaps_arc(arc));
    assert!(!LineSegment(p(0, 1000), p(3000, 0)).overlaps_arc(arc));
    assert!(LineSegment(p(0, 1000), p(3000, 2000)).overlaps_arc(arc));
    assert!(LineSegment(p(0, 0), p(2000, 2000)).overlaps_arc(arc));

    let arc = quarter_arc(true);

    assert!(!LineSegment(p(1000, 1000), p(3000, 3000)).overlaps_arc(arc));
    assert!(!LineSegment(p(500, 1000), p(1500, 1000)).overlaps_arc(arc));
    assert!(!LineSegment(p(0, 3000), p(2000, 3000)).overlaps_arc(arc));
    assert!(LineSegment(p(0, 2000), p(2000, 0)).overlaps_arc(arc));
    assert!(LineSegment(p(0, 0), p(2000, 2000)).overlaps_arc(arc));
    assert!(LineSegment(p(-1000, 1000), p(2000, 0)).overlaps_arc(arc));
}

#[test]
fn try_map_carries_both_endpoints_or_the_first_failure() {
    let segment = LineSegment(p(100, 200), p(-300, 400));
    let shifted = segment.try_map(|point: Point2| Ok::<Point2, ()>(Point2 {
        x: point.x + 10,
        y: point.y - 10,
    }));
    assert_eq!(shifted, Ok(LineSegment(p(110, 190), p(-290, 390))));

    let only_right_half = segment.try_map(|point: Point2| {
        if point.x < 0 {
            Err(point.x)
        } else {
            Ok(point)
        }
    });
    assert_eq!(only_right_half, Err(-300));
}
