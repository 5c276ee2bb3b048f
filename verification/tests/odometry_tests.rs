//! Odometry transforms: identity, application and the composition of
//! per-cycle increments.

use control_core::geometry::{Orientation, Point2, Vector2};
use control_core::odometry::Transform2;

fn translation(x: i64, y: i64) -> Transform2 {
    Transform2 {
        rot: Orientation {
            cos_milli: 1000,
            sin_milli: 0,
        },
        translation: Vector2 { x, y },
    }
}

#[test]
fn identity_fixes_points() {
    let identity = Transform2::identity();
    let p = Point2 { x: 123, y: -456 };
    assert_eq!(identity.apply(p), p);
}

#[test]
fn translations_compose_by_adding_displacements() {
    let a = translation(100, -50);
    let b = translation(7, 13);
    let ab = a.compose(&b);
    assert_eq!(ab.translation, Vector2 { x: 107, y: -37 });
    assert_eq!(ab.rot.cos_milli, 1000);
    assert_eq!(ab.rot.sin_milli, 0);
}

#[test]
fn translation_composition_is_associative() {
    // integrating per-cycle increments one by one or in one shot
    // yields the same frame
    let a = translation(100, -50);
    let b = translation(7, 13);
    let c = translation(-20, 4);
    let left = a.compose(&b).compose(&c);
    let right = a.compose(&b.compose(&c));
    assert_eq!(left, right);
}

#[test]
fn rotated_composition_is_associative_to_a_thousandth() {
    // with rotating increments the per-composition truncation may move
    // the groupings apart by at most a thousandth per entry
    let quarter = Transform2 {
        rot: Orientation {
            cos_milli: 0,
            sin_milli: 1000,
        },
        translation: Vector2 { x: 500, y: 0 },
    };
    let tilt = Transform2 {
        rot: Orientation {
            cos_milli: 866,
            sin_milli: 500,
        },
        translation: Vector2 { x: 100, y: -200 },
    };
    let shift = translation(30, 40);
    let left = quarter.compose(&tilt).compose(&shift);
    let right = quarter.compose(&tilt.compose(&shift));
    assert!((left.rot.cos_milli - right.rot.cos_milli).abs() <= 1);
    assert!((left.rot.sin_milli - right.rot.sin_milli).abs() <= 1);
    assert!((left.translation.x - right.translation.x).abs() <= 1);
    assert!((left.translation.y - right.translation.y).abs() <= 1);
}

#[test]
fn rotation_turns_the_plane() {
    let quarter = Transform2 {
        rot: Orientation {
            cos_milli: 0,
            sin_milli: 1000,
        },
        translation: Vector2 { x: 0, y: 0 },
    };
    assert_eq!(
        quarter.apply(Point2 { x: 1000, y: 0 }),
        Point2 { x: 0, y: 1000 }
    );
    assert_eq!(
        quarter.apply_vector(Vector2 { x: 0, y: 500 }),
        Vector2 { x: -500, y: 0 }
    );
}
