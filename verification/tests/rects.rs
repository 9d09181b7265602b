use fixed32_math::{Fp, Rect, Vector};

#[test]
fn rect_from() {
    let result = Rect::from((10, 33, 20, 30));
    assert_eq!(result.pos, Vector::from((10, 33)));
    assert_eq!(result.size, Vector::from((20, 30)));
}

#[test]
fn rect_move() {
    let result = Rect::from((10, 33, 20, 30)).move_by(Vector::from((18, -2)));
    assert_eq!(result.pos, Vector::from((28, 31)));
    assert_eq!(result.size, Vector::from((20, 30)));
}

#[test]
fn test_contains_point_inside() {
    let rect = Rect::new(Vector::from((0, 0)), Vector::from((10, 10)));
    let point_inside = Vector::from((5, 5));
    assert!(rect.contains_point(&point_inside));
}

#[test]
fn test_contains_point_near_edge() {
    let rect = Rect::new(Vector::from((0, 0)), Vector::from((10, 10)));
    let point_on_edge = Vector::from((9, 5));
    assert!(rect.contains_point(&point_on_edge));
}

#[test]
fn test_contains_point_outside() {
    let rect = Rect::new(Vector::from((0, 0)), Vector::from((10, 10)));
    let point_outside = Vector::from((10, 5));
    assert!(!rect.contains_point(&point_outside));
}

#[test]
fn test_intersection_no_overlap() {
    let rect1 = Rect::new(Vector::from((0, 0)), Vector::from((10, 10)));
    let rect2 = Rect::new(Vector::from((15, 15)), Vector::from((10, 10)));
    assert_eq!(rect1.intersection(&rect2), None);
}

#[test]
fn test_intersection_partial_overlap() {
    let rect1 = Rect::new(Vector::from((0, 0)), Vector::from((10, 10)));
    let rect2 = Rect::new(Vector::from((5, 5)), Vector::from((10, 10)));
    let expected = Rect::new(Vector::from((5, 5)), Vector::from((5, 5)));
    assert_eq!(rect1.intersection(&rect2), Some(expected));
}

#[test]
fn test_intersection_full_overlap() {
    let rect1 = Rect::new(Vector::from((0, 0)), Vector::from((10, 10)));
    let rect2 = Rect::new(Vector::from((2, 2)), Vector::from((5, 5)));
    let expected = Rect::new(Vector::from((2, 2)), Vector::from((5, 5)));
    assert_eq!(rect1.intersection(&rect2), Some(expected));
}

#[test]
fn edges_of_rect() {
    let rect = Rect::from((10, 33, 20, 30));
    assert_eq!(rect.left(), Fp::from(10));
    assert_eq!(rect.bottom(), Fp::from(33));
    assert_eq!(rect.right(), Fp::from(30));
    assert_eq!(rect.top(), Fp::from(63));
}

#[test]
fn area_and_perimeter_formulas() {
    let rect = Rect::from((10, 33, 20, 30));
    assert_eq!(rect.area(), Fp::from(600));
    assert_eq!(rect.perimeter(), Fp::from(100));
}

#[test]
fn aspect_ratio_of_rect() {
    let rect = Rect::from((0, 0, 20, 10));
    assert_eq!(rect.aspect_ratio(), Fp::from(2));
}

#[test]
fn touching_rects_overlap_but_do_not_intersect() {
    // The rectangles share the x == 10 edge: the overlap test counts the
    // touch, the intersection refuses the zero-width region.
    let a = Rect::from((0, 0, 10, 10));
    let b = Rect::from((10, 0, 10, 10));
    assert!(a.is_overlapping(b));
    assert_eq!(a.intersection(&b), None);
}

#[test]
fn separated_rects_do_not_overlap() {
    let a = Rect::from((0, 0, 10, 10));
    let b = Rect::from((15, 15, 10, 10));
    assert!(!a.is_overlapping(b));
    assert!(a.is_overlapping(Rect::from((5, 5, 10, 10))));
}

#[test]
fn contains_rect_needs_far_corner_strictly_inside() {
    let outer = Rect::from((0, 0, 10, 10));
    assert!(outer.contains_rect(&Rect::from((1, 1, 5, 5))));
    // The far corner of an identical rectangle lands exactly on the
    // exclusive boundary, so the rectangle does not contain itself.
    assert!(!outer.contains_rect(&Rect::from((0, 0, 10, 10))));
}

#[test]
fn union_bounds_both_rects() {
    let a = Rect::from((0, 0, 10, 10));
    let b = Rect::from((15, 15, 10, 10));
    assert_eq!(a.union(&b), Rect::from((0, 0, 25, 25)));
}

#[test]
fn union_is_commutative_sample() {
    let a = Rect::from((0, 0, 10, 10));
    let b = Rect::from((5, -3, 4, 20));
    assert_eq!(a.union(&b), b.union(&a));
}

#[test]
fn union_is_associative_sample() {
    let a = Rect::from((0, 0, 10, 10));
    let b = Rect::from((5, -3, 4, 20));
    let c = Rect::from((-7, 2, 1, 1));
    assert_eq!(a.union(&b).union(&c), a.union(&b.union(&c)));
}

#[test]
fn union_is_idempotent_sample() {
    let r = Rect::from((10, 33, 20, 30));
    assert_eq!(r.union(&r), r);
}

#[test]
fn expanded_and_contracted() {
    let r = Rect::from((10, 10, 20, 20));
    let offset = Vector::from((2, 3));
    let grown = r.expanded(offset);
    assert_eq!(grown, Rect::from((8, 7, 24, 26)));
    assert_eq!(grown.contracted(offset), r);
    assert_eq!(Rect::default(), Rect::from((0, 0, 0, 0)));
}
