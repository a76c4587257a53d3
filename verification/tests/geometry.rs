use dway_server::util::rect::{IRect, IVec2};

#[test]
fn rect_new_keeps_corners() {
    let r = IRect::new(10, 20, 30, 40);
    assert_eq!(r.min, IVec2::new(10, 20));
    assert_eq!(r.max, IVec2::new(40, 60));
    assert_eq!(r.x(), 10);
    assert_eq!(r.y(), 20);
    assert_eq!(r.width(), 30);
    assert_eq!(r.height(), 40);
    assert_eq!(r.size(), IVec2::new(30, 40));
    assert_eq!(r.pos(), IVec2::new(10, 20));
}

#[test]
fn rect_area_is_width_times_height() {
    assert_eq!(IRect::new(0, 0, 1920, 1080).area(), 2_073_600);
    assert_eq!(IRect::new(5, 5, 0, 7).area(), 0);
    // A rectangle with both sides inverted has a positive product.
    let inverted = IRect { min: IVec2::new(10, 10), max: IVec2::new(0, 0) };
    assert_eq!(inverted.area(), 100);
}

#[test]
fn rect_area_does_not_overflow_i32() {
    let r = IRect::new(0, 0, 100_000, 100_000);
    assert_eq!(r.area(), 10_000_000_000i64);
}

#[test]
fn rect_center_rounds_toward_zero() {
    assert_eq!(IRect::new(0, 0, 5, 7).center(), IVec2::new(2, 3));
    assert_eq!(IRect { min: IVec2::new(-5, -7), max: IVec2::new(0, 0) }.center(), IVec2::new(-2, -3));
}

#[test]
fn rect_union_spans_both() {
    let a = IRect::new(0, 0, 10, 10);
    let b = IRect::new(20, -5, 5, 5);
    let u = a.union(b);
    assert_eq!(u, IRect { min: IVec2::new(0, -5), max: IVec2::new(25, 10) });
    assert_eq!(u, b.union(a));
}

#[test]
fn rect_union_is_associative_on_values() {
    let a = IRect::new(0, 0, 10, 10);
    let b = IRect::new(-3, 4, 2, 2);
    let c = IRect::new(8, 8, 10, 1);
    assert_eq!(a.union(b).union(c), a.union(b.union(c)));
}

#[test]
fn rect_union_covers_points_of_both() {
    let a = IRect::new(0, 0, 10, 10);
    let b = IRect::new(20, 20, 5, 5);
    let u = a.union(b);
    assert!(u.include_point(IVec2::new(1, 1)));
    assert!(u.include_point(IVec2::new(22, 22)));
}

#[test]
fn rect_intersection_of_overlapping() {
    let a = IRect::new(0, 0, 10, 10);
    let b = IRect::new(5, 5, 10, 10);
    assert_eq!(a.intersection(b), IRect::new(5, 5, 5, 5));
}

#[test]
fn rect_intersection_of_disjoint_is_empty() {
    let a = IRect::new(0, 0, 10, 10);
    let b = IRect::new(20, 30, 5, 5);
    let i = a.intersection(b);
    assert!(i.width() >= 0);
    assert!(i.height() >= 0);
    assert_eq!(i.area(), 0);
    assert!(!i.include_point(IVec2::new(10, 10)));
}

#[test]
fn rect_intersection_contains_exactly_common_points() {
    let a = IRect::new(0, 0, 10, 10);
    let b = IRect::new(5, 5, 10, 10);
    let i = a.intersection(b);
    for x in -2..18 {
        for y in -2..18 {
            let p = IVec2::new(x, y);
            assert_eq!(i.include_point(p), a.include_point(p) && b.include_point(p));
        }
    }
}

#[test]
fn rect_include_point_excludes_max_edge() {
    let r = IRect::new(0, 0, 10, 10);
    assert!(r.include_point(IVec2::new(0, 0)));
    assert!(r.include_point(IVec2::new(9, 9)));
    assert!(!r.include_point(IVec2::new(10, 5)));
    assert!(!r.include_point(IVec2::new(5, 10)));
    assert!(!r.include_point(IVec2::new(-1, 5)));
}

#[test]
fn rect_setters_keep_size_or_position() {
    let mut r = IRect::new(1, 2, 3, 4);
    r.set_x(10);
    assert_eq!(r, IRect::new(10, 2, 3, 4));
    r.set_y(20);
    assert_eq!(r, IRect::new(10, 20, 3, 4));
    r.set_width(7);
    assert_eq!(r, IRect::new(10, 20, 7, 4));
    r.set_size(IVec2::new(100, 200));
    assert_eq!(r, IRect::new(10, 20, 100, 200));
}

#[test]
fn rect_from_pos_size_and_zero() {
    assert_eq!(IRect::from_pos_size(IVec2::new(3, 4), IVec2::new(5, 6)), IRect::new(3, 4, 5, 6));
    assert_eq!(IRect::zero(), IRect::new(0, 0, 0, 0));
}

#[test]
fn ivec2_arithmetic() {
    let a = IVec2::new(3, -4);
    let b = IVec2::new(10, 20);
    assert_eq!(a.add(b), IVec2::new(13, 16));
    assert_eq!(a.sub(b), IVec2::new(-7, -24));
    assert_eq!(a.neg(), IVec2::new(-3, 4));
    assert_eq!(IVec2::zero(), IVec2::new(0, 0));
}
