use dway_server::entity::Entity;
use dway_server::util::rect::{IRect, IVec2};
use dway_server::wl::region::{
    update_region_index, RTreeIndex, RectAddEvent, RectRTreeObject, RectRemoveAllEvent,
    RectRemoveEvent, RegionOperator, WlRegion,
};

fn obj(rect: IRect, index: usize, entity: u64) -> RectRTreeObject {
    RectRTreeObject { rect, operator: RegionOperator::Add, index, entity: Entity(entity) }
}

fn sorted(mut v: Vec<RectRTreeObject>) -> Vec<(i32, i32, usize, u64)> {
    let mut keys: Vec<(i32, i32, usize, u64)> =
        v.drain(..).map(|o| (o.rect.min.x, o.rect.min.y, o.index, o.entity.0)).collect();
    keys.sort();
    keys
}

#[test]
fn region_new_is_empty() {
    let r = WlRegion::new();
    assert!(r.rects.is_empty());
    assert_eq!(r.union, IRect::zero());
    assert!(!r.is_inside(IVec2::new(0, 0)));
}

#[test]
fn region_add_then_point_inside() {
    let mut r = WlRegion::new();
    r.add(RegionOperator::Add, IRect::new(10, 10, 20, 20));
    assert!(r.is_inside(IVec2::new(15, 15)));
    assert!(!r.is_inside(IVec2::new(5, 5)));
    assert!(!r.is_inside(IVec2::new(30, 30)));
}

#[test]
fn region_subtract_cuts_a_hole() {
    let mut r = WlRegion::new();
    r.add(RegionOperator::Add, IRect::new(0, 0, 100, 100));
    r.add(RegionOperator::Sub, IRect::new(40, 40, 20, 20));
    assert!(r.is_inside(IVec2::new(10, 10)));
    assert!(!r.is_inside(IVec2::new(50, 50)));
    // The last rectangle holding the point decides.
    r.add(RegionOperator::Add, IRect::new(45, 45, 5, 5));
    assert!(r.is_inside(IVec2::new(46, 46)));
    assert!(!r.is_inside(IVec2::new(55, 55)));
}

#[test]
fn region_union_includes_origin_and_added_rects() {
    let mut r = WlRegion::new();
    r.add(RegionOperator::Add, IRect::new(10, 20, 5, 5));
    assert_eq!(r.union, IRect { min: IVec2::new(0, 0), max: IVec2::new(15, 25) });
    r.add(RegionOperator::Sub, IRect::new(-100, -100, 5, 5));
    assert_eq!(r.union, IRect { min: IVec2::new(0, 0), max: IVec2::new(15, 25) });
    r.add(RegionOperator::Add, IRect::new(-3, 1, 2, 2));
    assert_eq!(r.union, IRect { min: IVec2::new(-3, 0), max: IVec2::new(15, 25) });
}

#[test]
fn region_update_union_recomputes() {
    let mut r = WlRegion::new();
    r.add(RegionOperator::Add, IRect::new(10, 20, 5, 5));
    r.add(RegionOperator::Add, IRect::new(-3, 1, 2, 2));
    let kept = r.union;
    r.union = IRect::new(99, 99, 1, 1);
    r.update_union();
    assert_eq!(r.union, kept);
    assert_eq!(r.rects.len(), 2);
}

#[test]
fn region_inside_points_lie_in_union() {
    let mut r = WlRegion::new();
    r.add(RegionOperator::Add, IRect::new(-20, -20, 10, 10));
    r.add(RegionOperator::Sub, IRect::new(-15, -15, 2, 2));
    r.add(RegionOperator::Add, IRect::new(30, 40, 10, 10));
    for x in -25..45 {
        for y in -25..55 {
            let p = IVec2::new(x, y);
            if r.is_inside(p) {
                assert!(r.union.include_point(p));
            }
        }
    }
}

#[test]
fn index_find_all_uses_closed_boxes() {
    let mut index = RTreeIndex::new();
    let a = obj(IRect::new(0, 0, 10, 10), 0, 1);
    let b = obj(IRect::new(5, 5, 10, 10), 1, 1);
    update_region_index(&mut index, &vec![RectAddEvent(a), RectAddEvent(b)], &vec![], &vec![]);
    assert_eq!(sorted(index.find_all(IVec2::new(7, 7))), sorted(vec![a, b]));
    assert_eq!(sorted(index.find_all(IVec2::new(1, 1))), sorted(vec![a]));
    // The far corner belongs to the box.
    assert_eq!(sorted(index.find_all(IVec2::new(15, 15))), sorted(vec![b]));
    assert!(index.find_all(IVec2::new(16, 16)).is_empty());
}

#[test]
fn index_inverted_rect_is_found_between_corners() {
    let mut index = RTreeIndex::new();
    let a = obj(IRect { min: IVec2::new(10, 10), max: IVec2::new(0, 0) }, 0, 1);
    update_region_index(&mut index, &vec![RectAddEvent(a)], &vec![], &vec![]);
    assert_eq!(index.find_all(IVec2::new(5, 5)).len(), 1);
}

#[test]
fn index_remove_takes_one_copy() {
    let mut index = RTreeIndex::new();
    let a = obj(IRect::new(0, 0, 10, 10), 0, 1);
    update_region_index(&mut index, &vec![RectAddEvent(a), RectAddEvent(a)], &vec![], &vec![]);
    assert_eq!(index.find_all(IVec2::new(1, 1)).len(), 2);
    update_region_index(&mut index, &vec![], &vec![RectRemoveEvent(a)], &vec![]);
    assert_eq!(index.find_all(IVec2::new(1, 1)).len(), 1);
    // Removing something absent changes nothing.
    let other = obj(IRect::new(0, 0, 10, 10), 5, 1);
    update_region_index(&mut index, &vec![], &vec![RectRemoveEvent(other)], &vec![]);
    assert_eq!(index.find_all(IVec2::new(1, 1)).len(), 1);
}

#[test]
fn index_insert_then_remove_gives_index_back() {
    let mut index = RTreeIndex::new();
    let a = obj(IRect::new(0, 0, 10, 10), 0, 1);
    let b = obj(IRect::new(2, 2, 3, 3), 1, 1);
    update_region_index(&mut index, &vec![RectAddEvent(a)], &vec![], &vec![]);
    update_region_index(&mut index, &vec![RectAddEvent(b)], &vec![RectRemoveEvent(b)], &vec![]);
    assert_eq!(sorted(index.find_all(IVec2::new(3, 3))), sorted(vec![a]));
}

#[test]
fn index_adds_before_removes_in_one_frame() {
    let mut index = RTreeIndex::new();
    let a = obj(IRect::new(0, 0, 10, 10), 0, 1);
    update_region_index(&mut index, &vec![RectAddEvent(a)], &vec![RectRemoveEvent(a)], &vec![]);
    assert!(index.find_all(IVec2::new(1, 1)).is_empty());
}

#[test]
fn index_remove_all_takes_one_rect_of_the_region() {
    let mut index = RTreeIndex::new();
    let a = obj(IRect::new(0, 0, 10, 10), 0, 7);
    let b = obj(IRect::new(0, 0, 10, 10), 1, 7);
    let c = obj(IRect::new(0, 0, 10, 10), 0, 8);
    update_region_index(
        &mut index,
        &vec![RectAddEvent(a), RectAddEvent(b), RectAddEvent(c)],
        &vec![],
        &vec![RectRemoveAllEvent(Entity(7))],
    );
    let left = index.find_all(IVec2::new(1, 1));
    assert_eq!(left.len(), 2);
    assert_eq!(left.iter().filter(|o| o.entity == Entity(7)).count(), 1);
    assert_eq!(left.iter().filter(|o| o.entity == Entity(8)).count(), 1);
}

#[test]
fn index_remove_one_of_entity_reports_what_left() {
    let mut index = RTreeIndex::new();
    let a = obj(IRect::new(0, 0, 10, 10), 3, 7);
    update_region_index(&mut index, &vec![RectAddEvent(a)], &vec![], &vec![]);
    assert_eq!(index.remove_one_of_entity(Entity(9)), None);
    assert_eq!(index.remove_one_of_entity(Entity(7)), Some(a));
    assert_eq!(index.remove_one_of_entity(Entity(7)), None);
    assert!(index.find_all(IVec2::new(1, 1)).is_empty());
}

#[test]
fn rtree_object_envelope_and_distance() {
    let o = obj(IRect { min: IVec2::new(10, 0), max: IVec2::new(0, 20) }, 0, 1);
    assert_eq!(o.envelope(), (IVec2::new(0, 0), IVec2::new(10, 20)));
    assert_eq!(o.distance_2(IVec2::new(5, 5)), 0);
    assert_eq!(o.distance_2(IVec2::new(10, 20)), 0);
    assert_eq!(o.distance_2(IVec2::new(13, 24)), 25);
    assert_eq!(o.distance_2(IVec2::new(-2, 5)), 4);
}

#[test]
fn rtree_index_matches_zero_distance() {
    let mut index = RTreeIndex::new();
    let a = obj(IRect::new(0, 0, 10, 10), 0, 1);
    update_region_index(&mut index, &vec![RectAddEvent(a)], &vec![], &vec![]);
    for x in -3..14 {
        for y in -3..14 {
            let p = IVec2::new(x, y);
            assert_eq!(index.find_all(p).len() == 1, a.distance_2(p) == 0);
        }
    }
}

#[test]
fn index_holds_many_huge_rects() {
    let mut index = RTreeIndex::new();
    let mut adds = Vec::new();
    for i in 0..40i32 {
        let r = IRect { min: IVec2::new(i32::MIN + i, -2_000_000_000), max: IVec2::new(i32::MAX - i, 2_000_000_000) };
        adds.push(RectAddEvent(obj(r, i as usize, 7)));
    }
    for i in 0..20i32 {
        adds.push(RectAddEvent(obj(IRect::new(i * 50_000, 0, 50_000, 50_000), 100 + i as usize, 8)));
    }
    update_region_index(&mut index, &adds, &vec![], &vec![]);
    assert_eq!(index.find_all(IVec2::new(0, 0)).len(), 41);
    assert_eq!(index.find_all(IVec2::new(75_000, 10)).len(), 41);
    assert_eq!(index.find_all(IVec2::new(i32::MAX - 3, 0)).len(), 4);
}
