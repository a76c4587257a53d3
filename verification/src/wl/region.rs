//! `wl_region`: a set of points built from rectangles that are added to or
//! subtracted from it, in order.
use vstd::prelude::*;
use vstd::multiset::Multiset;
use crate::entity::Entity;
use crate::util::rect::{fits_i32, irect, ivec2, max_i, min_i, IRect, IVec2};
use rstar::primitives::{GeomWithData, Rectangle};
use rstar::{DefaultParams, RTree};

verus! {

/// Whether a rectangle is added to a region or taken out of it.
#[derive(Clone, Copy, PartialEq, Eq, Debug, Hash, Structural)]
pub enum RegionOperator {
    Add,
    Sub,
}

/// The bounding rectangle that a region keeps of the rectangles added to it:
/// the union, corner by corner, of the empty rectangle at the origin and of
/// every added rectangle, in order.
pub open spec fn union_of(rects: Seq<(RegionOperator, IRect)>) -> IRect
    decreases rects.len(),
{
    if rects.len() == 0 {
        irect(0, 0, 0, 0)
    } else {
        let prev = union_of(rects.drop_last());
        let (op, r) = rects.last();
        if op is Add {
            prev.spec_union(r)
        } else {
            prev
        }
    }
}

/// Whether `p` is in the region: the last rectangle that holds `p` decides,
/// and a point held by no rectangle is outside.
pub open spec fn inside(rects: Seq<(RegionOperator, IRect)>, p: IVec2) -> bool
    decreases rects.len(),
{
    if rects.len() == 0 {
        false
    } else {
        let (op, r) = rects.last();
        if r.contains(p) {
            op is Add
        } else {
            inside(rects.drop_last(), p)
        }
    }
}

/// A `wl_region`: its rectangles in request order, and their bounding union.
pub struct WlRegion {
    pub rects: Vec<(RegionOperator, IRect)>,
    pub union: IRect,
}

impl WlRegion {
    /// The bounding union is that of the rectangles.
    pub open spec fn wf(&self) -> bool {
        self.union == union_of(self.rects@)
    }

    /// Whether `p` lies in the region.
    pub open spec fn spec_contains(&self, p: IVec2) -> bool {
        inside(self.rects@, p)
    }

    /// An empty region.
    pub fn new() -> (r: WlRegion)
        ensures
            r.rects@ == Seq::<(RegionOperator, IRect)>::empty(),
            r.union == irect(0, 0, 0, 0),
            r.wf(),
    {
        WlRegion { rects: Vec::new(), union: IRect::zero() }
    }

    /// Appends a rectangle; an added one also widens the bounding union.
    pub fn add(&mut self, operator: RegionOperator, rect: IRect)
        ensures
            final(self).rects@ == old(self).rects@.push((operator, rect)),
            final(self).union == (if operator is Add {
                old(self).union.spec_union(rect)
            } else {
                old(self).union
            }),
            old(self).wf() ==> final(self).wf(),
    {
        self.rects.push((operator, rect));
        proof {
            assert(self.rects@.drop_last() == old(self).rects@.push((operator, rect)).drop_last());
            assert(old(self).rects@.push((operator, rect)).drop_last() =~= old(self).rects@);
        }
        match operator {
            RegionOperator::Add => {
                self.union = self.union.union(rect);
            },
            RegionOperator::Sub => {},
        }
    }

    /// Recomputes the bounding union from the rectangles.
    pub fn update_union(&mut self)
        ensures
            final(self).rects@ == old(self).rects@,
            final(self).union == union_of(old(self).rects@),
            final(self).wf(),
    {
        let mut union = IRect::zero();
        let mut i: usize = 0;
        while i < self.rects.len()
            invariant
                i <= self.rects.len(),
                union == union_of(self.rects@.take(i as int)),
            decreases self.rects.len() - i,
        {
            let (operator, rect) = self.rects[i];
            proof {
                assert(self.rects@.take(i + 1).drop_last() =~= self.rects@.take(i as int));
            }
            match operator {
                RegionOperator::Add => {
                    union = union.union(rect);
                },
                RegionOperator::Sub => {},
            }
            i = i + 1;
        }
        proof {
            assert(self.rects@.take(i as int) =~= self.rects@);
        }
        self.union = union;
    }

    /// Whether `pos` lies in the region.
    pub fn is_inside(&self, pos: IVec2) -> (r: bool)
        ensures
            r == self.spec_contains(pos),
    {
        let mut result = false;
        let mut i: usize = 0;
        while i < self.rects.len()
            invariant
                i <= self.rects.len(),
                result == inside(self.rects@.take(i as int), pos),
            decreases self.rects.len() - i,
        {
            let (operator, rect) = self.rects[i];
            proof {
                assert(self.rects@.take(i + 1).drop_last() =~= self.rects@.take(i as int));
            }
            if rect.include_point(pos) {
                match operator {
                    RegionOperator::Add => {
                        result = true;
                    },
                    RegionOperator::Sub => {
                        result = false;
                    },
                }
            }
            i = i + 1;
        }
        proof {
            assert(self.rects@.take(i as int) =~= self.rects@);
        }
        result
    }
}

/// Every point of a region lies in the region's bounding union.
pub proof fn lemma_inside_within_union(rects: Seq<(RegionOperator, IRect)>, p: IVec2)
    ensures
        inside(rects, p) ==> union_of(rects).contains(p),
    decreases rects.len(),
{
    if rects.len() > 0 {
        lemma_inside_within_union(rects.drop_last(), p);
        lemma_union_only_grows(rects.drop_last(), rects.last().1, rects.last().0);
    }
}

/// Adding a rectangle never shrinks the bounding union: it only moves the
/// corners outward.
proof fn lemma_union_only_grows(rects: Seq<(RegionOperator, IRect)>, r: IRect, op: RegionOperator)
    ensures
        union_of(rects.push((op, r))).min.x <= union_of(rects).min.x,
        union_of(rects.push((op, r))).min.y <= union_of(rects).min.y,
        union_of(rects.push((op, r))).max.x >= union_of(rects).max.x,
        union_of(rects.push((op, r))).max.y >= union_of(rects).max.y,
{
    assert(rects.push((op, r)).drop_last() =~= rects);
}

/// Once a rectangle is added, its points are in the region, whatever came
/// before; once it is subtracted, its points are out.
pub proof fn lemma_last_rect_decides(
    rects: Seq<(RegionOperator, IRect)>,
    op: RegionOperator,
    r: IRect,
    p: IVec2,
)
    requires
        r.contains(p),
    ensures
        inside(rects.push((op, r)), p) == (op is Add),
{
}

/// A rectangle that does not hold `p` leaves the answer for `p` as it was.
pub proof fn lemma_other_rect_keeps(
    rects: Seq<(RegionOperator, IRect)>,
    op: RegionOperator,
    r: IRect,
    p: IVec2,
)
    requires
        !r.contains(p),
    ensures
        inside(rects.push((op, r)), p) == inside(rects, p),
{
    assert(rects.push((op, r)).drop_last() =~= rects);
}

/// A rectangle of a region, as the index of all regions keeps it: `index`
/// is its position among the region's rectangles, `entity` the region.
#[derive(Clone, Copy, PartialEq, Eq, Debug, Structural)]
pub struct RectRTreeObject {
    pub rect: IRect,
    pub operator: RegionOperator,
    pub index: usize,
    pub entity: Entity,
}

impl RectRTreeObject {
    /// The index treats the rectangle as the closed box spanned by its two
    /// corners: `p` is covered when it lies between them on both axes, ends
    /// included, in whichever order the corners come.
    pub open spec fn covers(self, p: IVec2) -> bool {
        let r = self.rect;
        &&& (r.min.x <= p.x <= r.max.x || r.max.x <= p.x <= r.min.x)
        &&& (r.min.y <= p.y <= r.max.y || r.max.y <= p.y <= r.min.y)
    }

    /// The lower corner of the box that the rectangle's corners span.
    pub open spec fn lower(self) -> IVec2 {
        ivec2(
            min_i(self.rect.min.x as int, self.rect.max.x as int),
            min_i(self.rect.min.y as int, self.rect.max.y as int),
        )
    }

    /// The upper corner of that box.
    pub open spec fn upper(self) -> IVec2 {
        ivec2(
            max_i(self.rect.min.x as int, self.rect.max.x as int),
            max_i(self.rect.min.y as int, self.rect.max.y as int),
        )
    }

    /// The box's lower and upper corners.
    pub fn envelope(&self) -> (r: (IVec2, IVec2))
        ensures
            r.0 == self.lower(),
            r.1 == self.upper(),
    {
        let r = self.rect;
        let lower = IVec2 {
            x: if r.min.x <= r.max.x { r.min.x } else { r.max.x },
            y: if r.min.y <= r.max.y { r.min.y } else { r.max.y },
        };
        let upper = IVec2 {
            x: if r.min.x >= r.max.x { r.min.x } else { r.max.x },
            y: if r.min.y >= r.max.y { r.min.y } else { r.max.y },
        };
        (lower, upper)
    }

    /// How far `p` is from the box along x: from the nearest point of the
    /// box to `p`.
    pub open spec fn gap_x(self, p: IVec2) -> int {
        clamp(p.x as int, self.lower().x as int, self.upper().x as int) - p.x
    }

    /// How far `p` is from the box along y.
    pub open spec fn gap_y(self, p: IVec2) -> int {
        clamp(p.y as int, self.lower().y as int, self.upper().y as int) - p.y
    }

    /// The squared distance from `p` to the box (zero inside it).
    pub open spec fn spec_distance_2(self, p: IVec2) -> int {
        self.gap_x(p) * self.gap_x(p) + self.gap_y(p) * self.gap_y(p)
    }

    /// The squared distance from `p` to the box; it must fit in `i32`.
    pub fn distance_2(&self, p: IVec2) -> (r: i32)
        requires
            fits_i32(self.gap_x(p)),
            fits_i32(self.gap_y(p)),
            self.spec_distance_2(p) <= i32::MAX,
        ensures
            r == self.spec_distance_2(p),
    {
        let (lower, upper) = self.envelope();
        let cx = if p.x < lower.x { lower.x } else if p.x > upper.x { upper.x } else { p.x };
        let cy = if p.y < lower.y { lower.y } else if p.y > upper.y { upper.y } else { p.y };
        let dx = cx - p.x;
        let dy = cy - p.y;
        assert(0 <= dx * dx && 0 <= dy * dy) by (nonlinear_arith);
        dx * dx + dy * dy
    }
}

/// `v` moved into `[lo, hi]`.
pub open spec fn clamp(v: int, lo: int, hi: int) -> int {
    if v < lo {
        lo
    } else if v > hi {
        hi
    } else {
        v
    }
}

/// A point is covered by a rectangle's box exactly when its distance to the
/// box is zero.
pub proof fn lemma_covers_iff_zero_distance(o: RectRTreeObject, p: IVec2)
    ensures
        o.covers(p) <==> o.spec_distance_2(p) == 0,
{
    let dx = o.gap_x(p);
    let dy = o.gap_y(p);
    assert(dx * dx + dy * dy == 0 <==> dx == 0 && dy == 0) by (nonlinear_arith);
}

/// A request to put a rectangle into the index.
pub struct RectAddEvent(pub RectRTreeObject);

/// A request to take one copy of a rectangle out of the index.
pub struct RectRemoveEvent(pub RectRTreeObject);

/// A request to take a rectangle of a region out of the index.
pub struct RectRemoveAllEvent(pub Entity);

/// The index of the rectangles of all regions: an `rstar` r-tree whose
/// entries carry each rectangle as their geometry. The tree keeps its
/// coordinates as `i128`: it sums and multiplies extents (areas, perimeters,
/// overlaps) in its coordinate type, and for corners that fit in `i32` none of
/// those values comes near the bounds of `i128`.
#[verifier::external_body]
pub struct RTreeIndex {
    rtree: RTree<GeomWithData<Rectangle<[i128; 2]>, RectRTreeObject>>,
}

/// The rectangles that the index holds, each as often as it was put in.
pub uninterp spec fn index_items(index: RTreeIndex) -> Multiset<RectRTreeObject>;

/// `RTree::new`: an index with nothing in it.
#[verifier::external_body]
fn empty_index() -> (r: RTreeIndex)
    ensures
        index_items(r) =~= Multiset::empty(),
{
    RTreeIndex { rtree: RTree::new() }
}

/// `RTree::insert`: one more copy of `item`, whatever was there before. The
/// corners go in widened to `i128`, so the tree's area and perimeter sums
/// cannot overflow on any rectangle with `i32` corners.
#[verifier::external_body]
fn index_insert(index: &mut RTreeIndex, item: RectRTreeObject)
    ensures
        index_items(*final(index)) =~= index_items(*old(index)).insert(item),
{
    let corners = (
        [item.rect.min.x as i128, item.rect.min.y as i128],
        [item.rect.max.x as i128, item.rect.max.y as i128],
    );
    index.rtree.insert(GeomWithData::new(Rectangle::from_corners(corners.0, corners.1), item));
}

/// `RTree::remove`: takes out one entry equal to `item`, if there is one, and
/// hands it back. Entries are equal when their data are; the geometry is a
/// function of the data.
#[verifier::external_body]
fn index_remove(index: &mut RTreeIndex, item: &RectRTreeObject) -> (r: Option<RectRTreeObject>)
    ensures
        index_items(*old(index)).contains(*item) ==> r == Some(*item),
        !index_items(*old(index)).contains(*item) ==> r is None,
        index_items(*final(index)) =~= index_items(*old(index)).remove(*item),
{
    let corners = (
        [item.rect.min.x as i128, item.rect.min.y as i128],
        [item.rect.max.x as i128, item.rect.max.y as i128],
    );
    let entry = GeomWithData::new(Rectangle::from_corners(corners.0, corners.1), *item);
    index.rtree.remove(&entry).map(|e| e.data)
}

/// `RTree::iter`: every entry, in an order that the tree's shape decides.
#[verifier::external_body]
fn index_entries(index: &RTreeIndex) -> (r: Vec<RectRTreeObject>)
    ensures
        r@.to_multiset() =~= index_items(*index),
{
    index.rtree.iter().map(|e| e.data).collect()
}

/// `RTree::locate_all_at_point`: the entries whose closed box holds `p`.
#[verifier::external_body]
fn index_at_point(index: &RTreeIndex, p: IVec2) -> (r: Vec<RectRTreeObject>)
    ensures
        r@.to_multiset() =~= index_items(*index).filter(|o: RectRTreeObject| o.covers(p)),
{
    index.rtree.locate_all_at_point(&[p.x as i128, p.y as i128]).map(|e| e.data).collect()
}

impl View for RTreeIndex {
    type V = Multiset<RectRTreeObject>;

    open spec fn view(&self) -> Multiset<RectRTreeObject> {
        index_items(*self)
    }
}

impl RTreeIndex {
    /// An empty index.
    pub fn new() -> (r: RTreeIndex)
        ensures
            r@ =~= Multiset::empty(),
    {
        empty_index()
    }

    /// The rectangles whose closed box holds `position`, each as often as
    /// the index holds it.
    pub fn find_all(&self, position: IVec2) -> (r: Vec<RectRTreeObject>)
        ensures
            r@.to_multiset() =~= self@.filter(|o: RectRTreeObject| o.covers(position)),
    {
        index_at_point(self, position)
    }

    /// Takes out one rectangle of the region `entity`, if the index holds
    /// any, and hands it back.
    pub fn remove_one_of_entity(&mut self, entity: Entity) -> (r: Option<RectRTreeObject>)
        ensures
            removes_one_of(old(self)@, entity, final(self)@),
            r matches Some(o) ==> old(self)@.contains(o) && o.entity == entity && final(self)@
                =~= old(self)@.remove(o),
            r is None ==> final(self)@ =~= old(self)@,
    {
        let entries = index_entries(self);
        let mut i: usize = 0;
        while i < entries.len()
            invariant
                i <= entries.len(),
                entries@.to_multiset() =~= self@,
                *self == *old(self),
                forall|j: int| 0 <= j < i ==> (#[trigger] entries@[j]).entity != entity,
            decreases entries.len() - i,
        {
            if entries[i].entity == entity {
                proof {
                    assert(entries@.contains(entries@[i as int]));
                    broadcast use vstd::seq_lib::group_to_multiset_ensures;
                }
                let ghost o = entries@[i as int];
                let removed = index_remove(self, &entries[i]);
                assert(old(self)@.contains(o) && o.entity == entity && self@ == old(self)@.remove(o));
                return removed;
            }
            i = i + 1;
        }
        proof {
            broadcast use vstd::seq_lib::group_to_multiset_ensures;
            assert forall|o: RectRTreeObject| old(self)@.contains(o) implies o.entity != entity by {
                assert(entries@.contains(o));
            }
        }
        None
    }
}

/// `after` is `before` less one rectangle of the region `entity`, when
/// `before` holds any, and `before` itself when it holds none.
pub open spec fn removes_one_of(
    before: Multiset<RectRTreeObject>,
    entity: Entity,
    after: Multiset<RectRTreeObject>,
) -> bool {
    if exists|o: RectRTreeObject| #[trigger] before.contains(o) && o.entity == entity {
        exists|o: RectRTreeObject|
            #[trigger] before.contains(o) && o.entity == entity && after == before.remove(o)
    } else {
        after == before
    }
}

/// `m` with one more copy of each rectangle of `items`.
pub open spec fn add_items(m: Multiset<RectRTreeObject>, items: Seq<RectRTreeObject>) -> Multiset<
    RectRTreeObject,
>
    decreases items.len(),
{
    if items.len() == 0 {
        m
    } else {
        add_items(m, items.drop_last()).insert(items.last())
    }
}

/// `m` with one copy fewer of each rectangle of `items`, in order; a
/// rectangle that is not there any more is passed over.
pub open spec fn remove_items(m: Multiset<RectRTreeObject>, items: Seq<RectRTreeObject>) -> Multiset<
    RectRTreeObject,
>
    decreases items.len(),
{
    if items.len() == 0 {
        m
    } else {
        remove_items(m, items.drop_last()).remove(items.last())
    }
}

/// `after` comes from `before` by taking out, for each region of `entities`
/// in turn, one of its rectangles where there is still one.
pub open spec fn entity_removals(
    before: Multiset<RectRTreeObject>,
    entities: Seq<Entity>,
    after: Multiset<RectRTreeObject>,
) -> bool
    decreases entities.len(),
{
    if entities.len() == 0 {
        after == before
    } else {
        exists|mid: Multiset<RectRTreeObject>|
            entity_removals(before, entities.drop_last(), mid) && #[trigger] removes_one_of(
                mid,
                entities.last(),
                after,
            )
    }
}

/// Applies a frame's events to the index: first every insertion, then every
/// removal of a single rectangle, then, for each region named, the removal of
/// one of its rectangles.
pub fn update_region_index(
    index: &mut RTreeIndex,
    add_event: &Vec<RectAddEvent>,
    remove_event: &Vec<RectRemoveEvent>,
    remove_entity_event: &Vec<RectRemoveAllEvent>,
)
    ensures
        entity_removals(
            remove_items(
                add_items(old(index)@, add_event@.map_values(|e: RectAddEvent| e.0)),
                remove_event@.map_values(|e: RectRemoveEvent| e.0),
            ),
            remove_entity_event@.map_values(|e: RectRemoveAllEvent| e.0),
            final(index)@,
        ),
{
    let ghost adds = add_event@.map_values(|e: RectAddEvent| e.0);
    let ghost removes = remove_event@.map_values(|e: RectRemoveEvent| e.0);
    let ghost entities = remove_entity_event@.map_values(|e: RectRemoveAllEvent| e.0);
    let mut i: usize = 0;
    while i < add_event.len()
        invariant
            i <= add_event.len(),
            adds == add_event@.map_values(|e: RectAddEvent| e.0),
            index@ == add_items(old(index)@, adds.take(i as int)),
        decreases add_event.len() - i,
    {
        proof {
            assert(adds.take(i + 1).drop_last() =~= adds.take(i as int));
        }
        index_insert(index, add_event[i].0);
        i = i + 1;
    }
    proof {
        assert(adds.take(i as int) =~= adds);
    }
    let ghost added = index@;
    let mut i: usize = 0;
    while i < remove_event.len()
        invariant
            i <= remove_event.len(),
            removes == remove_event@.map_values(|e: RectRemoveEvent| e.0),
            index@ == remove_items(added, removes.take(i as int)),
        decreases remove_event.len() - i,
    {
        proof {
            assert(removes.take(i + 1).drop_last() =~= removes.take(i as int));
        }
        let _ = index_remove(index, &remove_event[i].0);
        i = i + 1;
    }
    proof {
        assert(removes.take(i as int) =~= removes);
    }
    let ghost removed = index@;
    let mut i: usize = 0;
    while i < remove_entity_event.len()
        invariant
            i <= remove_entity_event.len(),
            entities == remove_entity_event@.map_values(|e: RectRemoveAllEvent| e.0),
            entity_removals(removed, entities.take(i as int), index@),
        decreases remove_entity_event.len() - i,
    {
        let ghost mid = index@;
        let _ = index.remove_one_of_entity(remove_entity_event[i].0);
        proof {
            assert(entities.take(i + 1).drop_last() =~= entities.take(i as int));
            assert(removes_one_of(mid, entities.take(i + 1).last(), index@));
        }
        i = i + 1;
    }
    proof {
        assert(entities.take(i as int) =~= entities);
    }
}

/// The plugin for regions.
pub struct WlRegionPlugin;

/// Taking out a rectangle just put in gives the index back.
pub proof fn lemma_insert_then_remove(m: Multiset<RectRTreeObject>, o: RectRTreeObject)
    ensures
        m.insert(o).remove(o) =~= m,
{
}

} // verus!
