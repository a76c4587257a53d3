//! Where a popup is placed, from the rules an `xdg_positioner` collects.
use vstd::prelude::*;
use crate::util::rect::{fits_i32, half_toward_zero, irect, IRect, IVec2};

verus! {

/// The point of the anchor rectangle that a popup is placed against.
#[derive(Clone, Copy, PartialEq, Eq, Debug, Structural)]
pub enum Anchor {
    /// The protocol's `none`: the center of the anchor rectangle.
    Center,
    Top,
    Bottom,
    Left,
    Right,
    TopLeft,
    BottomLeft,
    TopRight,
    BottomRight,
}

/// The direction in which a popup extends from its anchor point.
#[derive(Clone, Copy, PartialEq, Eq, Debug, Structural)]
pub enum Gravity {
    /// The protocol's `none`: centered on the anchor point.
    Center,
    Top,
    Bottom,
    Left,
    Right,
    TopLeft,
    BottomLeft,
    TopRight,
    BottomRight,
}

/// The rules that an `xdg_positioner` has been given.
#[derive(Clone, Copy, PartialEq, Eq, Debug, Structural)]
pub struct Positioner {
    pub anchor_rect: Option<IRect>,
    /// The raw `constraint_adjustment` bits.
    pub constraint_adjustment: Option<u32>,
    pub anchor_kind: Option<Anchor>,
    pub gravity: Option<Gravity>,
    pub is_relative: bool,
    pub parent_size: Option<IVec2>,
    pub offset: Option<IVec2>,
    pub size: Option<IVec2>,
}

/// An optional vector, the zero vector when absent.
pub open spec fn or_zero(v: Option<IVec2>) -> IVec2 {
    match v {
        Some(v) => v,
        None => IVec2 { x: 0, y: 0 },
    }
}

/// An optional rectangle, the empty rectangle at the origin when absent.
pub open spec fn or_zero_rect(r: Option<IRect>) -> IRect {
    match r {
        Some(r) => r,
        None => irect(0, 0, 0, 0),
    }
}

/// The vertical coordinate of the anchor point: the top edge for top
/// anchors, the bottom edge for bottom anchors, the middle otherwise.
pub open spec fn anchor_y(anchor: Option<Anchor>, a: IRect) -> int {
    match anchor {
        Some(Anchor::TopLeft) | Some(Anchor::TopRight) | Some(Anchor::Top) => a.min.y as int,
        Some(Anchor::BottomLeft) | Some(Anchor::BottomRight) | Some(Anchor::Bottom) => a.max.y as int,
        _ => half_toward_zero(a.min.y + a.max.y),
    }
}

/// The horizontal coordinate of the anchor point: the left edge for left
/// anchors, the right edge for right anchors, the middle otherwise.
pub open spec fn anchor_x(anchor: Option<Anchor>, a: IRect) -> int {
    match anchor {
        Some(Anchor::TopLeft) | Some(Anchor::BottomLeft) | Some(Anchor::Left) => a.min.x as int,
        Some(Anchor::BottomRight) | Some(Anchor::TopRight) | Some(Anchor::Right) => a.max.x as int,
        _ => half_toward_zero(a.min.x + a.max.x),
    }
}

/// How far up the popup is moved from the anchor point: all of its height
/// when it grows upward, none when it grows downward, half otherwise.
pub open spec fn gravity_dy(gravity: Option<Gravity>, height: i32) -> int {
    match gravity {
        Some(Gravity::TopLeft) | Some(Gravity::TopRight) | Some(Gravity::Top) => height as int,
        Some(Gravity::BottomLeft) | Some(Gravity::BottomRight) | Some(Gravity::Bottom) => 0,
        _ => half_toward_zero(height as int),
    }
}

/// How far left the popup is moved from the anchor point.
pub open spec fn gravity_dx(gravity: Option<Gravity>, width: i32) -> int {
    match gravity {
        Some(Gravity::TopLeft) | Some(Gravity::BottomLeft) | Some(Gravity::Left) => width as int,
        Some(Gravity::BottomRight) | Some(Gravity::TopRight) | Some(Gravity::Right) => 0,
        _ => half_toward_zero(width as int),
    }
}

/// The anchor point lies in the middle of the anchor rectangle on at least
/// one axis (every anchor but the four corners).
pub open spec fn anchor_uses_center(anchor: Option<Anchor>) -> bool {
    !(anchor == Some(Anchor::TopLeft) || anchor == Some(Anchor::TopRight) || anchor == Some(
        Anchor::BottomLeft,
    ) || anchor == Some(Anchor::BottomRight))
}

impl Positioner {
    /// A positioner with no rule set.
    pub fn new() -> (r: Positioner)
        ensures
            r.anchor_rect is None,
            r.constraint_adjustment is None,
            r.anchor_kind is None,
            r.gravity is None,
            !r.is_relative,
            r.parent_size is None,
            r.offset is None,
            r.size is None,
    {
        Positioner {
            anchor_rect: None,
            constraint_adjustment: None,
            anchor_kind: None,
            gravity: None,
            is_relative: false,
            parent_size: None,
            offset: None,
            size: None,
        }
    }

    /// The top of the popup once anchored, before gravity.
    pub open spec fn anchored_y(&self) -> int {
        or_zero(self.offset).y + anchor_y(self.anchor_kind, or_zero_rect(self.anchor_rect))
    }

    /// The left of the popup once anchored, before gravity.
    pub open spec fn anchored_x(&self) -> int {
        or_zero(self.offset).x + anchor_x(self.anchor_kind, or_zero_rect(self.anchor_rect))
    }

    /// The top of the popup.
    pub open spec fn spec_y(&self) -> int {
        self.anchored_y() - gravity_dy(self.gravity, or_zero(self.size).y)
    }

    /// The left of the popup.
    pub open spec fn spec_x(&self) -> int {
        self.anchored_x() - gravity_dx(self.gravity, or_zero(self.size).x)
    }

    /// The popup's rectangle: at `(spec_x, spec_y)` with the requested size.
    pub open spec fn spec_geometry(&self) -> IRect {
        let s = or_zero(self.size);
        irect(self.spec_x(), self.spec_y(), self.spec_x() + s.x, self.spec_y() + s.y)
    }

    /// Every step of the placement stays in `i32`.
    pub open spec fn geometry_fits(&self) -> bool {
        let s = or_zero(self.size);
        let o = or_zero(self.offset);
        let a = or_zero_rect(self.anchor_rect);
        &&& o.can_add(s)
        &&& anchor_uses_center(self.anchor_kind) ==> a.min.can_add(a.max)
        &&& fits_i32(self.anchored_y())
        &&& fits_i32(self.anchored_y() + s.y)
        &&& fits_i32(self.anchored_x())
        &&& fits_i32(self.anchored_x() + s.x)
        &&& fits_i32(self.spec_y())
        &&& fits_i32(self.spec_y() + s.y)
        &&& fits_i32(self.spec_x())
        &&& fits_i32(self.spec_x() + s.x)
    }

    /// Places the popup: its requested size, at the offset from the anchor
    /// point, moved against its gravity.
    pub fn get_geometry(&self) -> (r: IRect)
        requires
            self.geometry_fits(),
        ensures
            r == self.spec_geometry(),
            r.spec_width() == or_zero(self.size).x,
            r.spec_height() == or_zero(self.size).y,
    {
        let size = match self.size {
            Some(s) => s,
            None => IVec2::zero(),
        };
        let offset = match self.offset {
            Some(o) => o,
            None => IVec2::zero(),
        };
        let anchor_rect = match self.anchor_rect {
            Some(a) => a,
            None => IRect::zero(),
        };
        let mut geometry = IRect::from_pos_size(offset, size);
        let ay = anchor_point_y(self.anchor_kind, anchor_rect);
        geometry.set_y(geometry.y() + ay);
        let ax = anchor_point_x(self.anchor_kind, anchor_rect);
        geometry.set_x(geometry.x() + ax);
        let dy = gravity_offset_y(self.gravity, size.y);
        geometry.set_y(geometry.y() - dy);
        let dx = gravity_offset_x(self.gravity, size.x);
        geometry.set_x(geometry.x() - dx);
        geometry
    }
}

fn anchor_point_y(anchor: Option<Anchor>, a: IRect) -> (r: i32)
    requires
        anchor_uses_center(anchor) ==> a.min.can_add(a.max),
    ensures
        r == anchor_y(anchor, a),
{
    match anchor {
        Some(Anchor::TopLeft) | Some(Anchor::TopRight) | Some(Anchor::Top) => a.y(),
        Some(Anchor::BottomLeft) | Some(Anchor::BottomRight) | Some(Anchor::Bottom) => a.max.y,
        _ => a.center().y,
    }
}

fn anchor_point_x(anchor: Option<Anchor>, a: IRect) -> (r: i32)
    requires
        anchor_uses_center(anchor) ==> a.min.can_add(a.max),
    ensures
        r == anchor_x(anchor, a),
{
    match anchor {
        Some(Anchor::TopLeft) | Some(Anchor::BottomLeft) | Some(Anchor::Left) => a.x(),
        Some(Anchor::BottomRight) | Some(Anchor::TopRight) | Some(Anchor::Right) => a.max.x,
        _ => a.center().x,
    }
}

fn gravity_offset_y(gravity: Option<Gravity>, height: i32) -> (r: i32)
    ensures
        r == gravity_dy(gravity, height),
{
    match gravity {
        Some(Gravity::TopLeft) | Some(Gravity::TopRight) | Some(Gravity::Top) => height,
        Some(Gravity::BottomLeft) | Some(Gravity::BottomRight) | Some(Gravity::Bottom) => 0,
        _ => height / 2,
    }
}

fn gravity_offset_x(gravity: Option<Gravity>, width: i32) -> (r: i32)
    ensures
        r == gravity_dx(gravity, width),
{
    match gravity {
        Some(Gravity::TopLeft) | Some(Gravity::BottomLeft) | Some(Gravity::Left) => width,
        Some(Gravity::BottomRight) | Some(Gravity::TopRight) | Some(Gravity::Right) => 0,
        _ => width / 2,
    }
}

/// A request to an `xdg_positioner`. An enum value the compositor does not
/// know arrives as `None`.
#[derive(Clone, Copy, PartialEq, Eq, Debug, Structural)]
pub enum PositionerRequest {
    Destroy,
    SetSize { width: i32, height: i32 },
    SetAnchorRect { x: i32, y: i32, width: i32, height: i32 },
    SetAnchor(Option<Anchor>),
    SetGravity(Option<Gravity>),
    SetConstraintAdjustment(u32),
    SetOffset { x: i32, y: i32 },
    SetReactive,
    SetParentSize { parent_width: i32, parent_height: i32 },
    SetParentConfigure { serial: u32 },
}

/// The positioner after a request.
pub open spec fn spec_apply(p: Positioner, req: PositionerRequest) -> Positioner {
    match req {
        PositionerRequest::SetSize { width, height } => Positioner {
            size: Some(IVec2 { x: width, y: height }),
            ..p
        },
        PositionerRequest::SetAnchorRect { x, y, width, height } => Positioner {
            anchor_rect: Some(irect(x as int, y as int, x + width, y + height)),
            ..p
        },
        PositionerRequest::SetAnchor(Some(a)) => Positioner { anchor_kind: Some(a), ..p },
        PositionerRequest::SetGravity(Some(g)) => Positioner { gravity: Some(g), ..p },
        PositionerRequest::SetConstraintAdjustment(c) => Positioner {
            constraint_adjustment: Some(c),
            ..p
        },
        PositionerRequest::SetOffset { x, y } => Positioner {
            offset: Some(IVec2 { x, y }),
            ..p
        },
        PositionerRequest::SetReactive => Positioner { is_relative: true, ..p },
        PositionerRequest::SetParentSize { parent_width, parent_height } => Positioner {
            parent_size: Some(IVec2 { x: parent_width, y: parent_height }),
            ..p
        },
        _ => p,
    }
}

/// An `xdg_positioner` object.
pub struct XdgPositioner {
    pub positioner: Positioner,
}

impl XdgPositioner {
    pub fn new() -> (r: XdgPositioner)
        ensures
            r.positioner == (Positioner {
                anchor_rect: None,
                constraint_adjustment: None,
                anchor_kind: None,
                gravity: None,
                is_relative: false,
                parent_size: None,
                offset: None,
                size: None,
            }),
    {
        XdgPositioner { positioner: Positioner::new() }
    }

    /// Records a request.
    pub fn apply(&mut self, req: PositionerRequest)
        requires
            req matches PositionerRequest::SetAnchorRect { x, y, width, height } ==> (fits_i32(
                x + width,
            ) && fits_i32(y + height)),
        ensures
            final(self).positioner == spec_apply(old(self).positioner, req),
    {
        match req {
            PositionerRequest::SetSize { width, height } => {
                self.positioner.size = Some(IVec2::new(width, height));
            },
            PositionerRequest::SetAnchorRect { x, y, width, height } => {
                self.positioner.anchor_rect = Some(IRect::new(x, y, width, height));
            },
            PositionerRequest::SetAnchor(a) => {
                match a {
                    Some(a) => {
                        self.positioner.anchor_kind = Some(a);
                    },
                    None => {},
                }
            },
            PositionerRequest::SetGravity(g) => {
                match g {
                    Some(g) => {
                        self.positioner.gravity = Some(g);
                    },
                    None => {},
                }
            },
            PositionerRequest::SetConstraintAdjustment(c) => {
                self.positioner.constraint_adjustment = Some(c);
            },
            PositionerRequest::SetOffset { x, y } => {
                self.positioner.offset = Some(IVec2::new(x, y));
            },
            PositionerRequest::SetReactive => {
                self.positioner.is_relative = true;
            },
            PositionerRequest::SetParentSize { parent_width, parent_height } => {
                self.positioner.parent_size = Some(IVec2::new(parent_width, parent_height));
            },
            PositionerRequest::SetParentConfigure { .. } => {},
            PositionerRequest::Destroy => {},
        }
    }
}

/// A popup anchored at the top-left corner of its anchor rectangle and
/// growing toward the bottom right starts at that corner, moved by the offset.
pub proof fn lemma_top_left_anchor_bottom_right_gravity(p: Positioner)
    requires
        p.anchor_kind == Some(Anchor::TopLeft),
        p.gravity == Some(Gravity::BottomRight),
    ensures
        p.spec_geometry().min == crate::util::rect::ivec2(
            or_zero(p.offset).x + or_zero_rect(p.anchor_rect).min.x,
            or_zero(p.offset).y + or_zero_rect(p.anchor_rect).min.y,
        ),
{
}

/// A popup with no anchor and no gravity is centered on the center of its
/// anchor rectangle (moved by the offset), up to rounding.
pub proof fn lemma_default_placement_centered(p: Positioner)
    requires
        p.anchor_kind is None,
        p.gravity is None,
    ensures
        p.spec_x() == or_zero(p.offset).x + half_toward_zero(
            or_zero_rect(p.anchor_rect).min.x + or_zero_rect(p.anchor_rect).max.x,
        ) - half_toward_zero(or_zero(p.size).x as int),
        p.spec_y() == or_zero(p.offset).y + half_toward_zero(
            or_zero_rect(p.anchor_rect).min.y + or_zero_rect(p.anchor_rect).max.y,
        ) - half_toward_zero(or_zero(p.size).y as int),
{
}

/// Where a popup's top edge lands: at the offset from the anchor rectangle's
/// top edge for the three top anchors, from its bottom edge for the three
/// bottom anchors, and from its middle (rounded toward zero) otherwise; then
/// moved up by the popup's whole height for the three upward gravities, not
/// at all for the three downward ones, and by half its height otherwise. The
/// bottom edge lies the popup's height below.
pub proof fn lemma_popup_vertical_placement(p: Positioner)
    requires
        p.geometry_fits(),
    ensures
        ({
            let a = or_zero_rect(p.anchor_rect);
            let o = or_zero(p.offset);
            let h = or_zero(p.size).y as int;
            let k = p.anchor_kind;
            let g = p.gravity;
            let anchor = if k == Some(Anchor::Top) || k == Some(Anchor::TopLeft) || k == Some(
                Anchor::TopRight,
            ) {
                a.min.y as int
            } else if k == Some(Anchor::Bottom) || k == Some(Anchor::BottomLeft) || k == Some(
                Anchor::BottomRight,
            ) {
                a.max.y as int
            } else {
                half_toward_zero(a.min.y + a.max.y)
            };
            let up = if g == Some(Gravity::Top) || g == Some(Gravity::TopLeft) || g == Some(
                Gravity::TopRight,
            ) {
                h
            } else if g == Some(Gravity::Bottom) || g == Some(Gravity::BottomLeft) || g == Some(
                Gravity::BottomRight,
            ) {
                0
            } else {
                half_toward_zero(h)
            };
            &&& p.spec_geometry().min.y == o.y + anchor - up
            &&& p.spec_geometry().max.y == p.spec_geometry().min.y + h
        }),
{
}

/// Where a popup's left edge lands: at the offset from the anchor
/// rectangle's left edge for the three left anchors, from its right edge for
/// the three right anchors, and from its middle (rounded toward zero)
/// otherwise; then moved left by the popup's whole width for the three
/// leftward gravities, not at all for the three rightward ones, and by half
/// its width otherwise. The right edge lies the popup's width further.
pub proof fn lemma_popup_horizontal_placement(p: Positioner)
    requires
        p.geometry_fits(),
    ensures
        ({
            let a = or_zero_rect(p.anchor_rect);
            let o = or_zero(p.offset);
            let w = or_zero(p.size).x as int;
            let k = p.anchor_kind;
            let g = p.gravity;
            let anchor = if k == Some(Anchor::Left) || k == Some(Anchor::TopLeft) || k == Some(
                Anchor::BottomLeft,
            ) {
                a.min.x as int
            } else if k == Some(Anchor::Right) || k == Some(Anchor::TopRight) || k == Some(
                Anchor::BottomRight,
            ) {
                a.max.x as int
            } else {
                half_toward_zero(a.min.x + a.max.x)
            };
            let left = if g == Some(Gravity::Left) || g == Some(Gravity::TopLeft) || g == Some(
                Gravity::BottomLeft,
            ) {
                w
            } else if g == Some(Gravity::Right) || g == Some(Gravity::TopRight) || g == Some(
                Gravity::BottomRight,
            ) {
                0
            } else {
                half_toward_zero(w)
            };
            &&& p.spec_geometry().min.x == o.x + anchor - left
            &&& p.spec_geometry().max.x == p.spec_geometry().min.x + w
        }),
{
}

/// With no offset, a popup anchored at the bottom of its anchor rectangle
/// and growing downward hangs from the rectangle's bottom edge, and one
/// anchored at the top and growing upward stands on its top edge: neither
/// covers the anchor rectangle.
pub proof fn lemma_popup_beside_anchor_rect(p: Positioner)
    requires
        p.geometry_fits(),
        or_zero(p.offset) == (IVec2 { x: 0, y: 0 }),
        or_zero(p.size).y >= 0,
    ensures
        (p.anchor_kind == Some(Anchor::Bottom) || p.anchor_kind == Some(Anchor::BottomLeft)
            || p.anchor_kind == Some(Anchor::BottomRight)) && (p.gravity == Some(Gravity::Bottom)
            || p.gravity == Some(Gravity::BottomLeft) || p.gravity == Some(Gravity::BottomRight))
            ==> p.spec_geometry().min.y == or_zero_rect(p.anchor_rect).max.y,
        (p.anchor_kind == Some(Anchor::Top) || p.anchor_kind == Some(Anchor::TopLeft)
            || p.anchor_kind == Some(Anchor::TopRight)) && (p.gravity == Some(Gravity::Top)
            || p.gravity == Some(Gravity::TopLeft) || p.gravity == Some(Gravity::TopRight))
            ==> p.spec_geometry().max.y == or_zero_rect(p.anchor_rect).min.y,
{
    lemma_popup_vertical_placement(p);
}

} // verus!
