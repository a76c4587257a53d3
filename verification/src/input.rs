//! Pointer grabs and the edges a resize acts on.
use vstd::prelude::*;
use crate::entity::Entity;
use crate::util::rect::{IRect, IVec2};

verus! {

/// Bit of [`ResizeEdges`] for the top edge.
pub const EDGE_TOP: u32 = 1;
/// Bit of [`ResizeEdges`] for the bottom edge.
pub const EDGE_BUTTOM: u32 = 2;
/// Bit of [`ResizeEdges`] for the left edge.
pub const EDGE_LEFT: u32 = 4;
/// Bit of [`ResizeEdges`] for the right edge.
pub const EDGE_RIGHT: u32 = 8;

/// A set of window edges, one bit per edge (the bit values of the
/// `xdg_toplevel.resize_edge` protocol enum).
#[derive(Clone, Copy, PartialEq, Eq, Debug, Hash, Structural)]
pub struct ResizeEdges {
    pub bits: u32,
}

impl ResizeEdges {
    pub fn from_bits(bits: u32) -> (r: ResizeEdges)
        ensures
            r.bits == bits,
    {
        ResizeEdges { bits }
    }

    /// Whether every edge of `other` is in `self`.
    pub fn contains(&self, other: ResizeEdges) -> (r: bool)
        ensures
            r == (self.bits & other.bits == other.bits),
    {
        self.bits & other.bits == other.bits
    }
}

/// A pointer grab held by a seat.
#[derive(Clone, Copy, PartialEq, Eq, Debug, Structural)]
pub enum Grab {
    /// The seat moves `surface`; `relative` is the window position minus the
    /// pointer position when the grab began.
    Moving { surface: Entity, serial: u32, relative: IVec2 },
    /// The seat resizes `surface` along `edges`, starting from `origin_rect`.
    Resizing { surface: Entity, serial: u32, edges: ResizeEdges, relative: IVec2, origin_rect: IRect },
}

/// A grab that a surface asks its seat to begin.
#[derive(Clone, Copy, PartialEq, Eq, Debug, Structural)]
pub enum SurfaceGrabKind {
    Move { mouse_pos: IVec2, seat: Entity, serial: Option<u32> },
    Resizing { seat: Entity, serial: Option<u32>, edges: ResizeEdges, geo: IRect },
}

/// A request to begin an interactive move or resize of a surface.
#[derive(Clone, Copy, PartialEq, Eq, Debug, Structural)]
pub enum StartGrab {
    Move { surface: Entity, seat: Entity, serial: Option<u32>, mouse_pos: IVec2, geometry: IRect },
    Resizing { surface: Entity, seat: Entity, serial: Option<u32>, edges: ResizeEdges, geometry: IRect },
    /// A drag from `surface`, through the data device `data_device`, showing
    /// `icon` under the pointer.
    Drag { surface: Entity, seat: Entity, data_device: Entity, icon: Option<Entity> },
}

/// The pointer's relation to one surface: where it is over the surface and
/// the grab the surface has asked for.
#[derive(Clone, Copy, PartialEq, Eq, Debug, Structural)]
pub struct WlSurfacePointerState {
    pub mouse_pos: IVec2,
    pub grab: Option<SurfaceGrabKind>,
}

impl WlSurfacePointerState {
    /// Asks for a grab.
    pub fn set_grab(&mut self, kind: SurfaceGrabKind)
        ensures
            final(self).grab == Some(kind),
            final(self).mouse_pos == old(self).mouse_pos,
    {
        self.grab = Some(kind);
    }
}

} // verus!
