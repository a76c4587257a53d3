//! The Xwayland window manager.
pub mod display;
pub mod events;
pub mod lock;
pub mod util;
pub mod window;

use vstd::prelude::*;
use crate::entity::Entity;

verus! {

/// Sent when the Xwayland display of `dway_entity` is ready.
#[derive(Clone, Copy, PartialEq, Eq, Debug, Structural)]
pub struct DWayXWaylandReady {
    pub dway_entity: Entity,
}

impl DWayXWaylandReady {
    pub fn new(dway_entity: Entity) -> (r: Self)
        ensures
            r.dway_entity == dway_entity,
    {
        Self { dway_entity }
    }
}

/// Sent when the Xwayland display of `dway_entity` has stopped.
#[derive(Clone, Copy, PartialEq, Eq, Debug, Structural)]
pub struct DWayXWaylandStoped {
    pub dway_entity: Entity,
}

impl DWayXWaylandStoped {
    pub fn new(dway_entity: Entity) -> (r: Self)
        ensures
            r.dway_entity == dway_entity,
    {
        Self { dway_entity }
    }
}

/// Marks an X11 window whose Wayland surface is known.
#[derive(Clone, Copy, PartialEq, Eq, Debug, Structural)]
pub struct MappedXWindow;

/// The plugin that runs the Xwayland window manager.
pub struct DWayXWaylandPlugin;

} // verus!
pub mod systems;
