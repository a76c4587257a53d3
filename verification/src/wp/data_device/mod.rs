pub mod data_offer;
pub mod data_source;
pub mod dnd;
use vstd::prelude::*;
use crate::entity::Entity;
use crate::input::StartGrab;
use crate::wp::data_device::dnd::DragAndDrop;

verus! {

/// What a `start_drag` request sets up: the drag, the surface to mark as
/// its icon, and the grab to ask of the seat.
#[derive(Clone, Copy, PartialEq, Eq, Debug, Structural)]
pub struct DragStart {
    pub drag: DragAndDrop,
    pub icon: Option<Entity>,
    pub grab: Option<StartGrab>,
}

/// `start_drag` on the data device `data_device` of `seat`: the drag records
/// its source, origin, icon and serial; a pointer grab is asked for only when
/// the pointer is over the origin surface (`origin_has_pointer`).
pub fn start_drag(
    data_device: Entity,
    seat: Entity,
    source: Option<Entity>,
    origin: Entity,
    icon: Option<Entity>,
    serial: u32,
    origin_has_pointer: bool,
) -> (r: DragStart)
    ensures
        r.drag == (DragAndDrop {
            data_source: source,
            origin_surface: origin,
            icon_surface: icon,
            serial,
        }),
        r.icon == icon,
        r.grab == (if origin_has_pointer {
            Some(StartGrab::Drag { surface: origin, seat, data_device, icon })
        } else {
            None
        }),
{
    let drag = DragAndDrop { data_source: source, origin_surface: origin, icon_surface: icon, serial };
    let grab = if origin_has_pointer {
        Some(StartGrab::Drag { surface: origin, seat, data_device, icon })
    } else {
        None
    };
    DragStart { drag, icon, grab }
}

/// The plugin for the data device global.
pub struct DataDevicePlugin;

} // verus!
