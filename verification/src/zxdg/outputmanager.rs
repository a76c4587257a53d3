//! `zxdg_output_manager_v1`: the logical geometry of outputs.
use vstd::prelude::*;
use crate::wl::output::{OUTPUT_HEIGHT, OUTPUT_WIDTH};
use wayland_backend::server::GlobalId;

verus! {

/// The handle of the output manager global.
pub struct XdgOutputManagerDelegate(pub GlobalId);

/// The plugin for the output manager global (which it does not announce).
pub struct XdgOutputManagerPlugin;

/// An event sent to a new `zxdg_output_v1`.
#[derive(Clone, Copy, PartialEq, Eq, Debug, Structural)]
pub enum XdgOutputEvent {
    LogicalPosition { x: i32, y: i32 },
    LogicalSize { width: i32, height: i32 },
    /// The name `dway`.
    Name,
    Done,
}

/// What a new `zxdg_output_v1` is told.
pub open spec fn spec_xdg_output_events() -> Seq<XdgOutputEvent> {
    seq![
        XdgOutputEvent::LogicalPosition { x: 0, y: 0 },
        XdgOutputEvent::LogicalSize { width: OUTPUT_WIDTH, height: OUTPUT_HEIGHT },
        XdgOutputEvent::Name,
        XdgOutputEvent::Done,
    ]
}

/// The events to send, in order, to a new `zxdg_output_v1`.
pub fn xdg_output_events() -> (r: Vec<XdgOutputEvent>)
    ensures
        r@ == spec_xdg_output_events(),
{
    let mut events = Vec::new();
    events.push(XdgOutputEvent::LogicalPosition { x: 0, y: 0 });
    events.push(XdgOutputEvent::LogicalSize { width: OUTPUT_WIDTH, height: OUTPUT_HEIGHT });
    events.push(XdgOutputEvent::Name);
    events.push(XdgOutputEvent::Done);
    assert(events@ =~= spec_xdg_output_events());
    events
}

} // verus!
