//! The `wl_compositor` and `wl_subcompositor` globals.
use vstd::prelude::*;
use wayland_backend::server::GlobalId;

verus! {

/// The two globals that create surfaces, regions and subsurfaces.
pub struct CompositorDelegate {
    pub compositor: GlobalId,
    pub sub_compositor: GlobalId,
}

/// The plugin for the compositor globals.
pub struct WlCompositorPlugin;

} // verus!
