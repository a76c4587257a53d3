//! The xdg-shell: surfaces with a window role, and their first configure.
pub mod activation;
pub mod popup;
pub mod positioner;
pub mod toplevel;

use vstd::prelude::*;
use wayland_backend::server::GlobalId;
use crate::util::rect::{fits_i32, IRect};
use crate::xdg::popup::XdgPopup;
use crate::xdg::positioner::Positioner;
use crate::xdg::toplevel::XdgToplevel;

verus! {

/// Marks a surface that is a window of the desktop.
pub struct DWayWindow {}

/// The global of `xdg_wm_base`.
pub struct XdgDelegate {
    pub wm: GlobalId,
}

/// An `xdg_surface` object.
pub struct XdgSurface {
    /// Whether the first configure has been sent.
    pub send_configure: bool,
}

impl XdgSurface {
    pub fn new() -> (r: XdgSurface)
        ensures
            !r.send_configure,
    {
        XdgSurface { send_configure: false }
    }

    /// Marks the first configure as sent; gives back whether it is to be
    /// sent now (it was not sent before).
    pub fn take_initial_configure(&mut self) -> (r: bool)
        ensures
            r == !old(self).send_configure,
            final(self).send_configure,
    {
        let send = !self.send_configure;
        self.send_configure = true;
        send
    }
}

/// What a new toplevel is first told.
#[derive(Clone, Copy, PartialEq, Eq, Debug, Structural)]
pub struct InitialConfigure {
    /// Send the toplevel's first configure (no size, activated).
    pub toplevel: bool,
    /// Send the surface's first configure.
    pub surface: bool,
}

/// Gives a new toplevel its first configure: the toplevel's, then the
/// surface's, each only once.
pub fn initial_toplevel_configure(surface: &mut XdgSurface, toplevel: &mut XdgToplevel) -> (r:
    InitialConfigure)
    ensures
        r.toplevel == !old(toplevel).send_configure,
        r.surface == !old(surface).send_configure,
        final(toplevel).send_configure,
        final(surface).send_configure,
        final(toplevel).version == old(toplevel).version,
{
    let t = !toplevel.send_configure;
    toplevel.send_configure = true;
    let s = surface.take_initial_configure();
    InitialConfigure { toplevel: t, surface: s }
}

/// The first configure of a popup: its rectangle, sent once.
#[derive(Clone, Copy, PartialEq, Eq, Debug, Structural)]
pub struct PopupConfigure {
    pub x: i32,
    pub y: i32,
    pub width: i32,
    pub height: i32,
}

/// A new popup of the surface: one level deeper than the popup the surface
/// already had (level zero when it had none), placed by its positioner.
/// Gives back the popup and its geometry.
pub fn create_popup(existing_level: Option<isize>, positioner: Positioner) -> (r: (XdgPopup, IRect))
    requires
        positioner.geometry_fits(),
        existing_level matches Some(l) ==> l < isize::MAX,
    ensures
        r.0.level == match existing_level {
            Some(l) => l + 1,
            None => 0,
        },
        r.0.positioner == positioner,
        !r.0.send_configure,
        !r.0.grab,
        r.1 == positioner.spec_geometry(),
{
    let level = match existing_level {
        Some(l) => l + 1,
        None => 0,
    };
    let geometry = positioner.get_geometry();
    (XdgPopup::new(positioner, level), geometry)
}

/// Gives a new popup its first configure (its rectangle) and the surface
/// its first configure, each only once.
pub fn initial_popup_configure(surface: &mut XdgSurface, popup: &mut XdgPopup, geometry: IRect) -> (r:
    (Option<PopupConfigure>, bool))
    requires
        geometry.size_fits(),
    ensures
        r.0 == if old(popup).send_configure {
            None
        } else {
            Some(
                PopupConfigure {
                    x: geometry.min.x,
                    y: geometry.min.y,
                    width: geometry.spec_width() as i32,
                    height: geometry.spec_height() as i32,
                },
            )
        },
        r.1 == !old(surface).send_configure,
        final(popup).send_configure,
        final(surface).send_configure,
        final(popup).positioner == old(popup).positioner,
        final(popup).level == old(popup).level,
        final(popup).grab == old(popup).grab,
{
    let p = if !popup.send_configure {
        popup.send_configure = true;
        Some(
            PopupConfigure {
                x: geometry.x(),
                y: geometry.y(),
                width: geometry.width(),
                height: geometry.height(),
            },
        )
    } else {
        None
    };
    let s = surface.take_initial_configure();
    (p, s)
}

/// The plugin for the xdg-shell.
pub struct XdgShellPlugin;

} // verus!
