//! The `xdg_popup` role.
use vstd::prelude::*;
use crate::util::rect::{IRect, IVec2, irect};
use wayland_backend::server::GlobalId;
use crate::xdg::positioner::{or_zero_rect, Positioner};

verus! {

/// A surface with the popup role.
pub struct XdgPopup {
    /// Whether the first configure has been sent.
    pub send_configure: bool,
    pub positioner: Positioner,
    /// How many popups this one is nested in.
    pub level: isize,
    pub grab: bool,
}

impl XdgPopup {
    pub fn new(positioner: Positioner, level: isize) -> (r: XdgPopup)
        ensures
            !r.send_configure,
            r.positioner == positioner,
            r.level == level,
            !r.grab,
    {
        XdgPopup { send_configure: false, positioner, level, grab: false }
    }

    pub fn grab(&self) -> (r: bool)
        ensures
            r == self.grab,
    {
        self.grab
    }

    /// A grab request: the popup takes the seat's input.
    pub fn set_grab(&mut self)
        ensures
            final(self).grab,
            final(self).positioner == old(self).positioner,
            final(self).level == old(self).level,
            final(self).send_configure == old(self).send_configure,
    {
        self.grab = true;
    }

    /// A reposition request: the popup takes the new rules, and its geometry
    /// becomes the empty rectangle at the far corner of the anchor rectangle.
    pub fn reposition(&mut self, positioner: Positioner, geometry: &mut IRect)
        ensures
            final(self).positioner == positioner,
            final(self).level == old(self).level,
            final(self).grab == old(self).grab,
            final(self).send_configure == old(self).send_configure,
            ({
                let m = or_zero_rect(positioner.anchor_rect).max;
                *final(geometry) == irect(m.x as int, m.y as int, m.x as int, m.y as int)
            }),
    {
        self.positioner = positioner;
        let anchor = match self.positioner.anchor_rect {
            Some(a) => a,
            None => IRect::zero(),
        };
        *geometry = IRect::from_pos_size(anchor.max, IVec2::zero());
    }
}

/// The global of `xdg_popup` objects.
pub struct PopupDelegate(pub GlobalId);

/// The plugin for popups.
pub struct XdgPopupPlugin;

} // verus!
