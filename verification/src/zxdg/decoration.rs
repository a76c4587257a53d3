//! `zxdg_toplevel_decoration_v1`: who draws a window's decorations.
use vstd::prelude::*;

verus! {

/// Who draws the decorations of a window.
#[derive(Clone, Copy, PartialEq, Eq, Debug, Structural)]
pub enum DecorationMode {
    ClientSide,
    ServerSide,
}

/// The decoration object of a toplevel: the mode its client asked for, if any.
pub struct Decoration {
    pub mode: Option<DecorationMode>,
}

impl Decoration {
    /// No mode asked for yet.
    pub fn new() -> (r: Decoration)
        ensures
            r.mode is None,
    {
        Decoration { mode: None }
    }

    /// `set_mode`: the mode asked for; `None` stands for a value outside the
    /// protocol's enum, which counts as no mode.
    pub fn set_mode(&mut self, mode: Option<DecorationMode>)
        ensures
            final(self).mode == mode,
    {
        self.mode = mode;
    }

    /// `unset_mode`: the client leaves the choice to the compositor.
    pub fn unset_mode(&mut self)
        ensures
            final(self).mode is None,
    {
        self.mode = None;
    }
}

/// The plugin for the decoration global.
pub struct DecorationPlugin;

} // verus!
