//! Requests that the desktop sends to a window.
use vstd::prelude::*;
use crate::entity::Entity;
use crate::input::ResizeEdges;
use crate::util::rect::IRect;

verus! {

/// An action asked of the window whose surface is the given entity.
#[derive(Clone, Copy, PartialEq, Eq, Debug, Structural)]
pub enum WindowAction {
    Close(Entity),
    Maximize(Entity),
    UnMaximize(Entity),
    Fullscreen(Entity),
    UnFullscreen(Entity),
    Minimize(Entity),
    UnMinimize(Entity),
    SetRect(Entity, IRect),
    RequestMove(Entity),
    RequestResize(Entity, ResizeEdges),
}

impl WindowAction {
    /// The surface entity the action is addressed to.
    pub open spec fn target(self) -> Entity {
        match self {
            WindowAction::Close(e) => e,
            WindowAction::Maximize(e) => e,
            WindowAction::UnMaximize(e) => e,
            WindowAction::Fullscreen(e) => e,
            WindowAction::UnFullscreen(e) => e,
            WindowAction::Minimize(e) => e,
            WindowAction::UnMinimize(e) => e,
            WindowAction::SetRect(e, _) => e,
            WindowAction::RequestMove(e) => e,
            WindowAction::RequestResize(e, _) => e,
        }
    }
}

} // verus!
