//! `wl_data_offer`: what a client is offered to paste or to take on a drop.
use vstd::prelude::*;
use crate::wp::data_device::data_source::WlDataSource;
use crate::wp::data_device::dnd::{spec_choise_action, DndAction, DragAndDrop, DND_ACTION_NONE};

verus! {

/// The state of a drop on the side of its destination.
pub struct DropData {
    pub active: bool,
    pub dropped: bool,
    pub accepted: bool,
    pub chosen_action: DndAction,
}

/// A data offer.
pub struct WlDataOffer {
    active: bool,
    dropped: bool,
    accepted: bool,
    chosen_action: DndAction,
}

impl WlDataOffer {
    pub closed spec fn is_active(&self) -> bool {
        self.active
    }

    pub closed spec fn is_dropped(&self) -> bool {
        self.dropped
    }

    pub closed spec fn is_accepted(&self) -> bool {
        self.accepted
    }

    pub closed spec fn action(&self) -> DndAction {
        self.chosen_action
    }

    /// A fresh offer: active, neither dropped nor accepted, with no action.
    pub fn new() -> (r: WlDataOffer)
        ensures
            r.is_active(),
            !r.is_dropped(),
            !r.is_accepted(),
            r.action().bits == DND_ACTION_NONE,
    {
        WlDataOffer {
            active: true,
            dropped: false,
            accepted: false,
            chosen_action: DndAction::empty(),
        }
    }

    /// `finish`: the destination is done with the offer.
    pub fn finish(&mut self)
        ensures
            !final(self).is_active(),
            final(self).is_dropped() == old(self).is_dropped(),
            final(self).is_accepted() == old(self).is_accepted(),
            final(self).action() == old(self).action(),
    {
        self.active = false;
    }
}

/// The actions both sides allow: the source's, less those the destination
/// does not take (an unknown value from the destination takes none).
pub open spec fn offered_actions(source: DndAction, dnd_actions: Option<DndAction>) -> u32 {
    match dnd_actions {
        Some(a) => source.bits & a.bits,
        None => source.bits & DND_ACTION_NONE,
    }
}

/// The destination's preferred action, an unknown value standing for none.
pub open spec fn preferred_bits(preferred: Option<DndAction>) -> u32 {
    match preferred {
        Some(p) => p.bits,
        None => DND_ACTION_NONE,
    }
}

impl DropData {
    /// `accept`: the destination accepts the drop exactly when the drag has a
    /// source and that source offers the MIME type named.
    pub fn accept(&mut self, source: Option<&WlDataSource>, mime_type: Option<String>)
        ensures
            final(self).accepted == (match (source, mime_type) {
                (Some(s), Some(m)) => s.mime_types@.contains(m@),
                _ => false,
            }),
            final(self).active == old(self).active,
            final(self).dropped == old(self).dropped,
            final(self).chosen_action == old(self).chosen_action,
    {
        let accepted = match (source, mime_type) {
            (Some(s), Some(m)) => s.mime_types.contains(&m),
            _ => false,
        };
        self.accepted = accepted;
    }

    /// `set_actions`: with a drag source, chooses the action from the actions
    /// both sides allow and the destination's preference. A new choice is
    /// kept and returned, to be announced to both sides; an unchanged one, or
    /// a drag without source, returns `None`.
    pub fn set_actions(
        &mut self,
        source: Option<&WlDataSource>,
        dnd_actions: Option<DndAction>,
        preferred_action: Option<DndAction>,
    ) -> (r: Option<DndAction>)
        ensures
            final(self).active == old(self).active,
            final(self).dropped == old(self).dropped,
            final(self).accepted == old(self).accepted,
            match source {
                None => r is None && final(self).chosen_action == old(self).chosen_action,
                Some(s) => {
                    let chosen = spec_choise_action(
                        offered_actions(s.dnd_action, dnd_actions),
                        preferred_bits(preferred_action),
                    );
                    &&& final(self).chosen_action.bits == chosen
                    &&& (chosen != old(self).chosen_action.bits) ==> r == Some(
                        final(self).chosen_action,
                    )
                    &&& (chosen == old(self).chosen_action.bits) ==> r is None
                        && final(self).chosen_action == old(self).chosen_action
                },
            },
    {
        match source {
            None => None,
            Some(s) => {
                let dnd_actions = match dnd_actions {
                    Some(a) => a,
                    None => DndAction::empty(),
                };
                let preferred_action = match preferred_action {
                    Some(p) => p,
                    None => DndAction::empty(),
                };
                let chosen = DragAndDrop::choise_action(
                    s.dnd_action.intersection(dnd_actions),
                    preferred_action,
                );
                if self.chosen_action.bits != chosen.bits {
                    self.chosen_action = chosen;
                    Some(chosen)
                } else {
                    None
                }
            },
        }
    }
}

} // verus!
