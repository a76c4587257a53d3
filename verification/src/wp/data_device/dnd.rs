//! Drag and drop: the session a drag starts, and the choice of the action
//! that a drop performs.
use vstd::prelude::*;
use crate::entity::Entity;

verus! {

/// No action.
pub const DND_ACTION_NONE: u32 = 0;
/// Bit of [`DndAction`] for a copy.
pub const DND_ACTION_COPY: u32 = 1;
/// Bit of [`DndAction`] for a move.
pub const DND_ACTION_MOVE: u32 = 2;
/// Bit of [`DndAction`] for asking the user.
pub const DND_ACTION_ASK: u32 = 4;

/// A set of drag-and-drop actions, one bit per action (the bit values of the
/// `wl_data_device_manager.dnd_action` protocol enum).
#[derive(Clone, Copy, PartialEq, Eq, Debug, Hash, Structural)]
pub struct DndAction {
    pub bits: u32,
}

impl DndAction {
    pub fn from_bits(bits: u32) -> (r: DndAction)
        ensures
            r.bits == bits,
    {
        DndAction { bits }
    }

    /// The empty set of actions.
    pub fn empty() -> (r: DndAction)
        ensures
            r.bits == DND_ACTION_NONE,
    {
        DndAction { bits: DND_ACTION_NONE }
    }

    /// Whether every action of `other` is in `self`.
    pub fn contains(&self, other: DndAction) -> (r: bool)
        ensures
            r == (self.bits & other.bits == other.bits),
    {
        self.bits & other.bits == other.bits
    }

    /// The actions in both sets.
    pub fn intersection(&self, other: DndAction) -> (r: DndAction)
        ensures
            r.bits == self.bits & other.bits,
    {
        DndAction { bits: self.bits & other.bits }
    }
}

/// A surface used as the icon of a drag.
pub struct DragIcon;

/// A drag in progress.
#[derive(Clone, Copy, PartialEq, Eq, Debug, Structural)]
pub struct DragAndDrop {
    pub data_source: Option<Entity>,
    pub origin_surface: Entity,
    pub icon_surface: Option<Entity>,
    pub serial: u32,
}

/// A surface that a drag may be dropped on.
pub struct DropTarget {}

/// The action a drop performs: the preferred one when it is a single action
/// and available; else ask, copy or move, the first of these that is
/// available; else none.
pub open spec fn spec_choise_action(available: u32, preferred: u32) -> u32 {
    if (preferred == DND_ACTION_MOVE || preferred == DND_ACTION_COPY || preferred == DND_ACTION_ASK)
        && available & preferred == preferred {
        preferred
    } else if available & DND_ACTION_ASK == DND_ACTION_ASK {
        DND_ACTION_ASK
    } else if available & DND_ACTION_COPY == DND_ACTION_COPY {
        DND_ACTION_COPY
    } else if available & DND_ACTION_MOVE == DND_ACTION_MOVE {
        DND_ACTION_MOVE
    } else {
        DND_ACTION_NONE
    }
}

impl DragAndDrop {
    /// Chooses the action of a drop from the actions both sides accept and
    /// the one the destination prefers.
    pub fn choise_action(available: DndAction, preferred: DndAction) -> (r: DndAction)
        ensures
            r.bits == spec_choise_action(available.bits, preferred.bits),
    {
        let single = preferred.bits == DND_ACTION_MOVE || preferred.bits == DND_ACTION_COPY
            || preferred.bits == DND_ACTION_ASK;
        if single && available.contains(preferred) {
            preferred
        } else if available.contains(DndAction::from_bits(DND_ACTION_ASK)) {
            DndAction::from_bits(DND_ACTION_ASK)
        } else if available.contains(DndAction::from_bits(DND_ACTION_COPY)) {
            DndAction::from_bits(DND_ACTION_COPY)
        } else if available.contains(DndAction::from_bits(DND_ACTION_MOVE)) {
            DndAction::from_bits(DND_ACTION_MOVE)
        } else {
            DndAction::empty()
        }
    }
}

/// The chosen action is a single available action, or none when no action is
/// available at all.
pub proof fn lemma_choise_action_is_available(available: u32, preferred: u32)
    ensures
        ({
            let r = spec_choise_action(available, preferred);
            &&& r == DND_ACTION_NONE || r == DND_ACTION_COPY || r == DND_ACTION_MOVE || r
                == DND_ACTION_ASK
            &&& available & r == r
            &&& (r == DND_ACTION_NONE <==> available & 7 == 0)
        }),
{
    assert(available & 0 == 0) by (bit_vector);
    assert(available & 7 == 0 <==> (available & 4 != 4 && available & 1 != 1 && available & 2
        != 2)) by (bit_vector);
}

/// A preferred action that is available is the one chosen.
pub proof fn lemma_choise_action_prefers(available: u32, preferred: u32)
    requires
        preferred == DND_ACTION_COPY || preferred == DND_ACTION_MOVE || preferred == DND_ACTION_ASK,
        available & preferred == preferred,
    ensures
        spec_choise_action(available, preferred) == preferred,
{
}

} // verus!
