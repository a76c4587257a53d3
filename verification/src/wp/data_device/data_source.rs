//! `wl_data_source`: what a client offers to paste or drop.
use vstd::prelude::*;
use crate::clipboard::MimeTypeSet;
use crate::wp::data_device::dnd::{DndAction, DND_ACTION_NONE};

verus! {

/// A data source: the MIME types it offers and the drag actions it allows.
pub struct WlDataSource {
    pub mime_types: MimeTypeSet,
    pub dnd_action: DndAction,
}

impl WlDataSource {
    /// A source that offers nothing and allows no action.
    pub fn new() -> (r: WlDataSource)
        ensures
            r.mime_types@ == Set::<Seq<char>>::empty(),
            r.mime_types.types@.len() == 0,
            r.mime_types.wf(),
            r.dnd_action.bits == DND_ACTION_NONE,
    {
        WlDataSource { mime_types: MimeTypeSet::new(), dnd_action: DndAction::empty() }
    }

    /// `offer`: one more MIME type.
    pub fn offer(&mut self, mime_type: String)
        requires
            old(self).mime_types.wf(),
        ensures
            final(self).mime_types.wf(),
            final(self).mime_types@ == old(self).mime_types@.insert(mime_type@),
            final(self).dnd_action == old(self).dnd_action,
    {
        self.mime_types.insert(mime_type);
    }

    /// `set_actions`: the allowed actions; `None` stands for a value outside
    /// the protocol's enum, which leaves them as they were.
    pub fn set_actions(&mut self, dnd_actions: Option<DndAction>)
        ensures
            final(self).dnd_action == (match dnd_actions {
                Some(a) => a,
                None => old(self).dnd_action,
            }),
            final(self).mime_types == old(self).mime_types,
    {
        match dnd_actions {
            Some(action) => {
                self.dnd_action = action;
            },
            None => {},
        }
    }
}

} // verus!
