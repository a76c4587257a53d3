//! `zwp_primary_selection_source_v1`: what a client offers to the primary
//! selection.
use vstd::prelude::*;
use crate::clipboard::MimeTypeSet;

verus! {

/// A primary selection source: the MIME types it offers.
pub struct PrimarySelectionSource {
    pub mime_types: MimeTypeSet,
}

impl PrimarySelectionSource {
    /// A source that offers nothing.
    pub fn new() -> (r: PrimarySelectionSource)
        ensures
            r.mime_types@ == Set::<Seq<char>>::empty(),
            r.mime_types.wf(),
    {
        PrimarySelectionSource { mime_types: MimeTypeSet::new() }
    }

    /// `offer`: one more MIME type.
    pub fn offer(&mut self, mime_type: String)
        requires
            old(self).mime_types.wf(),
        ensures
            final(self).mime_types.wf(),
            final(self).mime_types@ == old(self).mime_types@.insert(mime_type@),
    {
        self.mime_types.insert(mime_type);
    }
}

} // verus!
