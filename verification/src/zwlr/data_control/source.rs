//! `zwlr_data_control_source_v1`: what a clipboard manager offers.
use vstd::prelude::*;
use crate::clipboard::MimeTypeSet;

verus! {

/// A data control source: the MIME types it offers.
pub struct ZwlrDataControlSource {
    pub mime_types: MimeTypeSet,
}

impl ZwlrDataControlSource {
    /// A source that offers nothing.
    pub fn new() -> (r: ZwlrDataControlSource)
        ensures
            r.mime_types@ == Set::<Seq<char>>::empty(),
            r.mime_types.wf(),
    {
        ZwlrDataControlSource { mime_types: MimeTypeSet::new() }
    }

    /// `offer`: one more MIME type.
    pub fn offer(&mut self, mime_type: String)
        requires
            old(self).mime_types.wf(),
        ensures
            final(self).mime_types.wf(),
            final(self).mime_types@ == old(self).mime_types@.insert(mime_type@),
    {
        self.mime_types.insert(mime_type);
    }
}

} // verus!
