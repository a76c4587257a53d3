//! The feedback objects that are still waiting to be told their device and
//! formats.
use vstd::prelude::*;
use crate::entity::Entity;
use crate::zwp::dmabuffeedback::{feedback_events, is_feedback, FeedbackEvent, FeedbackTranche};

verus! {

/// Marks a feedback object that has not been told its device and formats.
pub struct PeddingDmabufFeedback;

/// Whether a feedback object has been told its device and formats.
pub struct DmabufFeedbackInner {
    pub inited: bool,
}

impl Default for DmabufFeedbackInner {
    fn default() -> (r: DmabufFeedbackInner)
        ensures
            !r.inited,
    {
        DmabufFeedbackInner { inited: false }
    }
}

impl DmabufFeedbackInner {
    /// A feedback object is told its device and formats once: the first call
    /// returns the events to send and marks it; later calls return nothing.
    pub fn do_init_feedback(
        &mut self,
        main_device: u64,
        table_size: usize,
        preferred: &Vec<FeedbackTranche>,
        main: &FeedbackTranche,
    ) -> (r: Vec<FeedbackEvent>)
        requires
            4 * preferred@.len() + 7 <= usize::MAX,
        ensures
            final(self).inited,
            old(self).inited ==> r@.len() == 0,
            !old(self).inited ==> is_feedback(r@, main_device, table_size, preferred@, *main),
    {
        if self.inited {
            return Vec::new();
        }
        let events = feedback_events(main_device, table_size, preferred, main);
        self.inited = true;
        events
    }
}

/// The pending feedback objects that have been told their device and
/// formats, in order: they stop being pending.
pub fn update_feedback_state(pending: &Vec<(Entity, bool)>) -> (r: Vec<Entity>)
    ensures
        r@ == pending@.filter(|p: (Entity, bool)| p.1).map_values(|p: (Entity, bool)| p.0),
{
    let mut done: Vec<Entity> = Vec::new();
    let mut i: usize = 0;
    while i < pending.len()
        invariant
            i <= pending.len(),
            done@ == pending@.take(i as int).filter(|p: (Entity, bool)| p.1).map_values(
                |p: (Entity, bool)| p.0,
            ),
        decreases pending.len() - i,
    {
        let (entity, inited) = pending[i];
        proof {
            pending@.take(i as int).lemma_filter_push(pending@[i as int], |p: (Entity, bool)| p.1);
            assert(pending@.take(i + 1) =~= pending@.take(i as int).push(pending@[i as int]));
        }
        if inited {
            done.push(entity);
        }
        i = i + 1;
        proof {
            assert(done@ =~= pending@.take(i as int).filter(|p: (Entity, bool)| p.1).map_values(
                |p: (Entity, bool)| p.0,
            ));
        }
    }
    proof {
        assert(pending@.take(i as int) =~= pending@);
    }
    done
}

} // verus!
