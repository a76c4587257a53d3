//! `zwp_linux_dmabuf_feedback_v1`: which device and formats a client should
//! allocate DMA buffers with.
use vstd::prelude::*;

verus! {

/// Whether a feedback object has been told its device and formats.
pub struct DmabufFeedbackInner {
    pub inited: bool,
}

impl Default for DmabufFeedbackInner {
    fn default() -> (r: DmabufFeedbackInner)
        ensures
            !r.inited,
    {
        DmabufFeedbackInner { inited: false }
    }
}

/// A set of formats on one device, as the renderer reports it: the device
/// number, the tranche flags, and the indices of its formats in the format
/// table.
pub struct FeedbackTranche {
    pub target_device: u64,
    pub flags: u32,
    pub indices: Vec<u16>,
}

/// An event of the feedback protocol. Device numbers and format indices are
/// sent as their native-endian bytes.
pub enum FeedbackEvent {
    MainDevice(u64),
    /// The format table; its file descriptor travels beside the event.
    FormatTable { size: u32 },
    TrancheTargetDevice(u64),
    TrancheFlags(u32),
    TrancheFormats(Vec<u16>),
    TrancheDone,
    Done,
}

/// The four events that describe `t`, starting at position `at` of `r`.
pub open spec fn tranche_at(r: Seq<FeedbackEvent>, at: int, t: FeedbackTranche) -> bool {
    &&& r[at] == FeedbackEvent::TrancheTargetDevice(t.target_device)
    &&& r[at + 1] == FeedbackEvent::TrancheFlags(t.flags)
    &&& r[at + 2] matches FeedbackEvent::TrancheFormats(v) && v@ == t.indices@
    &&& r[at + 3] == FeedbackEvent::TrancheDone
}

/// The feedback for a main device and a format table of `table_size` bytes:
/// the device, the table, each preferred tranche and then the main tranche,
/// and `done`. The table size is sent as a 32-bit number, truncated.
pub open spec fn is_feedback(
    r: Seq<FeedbackEvent>,
    main_device: u64,
    table_size: usize,
    preferred: Seq<FeedbackTranche>,
    main: FeedbackTranche,
) -> bool {
    let n = preferred.len() as int;
    &&& r.len() == 4 * n + 7
    &&& r[0] == FeedbackEvent::MainDevice(main_device)
    &&& r[1] == (FeedbackEvent::FormatTable { size: table_size as u32 })
    &&& forall|i: int| 0 <= i < n ==> #[trigger] tranche_at(r, 2 + 4 * i, preferred[i])
    &&& tranche_at(r, 2 + 4 * n, main)
    &&& r[4 * n + 6] == FeedbackEvent::Done
}

/// The events that describe one tranche.
fn push_tranche(events: &mut Vec<FeedbackEvent>, t: &FeedbackTranche)
    ensures
        final(events)@.len() == old(events)@.len() + 4,
        forall|i: int| 0 <= i < old(events)@.len() ==> final(events)@[i] == old(events)@[i],
        tranche_at(final(events)@, old(events)@.len() as int, *t),
{
    events.push(FeedbackEvent::TrancheTargetDevice(t.target_device));
    events.push(FeedbackEvent::TrancheFlags(t.flags));
    let mut indices: Vec<u16> = Vec::new();
    let mut i: usize = 0;
    while i < t.indices.len()
        invariant
            i <= t.indices.len(),
            indices@ == t.indices@.take(i as int),
        decreases t.indices.len() - i,
    {
        indices.push(t.indices[i]);
        i = i + 1;
        assert(indices@ =~= t.indices@.take(i as int));
    }
    assert(indices@ =~= t.indices@);
    events.push(FeedbackEvent::TrancheFormats(indices));
    events.push(FeedbackEvent::TrancheDone);
}

/// The events that tell a feedback object its device and formats, in order.
pub fn feedback_events(
    main_device: u64,
    table_size: usize,
    preferred: &Vec<FeedbackTranche>,
    main: &FeedbackTranche,
) -> (r: Vec<FeedbackEvent>)
    requires
        4 * preferred@.len() + 7 <= usize::MAX,
    ensures
        is_feedback(r@, main_device, table_size, preferred@, *main),
{
    let mut events: Vec<FeedbackEvent> = Vec::new();
    events.push(FeedbackEvent::MainDevice(main_device));
    events.push(FeedbackEvent::FormatTable { size: table_size as u32 });
    let mut i: usize = 0;
    while i < preferred.len()
        invariant
            i <= preferred@.len(),
            events@.len() == 4 * i + 2,
            events@[0] == FeedbackEvent::MainDevice(main_device),
            events@[1] == (FeedbackEvent::FormatTable { size: table_size as u32 }),
            forall|j: int| 0 <= j < i ==> #[trigger] tranche_at(events@, 2 + 4 * j, preferred@[j]),
        decreases preferred.len() - i,
    {
        let ghost before = events@;
        push_tranche(&mut events, &preferred[i]);
        assert forall|j: int| 0 <= j < i + 1 implies #[trigger] tranche_at(
            events@,
            2 + 4 * j,
            preferred@[j],
        ) by {
            if j < i {
                assert(tranche_at(before, 2 + 4 * j, preferred@[j]));
            }
        }
        i = i + 1;
    }
    let ghost before = events@;
    push_tranche(&mut events, main);
    events.push(FeedbackEvent::Done);
    assert forall|j: int| 0 <= j < preferred@.len() implies #[trigger] tranche_at(
        events@,
        2 + 4 * j,
        preferred@[j],
    ) by {
        assert(tranche_at(before, 2 + 4 * j, preferred@[j]));
    }
    events
}

/// The events that tell a feedback object the renderer's formats: the main
/// tranche's device is the main device.
pub fn do_init_feedback(
    table_size: usize,
    preferred: &Vec<FeedbackTranche>,
    main: &FeedbackTranche,
) -> (r: Vec<FeedbackEvent>)
    requires
        4 * preferred@.len() + 7 <= usize::MAX,
    ensures
        is_feedback(r@, main.target_device, table_size, preferred@, *main),
{
    feedback_events(main.target_device, table_size, preferred, main)
}

} // verus!
