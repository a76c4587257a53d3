use dway_server::entity::Entity;
use dway_server::util::rect::IVec2;
use dway_server::wl::buffer::DmabufFlags;
use dway_server::zwp::dambuffeedback::{update_feedback_state, DmabufFeedbackInner};
use dway_server::zwp::dmabuffactory::{factory_bind_events, DmabufFactoryEvent};
use dway_server::zwp::dmabuffeedback::{do_init_feedback, feedback_events, FeedbackEvent, FeedbackTranche};
use dway_server::zwp::dmabufparam::{DmaBuffer, DmaBufferParams};

#[test]
fn params_add_joins_modifier_halves() {
    let mut params: DmaBufferParams<&str> = DmaBufferParams::new();
    params.add("fd0", 0, 16, 4096, 0x00ff_ffff, 0xffff_ffff);
    assert_eq!(params.planes.len(), 1);
    assert_eq!(params.planes[0].modifier, 0x00ff_ffff_ffff_ffffu64);
    assert_eq!(params.planes[0].offset, 16);
    assert_eq!(params.planes[0].stride, 4096);
    assert_eq!(params.planes[0].fd, "fd0");
}

#[test]
fn params_take_sorted_planes_is_stable() {
    let mut params: DmaBufferParams<&str> = DmaBufferParams::new();
    params.add("c", 2, 0, 0, 0, 0);
    params.add("a0", 0, 0, 0, 0, 0);
    params.add("b", 1, 0, 0, 0, 0);
    params.add("a1", 0, 0, 0, 0, 0);
    let planes = params.take_sorted_planes();
    let fds: Vec<&str> = planes.iter().map(|p| p.fd).collect();
    assert_eq!(fds, vec!["a0", "a1", "b", "c"]);
    assert!(params.planes.is_empty());
}

#[test]
fn params_create_builds_buffer_and_request() {
    let mut params: DmaBufferParams<u8> = DmaBufferParams::new();
    params.add(1, 1, 0, 0, 0, 0);
    params.add(0, 0, 0, 0, 0, 0);
    let flags = DmabufFlags { bits: 1 };
    let (buffer, request) = params.create(-1, 480, 0x3432_5241, flags);
    assert_eq!(buffer, DmaBuffer { size: IVec2::new(-1, 480), format: 0x3432_5241, flags });
    assert_eq!(request.width, u32::MAX);
    assert_eq!(request.height, 480);
    assert_eq!(request.planes.iter().map(|p| p.plane_idx).collect::<Vec<_>>(), vec![0, 1]);
    assert!(params.planes.is_empty());
}

#[test]
fn factory_announces_two_formats() {
    assert_eq!(
        factory_bind_events(),
        vec![
            DmabufFactoryEvent::Format(0x3432_5241),
            DmabufFactoryEvent::Format(0x3432_5258),
            DmabufFactoryEvent::Modifier { format: 0x3432_5241, modifier_hi: 0x00ff_ffff, modifier_lo: 0xffff_ffff },
            DmabufFactoryEvent::Modifier { format: 0x3432_5258, modifier_hi: 0x00ff_ffff, modifier_lo: 0xffff_ffff },
        ]
    );
}

fn tranche(device: u64, flags: u32, indices: Vec<u16>) -> FeedbackTranche {
    FeedbackTranche { target_device: device, flags, indices }
}

fn shape(events: &[FeedbackEvent]) -> Vec<String> {
    events
        .iter()
        .map(|e| match e {
            FeedbackEvent::MainDevice(d) => format!("main {d}"),
            FeedbackEvent::FormatTable { size } => format!("table {size}"),
            FeedbackEvent::TrancheTargetDevice(d) => format!("target {d}"),
            FeedbackEvent::TrancheFlags(f) => format!("flags {f}"),
            FeedbackEvent::TrancheFormats(v) => format!("formats {v:?}"),
            FeedbackEvent::TrancheDone => "tranche_done".to_string(),
            FeedbackEvent::Done => "done".to_string(),
        })
        .collect()
}

#[test]
fn feedback_lists_preferred_then_main() {
    let preferred = vec![tranche(7, 1, vec![3, 4])];
    let main = tranche(9, 0, vec![0]);
    let events = feedback_events(5, 0x1_0000_0010, &preferred, &main);
    assert_eq!(
        shape(&events),
        vec![
            "main 5", "table 16", "target 7", "flags 1", "formats [3, 4]", "tranche_done",
            "target 9", "flags 0", "formats [0]", "tranche_done", "done",
        ]
    );
    let events = do_init_feedback(64, &vec![], &main);
    assert_eq!(shape(&events), vec!["main 9", "table 64", "target 9", "flags 0", "formats [0]", "tranche_done", "done"]);
}

#[test]
fn feedback_is_sent_once() {
    let mut inner = DmabufFeedbackInner::default();
    assert!(!inner.inited);
    let main = tranche(1, 0, vec![]);
    let first = inner.do_init_feedback(1, 8, &vec![], &main);
    assert_eq!(first.len(), 7);
    assert!(inner.inited);
    let second = inner.do_init_feedback(1, 8, &vec![], &main);
    assert!(second.is_empty());
}

#[test]
fn pending_feedback_done_when_inited() {
    let pending = vec![(Entity(1), true), (Entity(2), false), (Entity(3), true)];
    assert_eq!(update_feedback_state(&pending), vec![Entity(1), Entity(3)]);
    assert!(update_feedback_state(&vec![]).is_empty());
}
