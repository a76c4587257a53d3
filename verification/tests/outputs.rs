use dway_server::util::rect::IRect;
use dway_server::wl::output::{
    has_overlap, output_bind_events, output_rect, surface_enter_output, OutputChange, OutputEvent,
    OutputPass,
};
use dway_server::zxdg::decoration::{Decoration, DecorationMode};
use dway_server::zxdg::outputmanager::{xdg_output_events, XdgOutputEvent};

#[test]
fn output_bind_events_by_version() {
    let head = vec![
        OutputEvent::Geometry { physical_width: 1920, physical_height: 1080 },
        OutputEvent::Mode { width: 1920, height: 1080, refresh: 60000 },
    ];
    assert_eq!(output_bind_events(1), head);
    let mut v2 = head.clone();
    v2.push(OutputEvent::Scale(1));
    v2.push(OutputEvent::Done);
    assert_eq!(output_bind_events(2), v2);
    assert_eq!(output_bind_events(3), v2);
    let mut v4 = head.clone();
    v4.push(OutputEvent::Name);
    v4.push(OutputEvent::Description);
    v4.push(OutputEvent::Scale(1));
    v4.push(OutputEvent::Done);
    assert_eq!(output_bind_events(4), v4);
}

#[test]
fn output_rect_is_full_hd() {
    assert_eq!(output_rect(), IRect::new(0, 0, 1920, 1080));
}

#[test]
fn surface_enters_overlapping_output() {
    let out = output_rect();
    let s = IRect::new(100, 100, 300, 200);
    assert!(has_overlap(out, s));
    assert_eq!(surface_enter_output(OutputPass::NewConnection, out, s, false), Some(OutputChange::Enter));
    assert_eq!(surface_enter_output(OutputPass::NewConnection, out, s, true), None);
    assert_eq!(surface_enter_output(OutputPass::OldConnection, out, s, false), None);
}

#[test]
fn surface_leaves_output_it_no_longer_overlaps() {
    let out = output_rect();
    let s = IRect::new(5000, 5000, 10, 10);
    assert!(!has_overlap(out, s));
    assert_eq!(surface_enter_output(OutputPass::OldConnection, out, s, false), Some(OutputChange::Leave));
    assert_eq!(surface_enter_output(OutputPass::NewConnection, out, s, false), None);
}

#[test]
fn touching_edges_do_not_overlap() {
    let out = output_rect();
    assert!(!has_overlap(out, IRect::new(1920, 0, 10, 10)));
    assert!(has_overlap(out, IRect::new(1919, 1079, 10, 10)));
}

#[test]
fn huge_rects_overlap_without_overflow() {
    let a = IRect::new(-2_000_000_000, -2_000_000_000, 2_100_000_000, 2_100_000_000);
    let b = IRect::new(-2_000_000_000, -2_000_000_000, 2_100_000_000, 2_100_000_000);
    assert!(has_overlap(a, b));
}

#[test]
fn xdg_output_events_in_order() {
    assert_eq!(
        xdg_output_events(),
        vec![
            XdgOutputEvent::LogicalPosition { x: 0, y: 0 },
            XdgOutputEvent::LogicalSize { width: 1920, height: 1080 },
            XdgOutputEvent::Name,
            XdgOutputEvent::Done,
        ]
    );
}

#[test]
fn decoration_mode_set_and_unset() {
    let mut d = Decoration::new();
    assert_eq!(d.mode, None);
    d.set_mode(Some(DecorationMode::ServerSide));
    assert_eq!(d.mode, Some(DecorationMode::ServerSide));
    d.set_mode(None);
    assert_eq!(d.mode, None);
    d.set_mode(Some(DecorationMode::ClientSide));
    d.unset_mode();
    assert_eq!(d.mode, None);
}
