use dway_server::entity::Entity;
use dway_server::input::{Grab, ResizeEdges, EDGE_BUTTOM, EDGE_LEFT, EDGE_RIGHT, EDGE_TOP};
use dway_server::util::rect::{IRect, IVec2};
use dway_server::x11::display::{
    start_wm, Atoms, WmSetupStep, XWaylandDisplay, XWaylandError, WM_ROOT_EVENT_MASK,
};
use dway_server::x11::events::{
    apply_configure_request, apply_moveresize, apply_position, map_request_steps, mapped_requests, unmap_requests,
    begin_moveresize_grab, configure_request_geometry, dispatch_x11_events, moveresize_action,
    process_x11_event, DispatchOutcome, MoveResizeAction, X11Effect, X11EventError, XEvent,
    XWaylandThreadEvent,
};
use dway_server::x11::lock::{lock_file_contents, parse_lock_pid};
use dway_server::events::WindowAction;
use dway_server::input::{SurfaceGrabKind, WlSurfacePointerState};
use dway_server::x11::systems::{process_window_action_events, resume_after_failure, XRequest, XWindowNode};
use dway_server::x11::util::geo_to_irect;
use dway_server::wl::cursor::Cursor;
use dway_server::x11::window::{
    decode_property_string, property_updates, HintSource, InitialState, PropertyKind, SizeHints, WindowHints, XWindow,
};
use dway_server::x11::{DWayXWaylandReady, DWayXWaylandStoped};

fn atoms() -> Atoms {
    Atoms {
        wl_surface_id: 300,
        utf8_string: 301,
        wm_hints: 302,
        wm_protocols: 303,
        wm_change_state: 304,
        net_wm_name: 305,
        net_wm_moveresize: 306,
        net_wm_window_type: 307,
        motif_wm_hints: 308,
        net_client_list: 309,
        net_client_list_stacking: 310,
        net_wm_state: 311,
        net_wm_state_maximized_vert: 312,
        net_wm_state_maximized_horz: 313,
        net_wm_state_hidden: 314,
        net_wm_state_fullscreen: 315,
        net_wm_state_modal: 316,
        net_wm_state_focused: 317,
        net_active_window: 318,
        net_supported: 319,
        net_supporting_wm_check: 320,
        net_wm_cm_s0: 321,
        wm_s0: 322,
        wm_delete_window: 323,
        wm_take_focus: 324,
    }
}

fn edges(bits: u32) -> MoveResizeAction {
    MoveResizeAction::Resize(ResizeEdges::from_bits(bits))
}

#[test]
fn moveresize_directions() {
    assert_eq!(moveresize_action(0), edges(EDGE_TOP | EDGE_LEFT));
    assert_eq!(moveresize_action(1), edges(EDGE_TOP));
    assert_eq!(moveresize_action(2), edges(EDGE_TOP | EDGE_RIGHT));
    assert_eq!(moveresize_action(3), edges(EDGE_RIGHT));
    assert_eq!(moveresize_action(4), edges(EDGE_BUTTOM | EDGE_RIGHT));
    assert_eq!(moveresize_action(5), edges(EDGE_BUTTOM));
    assert_eq!(moveresize_action(6), edges(EDGE_BUTTOM | EDGE_LEFT));
    assert_eq!(moveresize_action(7), edges(EDGE_LEFT));
    assert_eq!(moveresize_action(8), MoveResizeAction::Move);
    assert_eq!(moveresize_action(9), MoveResizeAction::Ignore);
    assert_eq!(moveresize_action(11), MoveResizeAction::Ignore);
}

#[test]
fn moveresize_grab_relative_to_pointer() {
    let rect = IRect::new(100, 50, 20, 20);
    let g = begin_moveresize_grab(Entity(3), rect, Some(IVec2::new(110, 60)), MoveResizeAction::Move);
    assert_eq!(g, Some(Grab::Moving { surface: Entity(3), serial: 0, relative: IVec2::new(-10, -10) }));
    let g = begin_moveresize_grab(Entity(3), rect, None, edges(EDGE_LEFT));
    assert_eq!(
        g,
        Some(Grab::Resizing {
            surface: Entity(3),
            serial: 0,
            edges: ResizeEdges::from_bits(EDGE_LEFT),
            relative: IVec2::new(100, 50),
            origin_rect: rect,
        })
    );
    assert_eq!(begin_moveresize_grab(Entity(3), rect, None, MoveResizeAction::Ignore), None);
}

#[test]
fn moveresize_message_takes_over_seat() {
    let rect = IRect::new(100, 50, 20, 20);
    let pointer = Some(IVec2::new(110, 60));
    let mut grab: Option<Grab> = None;
    let mut enabled = true;
    assert!(apply_moveresize(Some(Entity(3)), Some(rect), pointer, moveresize_action(4), &mut grab, &mut enabled).is_ok());
    assert_eq!(
        grab,
        Some(Grab::Resizing {
            surface: Entity(3),
            serial: 0,
            edges: ResizeEdges::from_bits(EDGE_BUTTOM | EDGE_RIGHT),
            relative: IVec2::new(-10, -10),
            origin_rect: rect,
        })
    );
    assert!(!enabled);

    let mut grab: Option<Grab> = None;
    let mut enabled = true;
    assert!(apply_moveresize(Some(Entity(3)), Some(rect), None, moveresize_action(8), &mut grab, &mut enabled).is_ok());
    assert_eq!(grab, Some(Grab::Moving { surface: Entity(3), serial: 0, relative: IVec2::new(100, 50) }));
    assert!(!enabled);

    let mut grab: Option<Grab> = None;
    let mut enabled = true;
    assert!(apply_moveresize(Some(Entity(3)), Some(rect), pointer, moveresize_action(10), &mut grab, &mut enabled).is_ok());
    assert_eq!(grab, None);
    assert!(enabled);
    assert!(apply_moveresize(None, Some(rect), pointer, moveresize_action(8), &mut grab, &mut enabled).is_ok());
    assert_eq!(grab, None);
    assert!(enabled);
    let r = apply_moveresize(Some(Entity(3)), None, pointer, moveresize_action(8), &mut grab, &mut enabled);
    assert!(matches!(r, Err(XWaylandError::InvalidWindowEntity(Entity(3)))));
    assert_eq!(grab, None);
    assert!(enabled);
}

#[test]
fn configure_request_height_sets_width() {
    let rect = IRect::new(10, 10, 100, 100);
    assert_eq!(configure_request_geometry(rect, 4, 50, 70), IRect::new(10, 10, 50, 100));
    assert_eq!(configure_request_geometry(rect, 8, 50, 70), IRect::new(10, 10, 70, 100));
    assert_eq!(configure_request_geometry(rect, 0, 50, 70), rect);
}

#[test]
fn create_then_find_then_destroy_window() {
    let a = atoms();
    let mut d = XWaylandDisplay::new(1);
    d.screen_windows.insert(1);
    let r = process_x11_event(&mut d, Entity(100), &a, true, Entity(7),
        XEvent::CreateNotify { window: 42, parent: 1, override_redirect: false, geometry: IRect::new(3, 4, 50, 60) });
    match r {
        Ok(X11Effect::CreateWindow { entity, window, geometry, parent_window, is_toplevel, parent, parent_found, .. }) => {
            assert_eq!(entity, Entity(7));
            assert_eq!(geometry, IRect::new(3, 4, 50, 60));
            assert_eq!(window, 42);
            assert_eq!(parent_window, 1);
            assert!(is_toplevel);
            assert_eq!(parent, Some(Entity(100)));
            assert!(!parent_found);
        }
        other => panic!("unexpected {:?}", other),
    }
    assert_eq!(d.find_window(42).unwrap(), Entity(7));
    let r = process_x11_event(&mut d, Entity(100), &a, true, Entity(8), XEvent::DestroyNotify { window: 42 });
    assert_eq!(r.unwrap(), X11Effect::Despawn { entity: Entity(7) });
    assert!(matches!(d.find_window(42), Err(XWaylandError::WindowNotExists(42))));
    let r = process_x11_event(&mut d, Entity(100), &a, true, Entity(8), XEvent::DestroyNotify { window: 42 });
    assert_eq!(r.unwrap(), X11Effect::Nothing);
}

#[test]
fn wm_window_belongs_to_display() {
    let a = atoms();
    let mut d = XWaylandDisplay::new(1);
    d.wm_window = Some(5);
    let r = process_x11_event(&mut d, Entity(100), &a, true, Entity(7),
        XEvent::CreateNotify { window: 5, parent: 1, override_redirect: true, geometry: IRect::new(0, 0, 1, 1) });
    match r {
        Ok(X11Effect::CreateWindow { entity, parent, parent_found, .. }) => {
            assert_eq!(entity, Entity(100));
            assert_eq!(parent, None);
            assert!(parent_found);
        }
        other => panic!("unexpected {:?}", other),
    }
}

#[test]
fn events_on_unknown_windows() {
    let a = atoms();
    let mut d = XWaylandDisplay::new(1);
    let r = process_x11_event(&mut d, Entity(100), &a, true, Entity(7), XEvent::MapRequest { window: 9 });
    assert!(matches!(r, Err(X11EventError::XWayland(XWaylandError::WindowNotExists(9)))));
    let r = process_x11_event(&mut d, Entity(100), &a, true, Entity(7), XEvent::ConfigureNotify { window: 9, x: 1, y: 2 });
    assert_eq!(r.unwrap(), X11Effect::Nothing);
    let r = process_x11_event(&mut d, Entity(100), &a, false, Entity(7), XEvent::MapRequest { window: 9 });
    assert!(matches!(r, Err(X11EventError::ConnectionDropped)));
}

#[test]
fn events_on_known_windows() {
    let a = atoms();
    let mut d = XWaylandDisplay::new(1);
    d.windows_entitys.insert(9, Entity(19));
    let run = |d: &mut XWaylandDisplay, e| process_x11_event(d, Entity(100), &a, true, Entity(7), e).unwrap();
    assert_eq!(run(&mut d, XEvent::MapRequest { window: 9 }), X11Effect::MapRequested { xwindow: Entity(19), window: 9 });
    assert_eq!(run(&mut d, XEvent::MapNotify { window: 9 }), X11Effect::Mapped { xwindow: Entity(19), window: 9 });
    assert_eq!(run(&mut d, XEvent::UnmapNotify { window: 9 }), X11Effect::Unmapped { xwindow: Entity(19) });
    assert_eq!(run(&mut d, XEvent::ConfigureNotify { window: 9, x: -3, y: 4 }), X11Effect::SetPosition { xwindow: Entity(19), x: -3, y: 4 });
    assert_eq!(
        run(&mut d, XEvent::ConfigureRequest { window: 9, value_mask: 4, width: 10, height: 20 }),
        X11Effect::Configure { xwindow: Entity(19), window: 9, value_mask: 4, width: 10, height: 20 }
    );
    assert_eq!(run(&mut d, XEvent::ConfigureRequest { window: 9, value_mask: 1, width: 10, height: 20 }), X11Effect::Nothing);
    assert_eq!(
        run(&mut d, XEvent::PropertyNotify { window: 9, atom: 305 }),
        X11Effect::UpdateProperty { xwindow: Entity(19), property: Some(PropertyKind::Title) }
    );
    assert_eq!(
        run(&mut d, XEvent::PropertyNotify { window: 9, atom: 9999 }),
        X11Effect::UpdateProperty { xwindow: Entity(19), property: None }
    );
    assert_eq!(
        run(&mut d, XEvent::ClientMessage { window: 9, type_: 300, data: (55, 0, 0, 0, 0) }),
        X11Effect::AttachSurface { xwindow: Entity(19), surface_id: 55 }
    );
    assert_eq!(
        run(&mut d, XEvent::ClientMessage { window: 9, type_: 306, data: (0, 0, 8, 0, 0) }),
        X11Effect::MoveResize { xwindow: Entity(19), action: MoveResizeAction::Move }
    );
    assert_eq!(run(&mut d, XEvent::ClientMessage { window: 9, type_: 311, data: (0, 0, 0, 0, 0) }), X11Effect::Nothing);
    assert_eq!(
        run(&mut d, XEvent::ClientMessage { window: 9, type_: 1234, data: (0, 0, 0, 0, 0) }),
        X11Effect::UnhandledClientMessage { type_: 1234 }
    );
    assert_eq!(run(&mut d, XEvent::Error), X11Effect::ReportError);
    assert_eq!(run(&mut d, XEvent::FocusIn), X11Effect::Nothing);
}

#[test]
fn dispatch_sets_up_then_processes_then_stops() {
    let a = atoms();
    let mut d = XWaylandDisplay::new(3);
    let events = vec![
        XWaylandThreadEvent::CreateConnection { alive: true, wm_window: 5, screens: vec![(1, Entity(11))] },
        XWaylandThreadEvent::XWaylandEvent {
            event: XEvent::CreateNotify { window: 20, parent: 1, override_redirect: false, geometry: IRect::new(0, 0, 1, 1) },
            connected: true,
            fresh_entity: Entity(21),
        },
        XWaylandThreadEvent::Disconnect,
    ];
    let out = dispatch_x11_events(&mut d, Entity(100), Entity(200), &a, &events);
    assert_eq!(out.len(), 3);
    assert!(matches!(out[0], DispatchOutcome::Ready(r) if r == DWayXWaylandReady::new(Entity(200))));
    match &out[1] {
        DispatchOutcome::Processed(Ok(X11Effect::CreateWindow { entity, is_toplevel, parent, parent_found, .. })) => {
            assert_eq!(*entity, Entity(21));
            assert!(*is_toplevel);
            assert_eq!(*parent, Some(Entity(11)));
            assert!(*parent_found);
        }
        _ => panic!("unexpected outcome"),
    }
    assert!(matches!(out[2], DispatchOutcome::Stopped(s) if s == DWayXWaylandStoped::new(Entity(200))));
    assert_eq!(d.wm_window, Some(5));
    assert!(d.screen_windows.contains(&1));
    assert_eq!(d.find_window(20).unwrap(), Entity(21));
}

#[test]
fn dispatch_skips_dead_connection() {
    let a = atoms();
    let mut d = XWaylandDisplay::new(3);
    let events = vec![XWaylandThreadEvent::CreateConnection { alive: false, wm_window: 5, screens: vec![] }];
    let out = dispatch_x11_events(&mut d, Entity(100), Entity(200), &a, &events);
    assert!(matches!(out[0], DispatchOutcome::Skipped));
    assert_eq!(d.wm_window, None);
}

#[test]
fn property_updates_by_atom() {
    let a = atoms();
    assert_eq!(property_updates(None, &a).len(), 8);
    assert_eq!(property_updates(Some(39), &a), vec![PropertyKind::Title]);
    assert_eq!(property_updates(Some(67), &a), vec![PropertyKind::Class]);
    assert_eq!(property_updates(Some(308), &a), vec![PropertyKind::MotifHints]);
    assert!(property_updates(Some(1), &a).is_empty());
}

#[test]
fn property_strings_by_type() {
    let a = atoms();
    // STRING is ISO-8859-1: every byte is one character.
    assert_eq!(decode_property_string(31, &a, vec![0x63, 0x61, 0x66, 0xe9]), Some("café".to_string()));
    // UTF8_STRING must be valid UTF-8.
    assert_eq!(decode_property_string(301, &a, "café".as_bytes().to_vec()), Some("café".to_string()));
    assert_eq!(decode_property_string(301, &a, vec![0xff, 0xfe]), None);
    assert_eq!(decode_property_string(1, &a, b"abc".to_vec()), None);
}

#[test]
fn xwindow_properties() {
    let mut w = XWindow::new(9, Some(1), false, true);
    assert!(w.is_decorated());
    w.set_motif_hints(Some(vec![2, 0, 0, 0, 0]));
    assert!(!w.is_decorated());
    w.set_motif_hints(Some(vec![0, 0]));
    assert!(!w.is_decorated());
    w.set_motif_hints(Some(vec![2, 0, 1, 0, 0]));
    assert!(w.is_decorated());
    w.set_title(None, Some("xterm".to_string()));
    assert_eq!(w.title.as_deref(), Some("xterm"));
    w.set_title(Some("net".to_string()), Some("xterm".to_string()));
    assert_eq!(w.title.as_deref(), Some("net"));
    w.set_title(None, None);
    assert_eq!(w.title.as_deref(), Some(""));
    w.set_class(Some((b"XTerm".to_vec(), b"xterm".to_vec())));
    assert_eq!(w.class.as_deref(), Some("XTerm"));
    assert_eq!(w.instance.as_deref(), Some("xterm"));
    w.set_window_type(Some(vec![7, 8]));
    assert_eq!(w.window_type, vec![7, 8]);
    w.set_window_type(None);
    assert!(w.window_type.is_empty());
}

#[test]
fn xwindow_transient_for_looks_up_parent() {
    let mut d = XWaylandDisplay::new(1);
    d.windows_entitys.insert(4, Entity(40));
    let mut w = XWindow::new(9, None, false, true);
    w.set_transient_for(&d, Some(vec![4]));
    assert_eq!(w.transient_for, Some(Entity(40)));
    w.set_transient_for(&d, None);
    assert_eq!(w.transient_for, Some(Entity(40)));
    w.set_transient_for(&d, Some(vec![0]));
    assert_eq!(w.transient_for, None);
    w.set_transient_for(&d, Some(vec![5]));
    assert_eq!(w.transient_for, None);
}

/// The value a net-state write carries, checking that the write is
/// bracketed by a server grab.
fn written_state(requests: &[XRequest], window: u32) -> Option<Vec<u32>> {
    if requests.is_empty() {
        return None;
    }
    assert_eq!(requests.len(), 3);
    assert!(matches!(requests[0], XRequest::GrabServer));
    assert!(matches!(requests[2], XRequest::UngrabServer));
    match &requests[1] {
        XRequest::SetNetState { window: w, atoms } => {
            assert_eq!(*w, window);
            Some(atoms.clone())
        }
        _ => panic!("expected a net state"),
    }
}

#[test]
fn net_state_changes_report_new_value() {
    let mut w = XWindow::new(9, None, false, true);
    assert_eq!(written_state(&w.change_net_state(312, true), 9), Some(vec![312]));
    assert_eq!(written_state(&w.change_net_state(312, true), 9), None);
    assert_eq!(written_state(&w.change_net_state(313, true), 9), Some(vec![312, 313]));
    assert_eq!(written_state(&w.change_net_state(312, false), 9), Some(vec![313]));
    assert_eq!(written_state(&w.change_net_state(312, false), 9), None);
    assert_eq!(w.net_state, vec![313]);
}

#[test]
fn wm_setup_steps() {
    let a = atoms();
    let steps = start_wm(&a, 1, 77);
    assert_eq!(steps.len(), 10);
    assert!(matches!(steps[0], WmSetupStep::SetSelectionOwner { owner: 77, selection: 322 }));
    assert!(matches!(steps[1], WmSetupStep::SetSelectionOwner { owner: 77, selection: 321 }));
    assert!(matches!(steps[2], WmSetupStep::RedirectSubwindows { window: 1 }));
    match &steps[3] {
        WmSetupStep::ReplaceProperty32 { window, property, type_, items: data } => {
            assert_eq!((*window, *property, *type_), (1, 319, 4));
            assert_eq!(data, &vec![311, 313, 312, 314, 315, 316, 317, 318, 306, 309, 310]);
        }
        _ => panic!("unexpected step"),
    }
    match &steps[6] {
        WmSetupStep::ReplaceProperty32 { window, property, type_, items: data } => {
            assert_eq!((*window, *property, *type_), (1, 318, 33));
            assert_eq!(data, &vec![0]);
        }
        _ => panic!("unexpected step"),
    }
    match &steps[9] {
        WmSetupStep::ReplaceProperty8 { window, property, type_, bytes: data } => {
            assert_eq!((*window, *property, *type_), (77, 305, 301));
            assert_eq!(data.as_slice(), b"Smithay X WM");
        }
        _ => panic!("unexpected step"),
    }
}

#[test]
fn wm_root_event_mask_bits() {
    // Substructure notify and redirect, focus change, property change.
    assert_eq!(WM_ROOT_EVENT_MASK, (1 << 19) | (1 << 20) | (1 << 21) | (1 << 22));
}

#[test]
fn lock_file_text_is_right_aligned() {
    assert_eq!(lock_file_contents(4242), b"      4242\n".to_vec());
    assert_eq!(lock_file_contents(0), b"         0\n".to_vec());
    assert_eq!(lock_file_contents(-7), b"        -7\n".to_vec());
    assert_eq!(lock_file_contents(i32::MAX), b"2147483647\n".to_vec());
    assert_eq!(lock_file_contents(i32::MIN), b"-2147483648\n".to_vec());
}

#[test]
fn lock_file_round_trip() {
    for pid in [0, 1, 42, 99999, 1234567890, i32::MAX, -1, -1_000_000_000, i32::MIN] {
        let bytes = lock_file_contents(pid);
        assert_eq!(bytes.len(), if pid <= -1_000_000_000 { 12 } else { 11 });
        assert_eq!(parse_lock_pid(bytes[..11].to_vec()), Some(pid));
    }
}

#[test]
fn lock_pid_parse_edges() {
    let parse = |s: &str| parse_lock_pid(s.as_bytes().to_vec());
    assert_eq!(parse("  +12\n"), Some(12));
    assert_eq!(parse("\u{a0}7\u{3000}"), Some(7));
    assert_eq!(parse("-2147483648"), Some(i32::MIN));
    assert_eq!(parse("2147483648"), None);
    assert_eq!(parse("-"), None);
    assert_eq!(parse("+"), None);
    assert_eq!(parse(""), None);
    assert_eq!(parse("   \n"), None);
    assert_eq!(parse("12a"), None);
    assert_eq!(parse("1 2"), None);
    assert_eq!(parse("--1"), None);
    assert_eq!(parse_lock_pid(vec![0xff, 0x31]), None);
    for s in ["17", " -3 ", "+0", "00042", "\t99\r"] {
        assert_eq!(parse(s), s.trim().parse::<i32>().ok());
    }
}

#[test]
fn geometry_reply_to_rect() {
    assert_eq!(geo_to_irect(-5, 10, 300, 200), IRect::new(-5, 10, 300, 200));
    assert_eq!(geo_to_irect(i16::MAX, i16::MIN, u16::MAX, 0), IRect::new(32767, -32768, 65535, 0));
}

#[test]
fn cursor_keeps_serial() {
    assert_eq!(Cursor::new(Some(3)).serial, Some(3));
    assert_eq!(Cursor::new(None), Cursor::default());
}

#[test]
fn xwindow_requests_for_rect_and_close() {
    use_requests();
}

fn use_requests() {
    let w = XWindow::new(9, None, false, true);
    match w.set_rect(IRect::new(-4, 5, 100, 50)) {
        XRequest::ConfigureWindow { window, x, y, width, height } => {
            assert_eq!((window, x, y, width, height), (9, -4, 5, 100, 50));
        }
        _ => panic!("expected a configure"),
    }
    match w.resize(IRect { min: IVec2::new(0, 0), max: IVec2::new(-1, 2) }) {
        XRequest::ConfigureWindow { width, height, .. } => {
            assert_eq!((width, height), (u32::MAX, 2));
        }
        _ => panic!("expected a configure"),
    }
    assert!(matches!(w.close(), XRequest::DestroyWindow { window: 9 }));
}

fn node(surface: u64, window: u32, pinned: bool) -> XWindowNode {
    XWindowNode {
        surface: Entity(surface),
        geometry: IRect::new(0, 0, 10, 10),
        pointer_state: WlSurfacePointerState { mouse_pos: IVec2::new(3, 4), grab: None },
        pinned,
        xwindow: Some(XWindow::new(window, None, false, true)),
        client: Some(Entity(90)),
    }
}

#[test]
fn window_actions_on_x11_windows() {
    let a = atoms();
    let mut nodes = vec![node(1, 11, false), node(2, 22, true)];
    let requests = process_window_action_events(
        &vec![
            WindowAction::Maximize(Entity(1)),
            WindowAction::Maximize(Entity(1)),
            WindowAction::Close(Entity(2)),
            WindowAction::SetRect(Entity(1), IRect::new(5, 6, 7, 8)),
            WindowAction::RequestMove(Entity(1)),
            WindowAction::RequestMove(Entity(2)),
            WindowAction::Minimize(Entity(3)),
        ],
        &mut nodes,
        &a,
    );
    assert_eq!(requests.len(), 8);
    assert_eq!(written_state(&requests[0..3], 11), Some(vec![313]));
    assert_eq!(written_state(&requests[3..6], 11), Some(vec![313, 312]));
    assert!(matches!(requests[6], XRequest::DestroyWindow { window: 22 }));
    assert!(matches!(requests[7], XRequest::ConfigureWindow { window: 11, x: 5, y: 6, width: 7, height: 8 }));
    assert_eq!(
        nodes[0].pointer_state.grab,
        Some(SurfaceGrabKind::Move { mouse_pos: IVec2::new(3, 4), seat: Entity(90), serial: None })
    );
    assert_eq!(nodes[1].pointer_state.grab, None);
    assert_eq!(nodes[0].xwindow.as_ref().unwrap().net_state, vec![313, 312]);
}

#[test]
fn mapped_window_joins_parent_lists() {
    let a = atoms();
    let w = XWindow::new(9, Some(1), false, true);
    let r = mapped_requests(&w, 9, &a);
    assert_eq!(r.len(), 2);
    assert!(matches!(&r[0], XRequest::AppendWindows { window: 1, property: 309, windows } if windows == &vec![9]));
    assert!(matches!(&r[1], XRequest::AppendWindows { window: 1, property: 310, windows } if windows == &vec![9]));
    let orphan = XWindow::new(9, None, false, true);
    assert!(mapped_requests(&orphan, 9, &a).is_empty());
}

#[test]
fn map_request_makes_frame_then_maps() {
    let mut w = XWindow::new(9, Some(1), false, true);
    w.boarder_width = 2;
    let r = map_request_steps(&w, IRect::new(10, -20, 300, 70000), 9, 50);
    assert_eq!(r.len(), 4);
    assert!(matches!(r[0], XRequest::GrabServer));
    assert!(matches!(r[1], XRequest::CreateFrame { frame: 50, parent: 1, x: 10, y: -20, width: 300, height: 4464, border_width: 2 }));
    assert!(matches!(r[2], XRequest::MapWindow { window: 9 }));
    assert!(matches!(r[3], XRequest::UngrabServer));
    let orphan = XWindow::new(9, None, false, true);
    let r = map_request_steps(&orphan, IRect::new(0, 0, 1, 1), 9, 50);
    assert_eq!(r.len(), 2);
    assert!(matches!(r[0], XRequest::GrabServer));
    assert!(matches!(r[1], XRequest::UngrabServer));
}

#[test]
fn unmap_grabs_and_releases_server() {
    let r = unmap_requests();
    assert_eq!(r.len(), 2);
    assert!(matches!(r[0], XRequest::GrabServer));
    assert!(matches!(r[1], XRequest::UngrabServer));
}

#[test]
fn configure_request_updates_geometry_and_answers() {
    let mut geo = IRect::new(10, 20, 100, 100);
    let r = apply_configure_request(&mut geo, 9, 4, 40, 0);
    assert_eq!(geo, IRect::new(10, 20, 40, 100));
    assert!(matches!(r, XRequest::ConfigureWindow { window: 9, x: 10, y: 20, width: 40, height: 100 }));
    let mut geo = IRect::new(10, 20, 100, 100);
    apply_position(&mut geo, -5, 7);
    assert_eq!(geo, IRect::new(-5, 7, 100, 100));
}

#[test]
fn failed_request_resumes_after_its_write() {
    let a = atoms();
    let mut nodes = vec![node(1, 11, false), node(2, 22, true)];
    let requests = process_window_action_events(
        &vec![
            WindowAction::Maximize(Entity(1)),
            WindowAction::Close(Entity(2)),
            WindowAction::SetRect(Entity(1), IRect::new(5, 6, 7, 8)),
        ],
        &mut nodes,
        &a,
    );
    assert_eq!(requests.len(), 8);
    assert_eq!(resume_after_failure(&requests, 0), 2);
    assert_eq!(resume_after_failure(&requests, 1), 2);
    assert_eq!(resume_after_failure(&requests, 2), 3);
    assert_eq!(resume_after_failure(&requests, 3), 5);
    assert_eq!(resume_after_failure(&requests, 6), 7);
    assert_eq!(resume_after_failure(&requests, 7), 8);
    let lone = vec![XRequest::GrabServer, XRequest::MapWindow { window: 3 }, XRequest::MapWindow { window: 4 }];
    assert_eq!(resume_after_failure(&lone, 1), 3);
}

#[test]
fn hints_are_kept_and_cleared() {
    let mut w = XWindow::new(9, None, false, true);
    assert_eq!(w.hints, None);
    assert_eq!(w.normal_hints, None);
    let hints = WindowHints {
        input: Some(true),
        initial_state: Some(InitialState::Iconic),
        icon_pixmap: None,
        icon_window: Some(4),
        icon_position: Some((1, 2)),
        icon_mask: None,
        window_group: Some(9),
        urgent: true,
    };
    w.set_hints(Some(hints));
    assert_eq!(w.hints, Some(hints));
    let size = SizeHints {
        position: Some((HintSource::User, 3, 4)),
        size: None,
        min_size: Some((10, 20)),
        max_size: None,
        size_increment: None,
        aspect: Some(((1, 2), (3, 4))),
        base_size: None,
        win_gravity: Some(1),
    };
    w.set_normal_hints(Some(size));
    assert_eq!(w.normal_hints, Some(size));
    assert_eq!(w.hints, Some(hints));
    w.set_hints(None);
    assert_eq!(w.hints, None);
    assert_eq!(w.normal_hints, Some(size));
}
