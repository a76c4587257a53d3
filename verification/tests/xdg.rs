use dway_server::entity::Entity;
use dway_server::events::WindowAction;
use dway_server::input::{ResizeEdges, StartGrab};
use dway_server::util::rect::{IRect, IVec2};
use dway_server::wl::surface::WlSurface;
use dway_server::x11::systems::{surface_to_attach, update_xwindow_surface, x11_window_attach_wl_surface};
use dway_server::x11::window::XWindow;
use dway_server::xdg::activation::{SurfaceActivate, XdgActivationToken};
use dway_server::xdg::popup::XdgPopup;
use dway_server::xdg::positioner::{Anchor, Gravity, Positioner, PositionerRequest, XdgPositioner};
use dway_server::xdg::toplevel::{
    receive_window_action_event, resize_edges, set_geometry, update_window, DWayToplevel,
    ToplevelConfigure, ToplevelEffect, ToplevelOutput, ToplevelRequest, ToplevelWindow,
    XdgToplevel,
};
use dway_server::xdg::{create_popup, initial_popup_configure, initial_toplevel_configure, XdgSurface};

fn positioner(requests: &[PositionerRequest]) -> Positioner {
    let mut p = XdgPositioner::new();
    for r in requests {
        p.apply(*r);
    }
    p.positioner
}

#[test]
fn positioner_top_left_anchor_bottom_right_gravity() {
    let p = positioner(&[
        PositionerRequest::SetSize { width: 50, height: 30 },
        PositionerRequest::SetAnchorRect { x: 100, y: 200, width: 20, height: 10 },
        PositionerRequest::SetAnchor(Some(Anchor::TopLeft)),
        PositionerRequest::SetGravity(Some(Gravity::BottomRight)),
        PositionerRequest::SetOffset { x: 5, y: 6 },
    ]);
    assert_eq!(p.get_geometry(), IRect::new(105, 206, 50, 30));
}

#[test]
fn positioner_bottom_right_anchor_top_left_gravity() {
    let p = positioner(&[
        PositionerRequest::SetSize { width: 50, height: 30 },
        PositionerRequest::SetAnchorRect { x: 100, y: 200, width: 20, height: 10 },
        PositionerRequest::SetAnchor(Some(Anchor::BottomRight)),
        PositionerRequest::SetGravity(Some(Gravity::TopLeft)),
    ]);
    assert_eq!(p.get_geometry(), IRect::new(70, 180, 50, 30));
}

#[test]
fn positioner_defaults_center_on_anchor() {
    let p = positioner(&[
        PositionerRequest::SetSize { width: 10, height: 10 },
        PositionerRequest::SetAnchorRect { x: 0, y: 0, width: 100, height: 50 },
    ]);
    assert_eq!(p.get_geometry(), IRect::new(45, 20, 10, 10));
}

#[test]
fn positioner_unknown_enum_values_change_nothing() {
    let before = positioner(&[PositionerRequest::SetAnchor(Some(Anchor::Top))]);
    let mut p = XdgPositioner { positioner: before };
    p.apply(PositionerRequest::SetAnchor(None));
    p.apply(PositionerRequest::SetGravity(None));
    p.apply(PositionerRequest::SetParentConfigure { serial: 3 });
    assert_eq!(p.positioner, before);
    p.apply(PositionerRequest::SetReactive);
    p.apply(PositionerRequest::SetConstraintAdjustment(9));
    p.apply(PositionerRequest::SetParentSize { parent_width: 800, parent_height: 600 });
    assert!(p.positioner.is_relative);
    assert_eq!(p.positioner.constraint_adjustment, Some(9));
    assert_eq!(p.positioner.parent_size, Some(IVec2::new(800, 600)));
}

#[test]
fn popup_levels_and_first_configure() {
    let p = positioner(&[PositionerRequest::SetSize { width: 40, height: 20 }]);
    let (mut popup, geometry) = create_popup(None, p);
    assert_eq!(popup.level, 0);
    assert_eq!(geometry, IRect::new(-20, -10, 40, 20));
    let (nested, _) = create_popup(Some(2), p);
    assert_eq!(nested.level, 3);
    let mut surface = XdgSurface::new();
    let (configure, surface_configure) = initial_popup_configure(&mut surface, &mut popup, geometry);
    assert_eq!(configure.map(|c| (c.x, c.y, c.width, c.height)), Some((-20, -10, 40, 20)));
    assert!(surface_configure);
    let (again, surface_again) = initial_popup_configure(&mut surface, &mut popup, geometry);
    assert!(again.is_none());
    assert!(!surface_again);
}

#[test]
fn popup_grab_and_reposition() {
    let p = positioner(&[PositionerRequest::SetAnchorRect { x: 1, y: 2, width: 3, height: 4 }]);
    let mut popup = XdgPopup::new(p, 0);
    assert!(!popup.grab());
    popup.set_grab();
    assert!(popup.grab());
    let mut geometry = IRect::new(0, 0, 10, 10);
    popup.reposition(p, &mut geometry);
    assert_eq!(geometry, IRect::new(4, 6, 0, 0));
}

#[test]
fn toplevel_initial_configure_once() {
    let mut surface = XdgSurface::new();
    let mut toplevel = XdgToplevel::new(5);
    let first = initial_toplevel_configure(&mut surface, &mut toplevel);
    assert!(first.toplevel && first.surface);
    let second = initial_toplevel_configure(&mut surface, &mut toplevel);
    assert!(!second.toplevel && !second.surface);
}

#[test]
fn toplevel_requests_update_state() {
    let mut t = DWayToplevel::default();
    let geo = IRect::new(0, 0, 100, 100);
    let pos = IVec2::new(5, 5);
    assert!(matches!(t.handle_request(Entity(1), false, pos, geo, ToplevelRequest::SetTitle { title: "hi".to_string() }), ToplevelEffect::TitleChanged));
    assert_eq!(t.title.as_deref(), Some("hi"));
    match t.handle_request(Entity(1), false, pos, geo, ToplevelRequest::SetAppId { app_id: "app".to_string() }) {
        ToplevelEffect::AppIdChanged { entity, app_id } => {
            assert_eq!(entity, Entity(1));
            assert_eq!(app_id, "app");
        }
        _ => panic!("unexpected effect"),
    }
    t.handle_request(Entity(1), false, pos, geo, ToplevelRequest::SetMaximized);
    assert!(t.max);
    t.handle_request(Entity(1), false, pos, geo, ToplevelRequest::UnsetMaximized);
    assert!(!t.max);
    t.handle_request(Entity(1), false, pos, geo, ToplevelRequest::SetFullscreen);
    assert!(t.fullscreen);
    t.handle_request(Entity(1), false, pos, geo, ToplevelRequest::SetMinimized);
    assert!(t.min);
    t.handle_request(Entity(1), false, pos, geo, ToplevelRequest::SetMinSize { width: 10, height: 20 });
    assert_eq!(t.min_size, Some(IVec2::new(10, 20)));
    assert!(matches!(t.handle_request(Entity(1), false, pos, geo, ToplevelRequest::Destroy), ToplevelEffect::Destroyed));
}

#[test]
fn toplevel_move_and_resize_grabs() {
    let mut t = DWayToplevel::default();
    let geo = IRect::new(0, 0, 100, 100);
    let pos = IVec2::new(5, 5);
    match t.handle_request(Entity(1), false, pos, geo, ToplevelRequest::Move { seat: Entity(9), serial: 4 }) {
        ToplevelEffect::StartGrab(g) => assert_eq!(
            g,
            StartGrab::Move { surface: Entity(1), seat: Entity(9), serial: Some(4), mouse_pos: pos, geometry: geo }
        ),
        _ => panic!("expected a grab"),
    }
    assert!(matches!(t.handle_request(Entity(1), true, pos, geo, ToplevelRequest::Move { seat: Entity(9), serial: 4 }), ToplevelEffect::Nothing));
    match t.handle_request(Entity(1), false, pos, geo, ToplevelRequest::Resize { seat: Entity(9), serial: 4, edges: 10 }) {
        ToplevelEffect::StartGrab(g) => assert_eq!(
            g,
            StartGrab::Resizing { surface: Entity(1), seat: Entity(9), serial: None, edges: ResizeEdges::from_bits(10), geometry: geo }
        ),
        _ => panic!("expected a grab"),
    }
    assert!(matches!(t.handle_request(Entity(1), false, pos, geo, ToplevelRequest::Resize { seat: Entity(9), serial: 4, edges: 0 }), ToplevelEffect::Nothing));
}

#[test]
fn resize_edge_values() {
    for e in [1u32, 2, 4, 5, 6, 8, 9, 10] {
        assert_eq!(resize_edges(e), Some(ResizeEdges::from_bits(e)));
    }
    for e in [0u32, 3, 7, 11, 12, 15, 16] {
        assert_eq!(resize_edges(e), None);
    }
}

#[test]
fn configure_states_bytes() {
    let c = ToplevelConfigure { width: 1, height: 2, maximized: true, fullscreen: true, bounds: false };
    assert_eq!(c.states(), vec![4, 0, 0, 0, 1, 0, 0, 0, 2, 0, 0, 0]);
    let c = ToplevelConfigure { width: 1, height: 2, maximized: false, fullscreen: false, bounds: false };
    assert_eq!(c.states(), vec![4, 0, 0, 0]);
}

#[test]
fn update_window_configures_on_new_size() {
    let toplevel = XdgToplevel::new(4);
    let surface = WlSurface::new();
    let mut data = DWayToplevel::default();
    let geo = IRect::new(0, 0, 300, 200);
    let c = update_window(&toplevel, &surface, &mut data, geo, true);
    assert_eq!(c, Some(ToplevelConfigure { width: 300, height: 200, maximized: false, fullscreen: false, bounds: true }));
    assert_eq!(data.size, Some(IVec2::new(300, 200)));
    assert_eq!(update_window(&toplevel, &surface, &mut data, geo, true), None);
    assert_eq!(update_window(&toplevel, &surface, &mut data, IRect::new(0, 0, 1, 1), false), None);
}

#[test]
fn set_geometry_keeps_global_offset() {
    let mut geo = IRect::new(10, 10, 100, 100);
    let mut global = IRect::new(110, 60, 100, 100);
    set_geometry(&mut geo, &mut global, IRect::new(20, 30, 50, 40));
    assert_eq!(geo, IRect::new(20, 30, 50, 40));
    assert_eq!(global, IRect::new(120, 80, 50, 40));
}

fn window(entity: u64, pinned: bool) -> ToplevelWindow {
    ToplevelWindow {
        entity: Entity(entity),
        data: DWayToplevel::default(),
        xdg: XdgToplevel::new(1),
        surface: WlSurface::new(),
        geometry: IRect::new(0, 0, 100, 100),
        global_geometry: IRect::new(0, 0, 100, 100),
        pinned,
        mouse_pos: IVec2::new(1, 2),
        seats: vec![Entity(50), Entity(51)],
    }
}

#[test]
fn window_actions_configure_and_close() {
    let mut windows = vec![window(1, false), window(2, false)];
    let out = receive_window_action_event(
        &vec![WindowAction::Maximize(Entity(1)), WindowAction::Close(Entity(2)), WindowAction::Close(Entity(3))],
        &mut windows,
    );
    assert_eq!(out.len(), 2);
    assert!(matches!(out[0], ToplevelOutput::Configure { surface: Entity(1), configure } if configure.maximized));
    assert_eq!(out[1], ToplevelOutput::Close { surface: Entity(2) });
    assert!(windows[0].data.max);
}

#[test]
fn window_unmaximize_still_sets_maximized() {
    let mut windows = vec![window(1, false)];
    receive_window_action_event(&vec![WindowAction::UnMaximize(Entity(1))], &mut windows);
    assert!(windows[0].data.max);
}

#[test]
fn window_set_rect_resizes_and_moves() {
    let mut windows = vec![window(1, false)];
    let out = receive_window_action_event(&vec![WindowAction::SetRect(Entity(1), IRect::new(5, 5, 40, 30))], &mut windows);
    assert_eq!(windows[0].geometry, IRect::new(5, 5, 40, 30));
    assert_eq!(windows[0].data.size, Some(IVec2::new(40, 30)));
    assert!(matches!(out[0], ToplevelOutput::Configure { configure, .. } if configure.width == 40 && configure.height == 30));
}

#[test]
fn window_move_grabs_every_seat() {
    let mut windows = vec![window(1, false)];
    let out = receive_window_action_event(&vec![WindowAction::RequestMove(Entity(1))], &mut windows);
    assert_eq!(out.len(), 2);
    assert_eq!(
        out[0],
        ToplevelOutput::Grab(StartGrab::Move {
            surface: Entity(1),
            seat: Entity(50),
            serial: None,
            mouse_pos: IVec2::new(1, 2),
            geometry: IRect::new(0, 0, 100, 100),
        })
    );
}

#[test]
fn pinned_window_move_stops_later_actions() {
    let mut windows = vec![window(1, true), window(2, false)];
    let out = receive_window_action_event(
        &vec![WindowAction::RequestMove(Entity(1)), WindowAction::Close(Entity(2))],
        &mut windows,
    );
    assert!(out.is_empty());
}

#[test]
fn activation_token_is_a_v4_uuid() {
    let mut token = XdgActivationToken::new();
    assert_eq!(token.id(), None);
    token.set_seat(Entity(1));
    token.set_app_id("app".to_string());
    token.set_surface(Entity(2));
    let t = token.commit();
    assert_eq!(token.id(), Some(t.as_str()));
    assert_eq!(t.len(), 36);
    let chars: Vec<char> = t.chars().collect();
    for (i, c) in chars.iter().enumerate() {
        if [8, 13, 18, 23].contains(&i) {
            assert_eq!(*c, '-');
        } else {
            assert!(c.is_ascii_hexdigit() && !c.is_ascii_uppercase());
        }
    }
    assert_eq!(chars[14], '4');
    assert!(['8', '9', 'a', 'b'].contains(&chars[19]));
    let other = XdgActivationToken::new().commit();
    assert_ne!(t, other);
    assert_eq!(SurfaceActivate::new(t.clone()).token, t);
}

#[test]
fn xwindow_surface_follows_window() {
    let mut w = XWindow::new(9, None, false, true);
    w.set_title(Some("term".to_string()), None);
    let mut t = DWayToplevel::default();
    update_xwindow_surface(&w, &mut t);
    assert_eq!(t.title.as_deref(), Some("term"));
    assert!(t.decorated);
    w.set_motif_hints(Some(vec![2, 0, 0, 0, 0]));
    update_xwindow_surface(&w, &mut t);
    assert!(t.decorated);
}

#[test]
fn xwindow_attach_surface() {
    let mut w = XWindow::new(9, None, false, true);
    assert_eq!(surface_to_attach(&w, false), None);
    w.surface_id = Some(33);
    assert_eq!(surface_to_attach(&w, false), Some(33));
    assert_eq!(surface_to_attach(&w, true), None);
    w.set_title(Some("t".to_string()), None);
    let a = x11_window_attach_wl_surface(&mut w, Entity(5), Entity(6));
    assert_eq!(a.surface, Entity(6));
    assert_eq!(w.surface_entity, Some(Entity(5)));
    let t = a.toplevel.expect("a toplevel");
    assert!(t.decorated);
    assert_eq!(t.title.as_deref(), Some("t"));
    let mut child = XWindow::new(10, None, false, false);
    assert!(x11_window_attach_wl_surface(&mut child, Entity(7), Entity(8)).toplevel.is_none());
}
