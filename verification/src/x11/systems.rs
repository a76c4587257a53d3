//! The desktop's window actions on X11 windows.
use vstd::prelude::*;
use crate::entity::Entity;
use crate::events::WindowAction;
use crate::input::{SurfaceGrabKind, WlSurfacePointerState};
use crate::util::rect::IRect;
use crate::x11::display::Atoms;
use crate::x11::window::{changed_net_list, opt_text, XWindow, XWindowView};
use crate::xdg::toplevel::DWayToplevel;

verus! {

/// A toplevel surface as the window actions see it: its geometry, the
/// pointer's state over it, whether it is pinned, the X11 window attached to
/// it, and the client that owns it.
pub struct XWindowNode {
    pub surface: Entity,
    pub geometry: IRect,
    pub pointer_state: WlSurfacePointerState,
    pub pinned: bool,
    pub xwindow: Option<XWindow>,
    pub client: Option<Entity>,
}

/// An [`XWindowNode`] as spec values.
pub struct XWindowNodeView {
    pub surface: Entity,
    pub geometry: IRect,
    pub pointer_state: WlSurfacePointerState,
    pub pinned: bool,
    pub xwindow: Option<XWindowView>,
    pub client: Option<Entity>,
}

impl View for XWindowNode {
    type V = XWindowNodeView;

    open spec fn view(&self) -> XWindowNodeView {
        XWindowNodeView {
            surface: self.surface,
            geometry: self.geometry,
            pointer_state: self.pointer_state,
            pinned: self.pinned,
            xwindow: match self.xwindow {
                Some(w) => Some(w@),
                None => None,
            },
            client: self.client,
        }
    }
}

/// A request to the X11 server.
pub enum XRequest {
    /// Destroy the window.
    DestroyWindow { window: u32 },
    /// Replace the window's `_NET_WM_STATE` with `atoms`.
    SetNetState { window: u32, atoms: Vec<u32> },
    /// Move and resize the window.
    ConfigureWindow { window: u32, x: i32, y: i32, width: u32, height: u32 },
    /// Append `windows` to the window list `property` of `window`.
    AppendWindows { window: u32, property: u32, windows: Vec<u32> },
    /// Create the frame window `frame`, child of `parent`, at the given place
    /// and size, with the given border, selecting substructure notify and
    /// redirect.
    CreateFrame { frame: u32, parent: u32, x: i16, y: i16, width: u16, height: u16, border_width: u16 },
    /// Map the window.
    MapWindow { window: u32 },
    /// Hold back the requests of every other client until `UngrabServer`.
    GrabServer,
    /// Let the other clients' requests through again.
    UngrabServer,
}

/// An [`XRequest`] as spec values.
pub enum XRequestView {
    DestroyWindow { window: u32 },
    SetNetState { window: u32, atoms: Seq<u32> },
    ConfigureWindow { window: u32, x: i32, y: i32, width: u32, height: u32 },
    AppendWindows { window: u32, property: u32, windows: Seq<u32> },
    CreateFrame { frame: u32, parent: u32, x: i16, y: i16, width: u16, height: u16, border_width: u16 },
    MapWindow { window: u32 },
    GrabServer,
    UngrabServer,
}

impl View for XRequest {
    type V = XRequestView;

    open spec fn view(&self) -> XRequestView {
        match self {
            XRequest::DestroyWindow { window } => XRequestView::DestroyWindow { window: *window },
            XRequest::SetNetState { window, atoms } => XRequestView::SetNetState {
                window: *window,
                atoms: atoms@,
            },
            XRequest::ConfigureWindow { window, x, y, width, height } => XRequestView::ConfigureWindow {
                window: *window,
                x: *x,
                y: *y,
                width: *width,
                height: *height,
            },
            XRequest::AppendWindows { window, property, windows } => XRequestView::AppendWindows {
                window: *window,
                property: *property,
                windows: windows@,
            },
            XRequest::CreateFrame { frame, parent, x, y, width, height, border_width } =>
                XRequestView::CreateFrame {
                frame: *frame,
                parent: *parent,
                x: *x,
                y: *y,
                width: *width,
                height: *height,
                border_width: *border_width,
            },
            XRequest::MapWindow { window } => XRequestView::MapWindow { window: *window },
            XRequest::GrabServer => XRequestView::GrabServer,
            XRequest::UngrabServer => XRequestView::UngrabServer,
        }
    }
}

/// The views of a sequence of nodes.
pub open spec fn nodes_view(ns: Seq<XWindowNode>) -> Seq<XWindowNodeView> {
    ns.map_values(|n: XWindowNode| n@)
}

/// The views of a sequence of requests.
pub open spec fn requests_view(rs: Seq<XRequest>) -> Seq<XRequestView> {
    rs.map_values(|r: XRequest| r@)
}

/// `i` is the first node of `ns` for the surface `e`.
pub open spec fn is_first_node(ns: Seq<XWindowNodeView>, e: Entity, i: int) -> bool {
    &&& 0 <= i < ns.len()
    &&& ns[i].surface == e
    &&& forall|j: int| 0 <= j < i ==> ns[j].surface != e
}

/// The requests that write `atoms` as the `_NET_WM_STATE` of `window`, with
/// the server grabbed for the write.
pub open spec fn net_state_write(window: u32, atoms: Seq<u32>) -> Seq<XRequestView> {
    seq![
        XRequestView::GrabServer,
        XRequestView::SetNetState { window, atoms },
        XRequestView::UngrabServer,
    ]
}

/// One change of `_NET_WM_STATE`: the new list, and the requests that write
/// it when it changed.
pub open spec fn net_state_change(w: XWindowView, atom: u32, is_add: bool) -> (XWindowView, Seq<
    XRequestView,
>) {
    let after = changed_net_list(w.net_state, atom, is_add);
    (
        XWindowView { net_state: after, ..w },
        if after != w.net_state {
            net_state_write(w.window, after)
        } else {
            Seq::empty()
        },
    )
}

/// Asking for the same `_NET_WM_STATE` change twice writes to the X server
/// at most once: the second call finds the list as it wants it and sends no
/// request.
pub proof fn lemma_net_state_change_repeat_sends_nothing(w: XWindowView, atom: u32, is_add: bool)
    requires
        w.net_state.no_duplicates(),
    ensures
        net_state_change(net_state_change(w, atom, is_add).0, atom, is_add).1 == Seq::<
            XRequestView,
        >::empty(),
{
    let s = w.net_state;
    let after = changed_net_list(s, atom, is_add);
    if is_add {
        if !s.contains(atom) {
            assert(s.push(atom)[s.len() as int] == atom);
        }
        assert(after.contains(atom));
    } else if s.contains(atom) {
        let i = choose|i: int| 0 <= i < s.len() && s[i] == atom;
        assert(after == s.remove(i));
        assert forall|j: int| 0 <= j < after.len() implies after[j] != atom by {
            if j < i {
                assert(after[j] == s[j]);
            } else {
                assert(after[j] == s[j + 1]);
            }
        }
        assert(!after.contains(atom));
    }
}

/// Adding an atom to a list without repeats puts it in, removing takes it
/// out, no other atom comes or goes, and the list stays without repeats.
proof fn lemma_changed_net_list_contents(s: Seq<u32>, atom: u32, is_add: bool)
    requires
        s.no_duplicates(),
    ensures
        changed_net_list(s, atom, is_add).no_duplicates(),
        changed_net_list(s, atom, is_add).contains(atom) == is_add,
        forall|x: u32| x != atom ==> #[trigger] changed_net_list(s, atom, is_add).contains(x) == s.contains(x),
{
    let after = changed_net_list(s, atom, is_add);
    if is_add {
        if !s.contains(atom) {
            assert(after == s.push(atom));
            assert(after[s.len() as int] == atom);
            assert forall|x: u32| x != atom implies #[trigger] after.contains(x) == s.contains(x) by {
                if after.contains(x) {
                    let k = choose|k: int| 0 <= k < after.len() && after[k] == x;
                    assert(s[k] == x);
                }
                if s.contains(x) {
                    let k = choose|k: int| 0 <= k < s.len() && s[k] == x;
                    assert(after[k] == x);
                }
            }
            assert(after.no_duplicates()) by {
                assert forall|a: int, b: int| 0 <= a < b < after.len() implies after[a] != after[b] by {
                    if b == s.len() {
                        assert(s.contains(s[a]));
                    }
                }
            }
        }
    } else if s.contains(atom) {
        let i = choose|i: int| 0 <= i < s.len() && s[i] == atom;
        assert(after == s.remove(i));
        assert forall|j: int| 0 <= j < after.len() implies after[j] != atom by {
            if j < i {
                assert(after[j] == s[j]);
            } else {
                assert(after[j] == s[j + 1]);
            }
        }
        assert forall|x: u32| x != atom implies #[trigger] after.contains(x) == s.contains(x) by {
            if after.contains(x) {
                let k = choose|k: int| 0 <= k < after.len() && after[k] == x;
                if k < i {
                    assert(s[k] == x);
                } else {
                    assert(s[k + 1] == x);
                }
            }
            if s.contains(x) {
                let k = choose|k: int| 0 <= k < s.len() && s[k] == x;
                assert(k != i);
                if k < i {
                    assert(after[k] == x);
                } else {
                    assert(after[k - 1] == x);
                }
            }
        }
        assert(after.no_duplicates()) by {
            assert forall|a: int, b: int| 0 <= a < b < after.len() implies after[a] != after[b] by {
                let a2 = if a < i { a } else { a + 1 };
                let b2 = if b < i { b } else { b + 1 };
                assert(after[a] == s[a2]);
                assert(after[b] == s[b2]);
            }
        }
    }
}

/// After a maximize action on a surface whose X11 window keeps its
/// `_NET_WM_STATE` without repeats, both maximized atoms are in the window's
/// state; after an unmaximize, neither is. No other atom comes or goes, and
/// the list stays without repeats.
pub proof fn lemma_maximize_sets_both_states(
    ns: Seq<XWindowNodeView>,
    atoms: Atoms,
    evs: Seq<WindowAction>,
    ev: WindowAction,
    i: int,
)
    requires
        ev is Maximize || ev is UnMaximize,
        is_first_node(run_x11_actions(ns, atoms, evs).0, ev.target(), i),
        run_x11_actions(ns, atoms, evs).0[i].xwindow is Some,
        run_x11_actions(ns, atoms, evs).0[i].xwindow.unwrap().net_state.no_duplicates(),
    ensures
        ({
            let before = run_x11_actions(ns, atoms, evs).0[i].xwindow.unwrap().net_state;
            let after_nodes = run_x11_actions(ns, atoms, evs.push(ev)).0;
            let h = atoms.net_wm_state_maximized_horz;
            let v = atoms.net_wm_state_maximized_vert;
            &&& after_nodes[i].xwindow is Some
            &&& after_nodes[i].xwindow.unwrap().net_state.contains(h) == (ev is Maximize)
            &&& after_nodes[i].xwindow.unwrap().net_state.contains(v) == (ev is Maximize)
            &&& after_nodes[i].xwindow.unwrap().net_state.no_duplicates()
            &&& forall|x: u32|
                x != h && x != v ==> #[trigger] after_nodes[i].xwindow.unwrap().net_state.contains(x)
                    == before.contains(x)
        }),
{
    let ns1 = run_x11_actions(ns, atoms, evs).0;
    assert(evs.push(ev).drop_last() =~= evs);
    assert(evs.push(ev).last() == ev);
    let e = ev.target();
    let c = choose|j: int| is_first_node(ns1, e, j);
    assert(c == i) by {
        if c < i {
            assert(ns1[c].surface != e);
        } else if i < c {
            assert(ns1[i].surface != e);
        }
    }
    let w = ns1[i].xwindow.unwrap();
    let is_add = ev is Maximize;
    let h = atoms.net_wm_state_maximized_horz;
    let v = atoms.net_wm_state_maximized_vert;
    let (w1, _) = net_state_change(w, h, is_add);
    lemma_changed_net_list_contents(w.net_state, h, is_add);
    lemma_changed_net_list_contents(w1.net_state, v, is_add);
}

/// After a fullscreen (or minimize) action on a surface whose X11 window
/// keeps its `_NET_WM_STATE` without repeats, the fullscreen (or hidden) atom
/// is in the window's state; after an unfullscreen (or unminimize), it is
/// not. No other atom comes or goes, and the list stays without repeats.
pub proof fn lemma_fullscreen_minimize_set_state(
    ns: Seq<XWindowNodeView>,
    atoms: Atoms,
    evs: Seq<WindowAction>,
    ev: WindowAction,
    i: int,
)
    requires
        ev is Fullscreen || ev is UnFullscreen || ev is Minimize || ev is UnMinimize,
        is_first_node(run_x11_actions(ns, atoms, evs).0, ev.target(), i),
        run_x11_actions(ns, atoms, evs).0[i].xwindow is Some,
        run_x11_actions(ns, atoms, evs).0[i].xwindow.unwrap().net_state.no_duplicates(),
    ensures
        ({
            let before = run_x11_actions(ns, atoms, evs).0[i].xwindow.unwrap().net_state;
            let after_nodes = run_x11_actions(ns, atoms, evs.push(ev)).0;
            let a = if ev is Fullscreen || ev is UnFullscreen {
                atoms.net_wm_state_fullscreen
            } else {
                atoms.net_wm_state_hidden
            };
            &&& after_nodes[i].xwindow is Some
            &&& after_nodes[i].xwindow.unwrap().net_state.contains(a) == (ev is Fullscreen || ev is Minimize)
            &&& after_nodes[i].xwindow.unwrap().net_state.no_duplicates()
            &&& forall|x: u32|
                x != a ==> #[trigger] after_nodes[i].xwindow.unwrap().net_state.contains(x) == before.contains(x)
        }),
{
    let ns1 = run_x11_actions(ns, atoms, evs).0;
    assert(evs.push(ev).drop_last() =~= evs);
    assert(evs.push(ev).last() == ev);
    let e = ev.target();
    let c = choose|j: int| is_first_node(ns1, e, j);
    assert(c == i) by {
        if c < i {
            assert(ns1[c].surface != e);
        } else if i < c {
            assert(ns1[i].surface != e);
        }
    }
    let w = ns1[i].xwindow.unwrap();
    let a = if ev is Fullscreen || ev is UnFullscreen {
        atoms.net_wm_state_fullscreen
    } else {
        atoms.net_wm_state_hidden
    };
    lemma_changed_net_list_contents(w.net_state, a, ev is Fullscreen || ev is Minimize);
}

/// A close action on a surface with an X11 window asks the server to
/// destroy exactly that window, and a set-rect action asks it to move and
/// resize exactly that window to the rectangle's corner and size; neither
/// touches the window's record or the other nodes.
pub proof fn lemma_close_and_set_rect_requests(
    ns: Seq<XWindowNodeView>,
    atoms: Atoms,
    evs: Seq<WindowAction>,
    ev: WindowAction,
    i: int,
)
    requires
        ev is Close || ev is SetRect,
        is_first_node(run_x11_actions(ns, atoms, evs).0, ev.target(), i),
        run_x11_actions(ns, atoms, evs).0[i].xwindow is Some,
    ensures
        ({
            let (ns1, r1) = run_x11_actions(ns, atoms, evs);
            let (ns2, r2) = run_x11_actions(ns, atoms, evs.push(ev));
            let window = ns1[i].xwindow.unwrap().window;
            &&& ns2 == ns1
            &&& r2.len() == r1.len() + 1
            &&& r2.subrange(0, r1.len() as int) == r1
            &&& match ev {
                WindowAction::SetRect(_, rect) => r2.last() matches XRequestView::ConfigureWindow {
                    window: w,
                    x,
                    y,
                    width,
                    height,
                } && w == window && x == rect.min.x && y == rect.min.y && width == (rect.max.x
                    - rect.min.x) as u32 && height == (rect.max.y - rect.min.y) as u32,
                _ => r2.last() == XRequestView::DestroyWindow { window },
            }
        }),
{
    let (ns1, r1) = run_x11_actions(ns, atoms, evs);
    assert(evs.push(ev).drop_last() =~= evs);
    assert(evs.push(ev).last() == ev);
    let e = ev.target();
    let c = choose|j: int| is_first_node(ns1, e, j);
    assert(c == i) by {
        if c < i {
            assert(ns1[c].surface != e);
        } else if i < c {
            assert(ns1[i].surface != e);
        }
    }
    let (ns2, r2) = run_x11_actions(ns, atoms, evs.push(ev));
    assert(ns2 =~= ns1);
    assert(r2.subrange(0, r1.len() as int) =~= r1);
}

/// Two changes of `_NET_WM_STATE`, one after the other.
pub open spec fn net_state_change2(
    w: XWindowView,
    a1: u32,
    a2: u32,
    is_add: bool,
) -> (XWindowView, Seq<XRequestView>) {
    let (w1, r1) = net_state_change(w, a1, is_add);
    let (w2, r2) = net_state_change(w1, a2, is_add);
    (w2, r1 + r2)
}

/// What one window action does to the X11 window attached to a surface.
pub open spec fn xwindow_action(w: XWindowView, atoms: Atoms, ev: WindowAction) -> (XWindowView, Seq<
    XRequestView,
>) {
    match ev {
        WindowAction::Close(_) => (w, seq![XRequestView::DestroyWindow { window: w.window }]),
        WindowAction::Maximize(_) => net_state_change2(
            w,
            atoms.net_wm_state_maximized_horz,
            atoms.net_wm_state_maximized_vert,
            true,
        ),
        WindowAction::UnMaximize(_) => net_state_change2(
            w,
            atoms.net_wm_state_maximized_horz,
            atoms.net_wm_state_maximized_vert,
            false,
        ),
        WindowAction::Fullscreen(_) => net_state_change(w, atoms.net_wm_state_fullscreen, true),
        WindowAction::UnFullscreen(_) => net_state_change(w, atoms.net_wm_state_fullscreen, false),
        WindowAction::Minimize(_) => net_state_change(w, atoms.net_wm_state_hidden, true),
        WindowAction::UnMinimize(_) => net_state_change(w, atoms.net_wm_state_hidden, false),
        WindowAction::SetRect(_, rect) => (
            w,
            seq![
                XRequestView::ConfigureWindow {
                    window: w.window,
                    x: rect.min.x,
                    y: rect.min.y,
                    width: rect.spec_width() as u32,
                    height: rect.spec_height() as u32,
                },
            ],
        ),
        _ => (w, Seq::empty()),
    }
}

/// One window action on the nodes: the nodes after it and the X11 requests.
pub open spec fn x11_action_step(ns: Seq<XWindowNodeView>, atoms: Atoms, ev: WindowAction) -> (Seq<
    XWindowNodeView,
>, Seq<XRequestView>) {
    let e = ev.target();
    if !(exists|i: int| is_first_node(ns, e, i)) {
        (ns, Seq::empty())
    } else {
        let i = choose|i: int| is_first_node(ns, e, i);
        let n = ns[i];
        match ev {
            WindowAction::RequestMove(_) => match n.client {
                Some(c) => if n.pinned {
                    (ns, Seq::empty())
                } else {
                    let kind = SurfaceGrabKind::Move {
                        mouse_pos: n.pointer_state.mouse_pos,
                        seat: c,
                        serial: None,
                    };
                    (
                        ns.update(
                            i,
                            XWindowNodeView {
                                pointer_state: WlSurfacePointerState {
                                    grab: Some(kind),
                                    ..n.pointer_state
                                },
                                ..n
                            },
                        ),
                        Seq::empty(),
                    )
                },
                None => (ns, Seq::empty()),
            },
            WindowAction::RequestResize(_, edges) => match n.client {
                Some(c) => if n.pinned {
                    (ns, Seq::empty())
                } else {
                    let kind = SurfaceGrabKind::Resizing {
                        seat: c,
                        serial: None,
                        edges,
                        geo: n.geometry,
                    };
                    (
                        ns.update(
                            i,
                            XWindowNodeView {
                                pointer_state: WlSurfacePointerState {
                                    grab: Some(kind),
                                    ..n.pointer_state
                                },
                                ..n
                            },
                        ),
                        Seq::empty(),
                    )
                },
                None => (ns, Seq::empty()),
            },
            _ => match n.xwindow {
                Some(w) => {
                    let (w2, rs) = xwindow_action(w, atoms, ev);
                    (ns.update(i, XWindowNodeView { xwindow: Some(w2), ..n }), rs)
                },
                None => (ns, Seq::empty()),
            },
        }
    }
}

/// The nodes and the requests after a sequence of window actions.
pub open spec fn run_x11_actions(ns: Seq<XWindowNodeView>, atoms: Atoms, evs: Seq<WindowAction>) -> (Seq<
    XWindowNodeView,
>, Seq<XRequestView>)
    decreases evs.len(),
{
    if evs.len() == 0 {
        (ns, Seq::empty())
    } else {
        let (ns1, r1) = run_x11_actions(ns, atoms, evs.drop_last());
        let (ns2, r2) = x11_action_step(ns1, atoms, evs.last());
        (ns2, r1 + r2)
    }
}

/// The size of every rectangle the actions set fits in `i32`.
pub open spec fn set_rects_fit(evs: Seq<WindowAction>) -> bool {
    forall|i: int|
        0 <= i < evs.len() ==> (#[trigger] evs[i] matches WindowAction::SetRect(_, r) ==> r.size_fits())
}

/// The well-formedness of every X11 window of the nodes.
pub open spec fn nodes_wf(ns: Seq<XWindowNode>) -> bool {
    forall|i: int| 0 <= i < ns.len() ==> (#[trigger] ns[i].xwindow matches Some(w) ==> w.wf())
}

/// Changes `_NET_WM_STATE` of `w` and records the request when it changed.
fn change_state(w: &mut XWindow, atom: u32, is_add: bool, out: &mut Vec<XRequest>)
    requires
        old(w).wf(),
    ensures
        final(w).wf(),
        ({
            let (w2, rs) = net_state_change(old(w)@, atom, is_add);
            &&& final(w)@ == w2
            &&& requests_view(final(out)@) == requests_view(old(out)@) + rs
        }),
{
    let mut requests = w.change_net_state(atom, is_add);
    let ghost added = requests@;
    out.append(&mut requests);
    assert(requests_view(out@) =~= requests_view(old(out)@) + requests_view(added));
}

/// Applies one action to the X11 window of a node.
fn apply_to_xwindow(w: &mut XWindow, atoms: &Atoms, ev: WindowAction, out: &mut Vec<XRequest>)
    requires
        old(w).wf(),
        ev matches WindowAction::SetRect(_, r) ==> r.size_fits(),
    ensures
        final(w).wf(),
        ({
            let (w2, rs) = xwindow_action(old(w)@, *atoms, ev);
            &&& final(w)@ == w2
            &&& requests_view(final(out)@) == requests_view(old(out)@) + rs
        }),
{
    match ev {
        WindowAction::Close(_) => {
            out.push(XRequest::DestroyWindow { window: w.window });
            assert(requests_view(out@) =~= requests_view(old(out)@) + seq![
                XRequestView::DestroyWindow { window: w.window },
            ]);
        },
        WindowAction::Maximize(_) => {
            change_state(w, atoms.net_wm_state_maximized_horz, true, out);
            change_state(w, atoms.net_wm_state_maximized_vert, true, out);
        },
        WindowAction::UnMaximize(_) => {
            change_state(w, atoms.net_wm_state_maximized_horz, false, out);
            change_state(w, atoms.net_wm_state_maximized_vert, false, out);
        },
        WindowAction::Fullscreen(_) => {
            change_state(w, atoms.net_wm_state_fullscreen, true, out);
        },
        WindowAction::UnFullscreen(_) => {
            change_state(w, atoms.net_wm_state_fullscreen, false, out);
        },
        WindowAction::Minimize(_) => {
            change_state(w, atoms.net_wm_state_hidden, true, out);
        },
        WindowAction::UnMinimize(_) => {
            change_state(w, atoms.net_wm_state_hidden, false, out);
        },
        WindowAction::SetRect(_, rect) => {
            let req = XRequest::ConfigureWindow {
                window: w.window,
                x: rect.x(),
                y: rect.y(),
                width: rect.width() as u32,
                height: rect.height() as u32,
            };
            out.push(req);
            assert(requests_view(out@) =~= requests_view(old(out)@) + seq![req@]);
        },
        _ => {
            assert(requests_view(out@) =~= requests_view(old(out)@) + Seq::<XRequestView>::empty());
        },
    }
}

/// Applies one window action to the nodes.
#[verifier::rlimit(60)]
fn apply_x11_action(
    nodes: &mut Vec<XWindowNode>,
    atoms: &Atoms,
    ev: WindowAction,
    out: &mut Vec<XRequest>,
)
    requires
        nodes_wf(old(nodes)@),
        ev matches WindowAction::SetRect(_, r) ==> r.size_fits(),
    ensures
        nodes_wf(final(nodes)@),
        ({
            let (ns, rs) = x11_action_step(nodes_view(old(nodes)@), *atoms, ev);
            &&& nodes_view(final(nodes)@) == ns
            &&& requests_view(final(out)@) == requests_view(old(out)@) + rs
        }),
{
    let e = match ev {
        WindowAction::Close(e) => e,
        WindowAction::Maximize(e) => e,
        WindowAction::UnMaximize(e) => e,
        WindowAction::Fullscreen(e) => e,
        WindowAction::UnFullscreen(e) => e,
        WindowAction::Minimize(e) => e,
        WindowAction::UnMinimize(e) => e,
        WindowAction::SetRect(e, _) => e,
        WindowAction::RequestMove(e) => e,
        WindowAction::RequestResize(e, _) => e,
    };
    let ghost nv = nodes_view(nodes@);
    let mut i: usize = 0;
    while i < nodes.len()
        invariant
            i <= nodes.len(),
            nv == nodes_view(nodes@),
            forall|j: int| 0 <= j < i ==> nv[j].surface != e,
        ensures
            i <= nodes.len(),
            forall|j: int| 0 <= j < i ==> nv[j].surface != e,
            i < nodes.len() ==> nv[i as int].surface == e,
        decreases nodes.len() - i,
    {
        if nodes[i].surface == e {
            break;
        }
        i = i + 1;
    }
    if i == nodes.len() {
        assert forall|k: int| !is_first_node(nv, e, k) by {}
        assert(requests_view(out@) =~= requests_view(old(out)@) + Seq::<XRequestView>::empty());
        return;
    }
    proof {
        assert(is_first_node(nv, e, i as int));
        let c = choose|k: int| is_first_node(nv, e, k);
        assert(c == i as int) by {
            if c < i as int {
                assert(nv[c].surface != e);
            } else if c > i as int {
                assert(nv[i as int].surface != e);
            }
        }
    }
    let mut node = nodes.remove(i);
    assert(node@ == nv[i as int]);
    match ev {
        WindowAction::RequestMove(_) => {
            match node.client {
                Some(c) => {
                    if !node.pinned {
                        let kind = SurfaceGrabKind::Move {
                            mouse_pos: node.pointer_state.mouse_pos,
                            seat: c,
                            serial: None,
                        };
                        node.pointer_state.set_grab(kind);
                    }
                },
                None => {},
            }
            assert(requests_view(out@) =~= requests_view(old(out)@) + Seq::<XRequestView>::empty());
        },
        WindowAction::RequestResize(_, edges) => {
            match node.client {
                Some(c) => {
                    if !node.pinned {
                        let kind = SurfaceGrabKind::Resizing {
                            seat: c,
                            serial: None,
                            edges,
                            geo: node.geometry,
                        };
                        node.pointer_state.set_grab(kind);
                    }
                },
                None => {},
            }
            assert(requests_view(out@) =~= requests_view(old(out)@) + Seq::<XRequestView>::empty());
        },
        _ => {
            match node.xwindow {
                Some(mut w) => {
                    assert(nodes_wf(old(nodes)@));
                    assert(old(nodes)@[i as int].xwindow matches Some(x) ==> x.wf());
                    apply_to_xwindow(&mut w, atoms, ev, out);
                    node.xwindow = Some(w);
                },
                None => {
                    assert(requests_view(out@) =~= requests_view(old(out)@)
                        + Seq::<XRequestView>::empty());
                },
            }
        },
    }
    nodes.insert(i, node);
    assert(nodes_view(nodes@) =~= x11_action_step(nv, *atoms, ev).0);
}

/// Every server grab in `rs` is a write of `_NET_WM_STATE`: a grab, the
/// write and the release, one after the other, and no write or release
/// stands outside such a block.
pub open spec fn grab_blocks(rs: Seq<XRequestView>) -> bool {
    &&& forall|j: int|
        0 <= j < rs.len() && (#[trigger] rs[j] is GrabServer) ==> j + 2 < rs.len() && rs[j + 1] is SetNetState
            && rs[j + 2] is UngrabServer
    &&& forall|j: int| 0 <= j < rs.len() && (#[trigger] rs[j] is SetNetState) ==> j >= 1 && rs[j - 1] is GrabServer
    &&& forall|j: int|
        0 <= j < rs.len() && (#[trigger] rs[j] is UngrabServer) ==> j >= 2 && rs[j - 1] is SetNetState
            && rs[j - 2] is GrabServer
}

/// Whether the server is grabbed once the first `n` requests of `rs` have
/// gone out.
pub open spec fn grab_held(rs: Seq<XRequestView>, n: int) -> bool
    decreases n,
{
    if n <= 0 {
        false
    } else {
        match rs[n - 1] {
            XRequestView::GrabServer => true,
            XRequestView::UngrabServer => false,
            _ => grab_held(rs, n - 1),
        }
    }
}

/// The position of the first release at or after `m` (the end when none).
pub open spec fn first_release_from(rs: Seq<XRequestView>, m: int) -> int
    decreases rs.len() - m,
{
    if m >= rs.len() {
        rs.len() as int
    } else if rs[m] is UngrabServer {
        m
    } else {
        first_release_from(rs, m + 1)
    }
}

/// Where sending goes on after request `k` of `rs` failed: inside a grab,
/// at the release that ends it (the work under the grab is dropped, the
/// grab is still released); outside, at the next request.
pub open spec fn resume_after(rs: Seq<XRequestView>, k: int) -> int {
    if grab_held(rs, k + 1) {
        first_release_from(rs, k + 1)
    } else {
        k + 1
    }
}

/// The position from which to go on sending `requests` after request
/// `failed` failed.
pub fn resume_after_failure(requests: &Vec<XRequest>, failed: usize) -> (r: usize)
    requires
        failed < requests.len(),
    ensures
        r == resume_after(requests_view(requests@), failed as int),
        failed < r <= requests.len(),
{
    let ghost rs = requests_view(requests@);
    let mut held = false;
    let mut i: usize = 0;
    while i <= failed
        invariant
            i <= failed + 1,
            failed < requests.len(),
            rs == requests_view(requests@),
            held == grab_held(rs, i as int),
        decreases failed + 1 - i,
    {
        assert(rs[i as int] == requests@[i as int]@);
        match &requests[i] {
            XRequest::GrabServer => {
                held = true;
            },
            XRequest::UngrabServer => {
                held = false;
            },
            _ => {},
        }
        i = i + 1;
    }
    if !held {
        return failed + 1;
    }
    let mut m: usize = failed + 1;
    while m < requests.len()
        invariant
            failed < m <= requests.len(),
            rs == requests_view(requests@),
            first_release_from(rs, m as int) == first_release_from(rs, failed + 1),
            grab_held(rs, failed + 1),
        decreases requests.len() - m,
    {
        assert(rs[m as int] == requests@[m as int]@);
        match &requests[m] {
            XRequest::UngrabServer => {
                assert(first_release_from(rs, m as int) == m);
                return m;
            },
            _ => {},
        }
        m = m + 1;
    }
    m
}

/// In a plan whose grabs are all `_NET_WM_STATE` writes, the server is held
/// exactly after a grab or a write.
proof fn lemma_grab_held_in_blocks(rs: Seq<XRequestView>, n: int)
    requires
        grab_blocks(rs),
        0 <= n <= rs.len(),
    ensures
        grab_held(rs, n) == ((n >= 1 && rs[n - 1] is GrabServer) || (n >= 2 && rs[n - 1] is SetNetState)),
    decreases n,
{
    if n >= 1 {
        lemma_grab_held_in_blocks(rs, n - 1);
        let x = rs[n - 1];
        if n >= 2 {
            let y = rs[n - 2];
            if y is GrabServer {
                assert(rs[n - 1] is SetNetState);
            }
            if y is SetNetState {
                assert(rs[n - 2 - 1] is GrabServer);
                assert(rs[n - 1] is UngrabServer);
            }
        }
        if x is SetNetState {
            assert(rs[n - 2] is GrabServer);
        }
    }
}

/// A failed request of a plan whose grabs are all `_NET_WM_STATE` writes
/// costs at most the write of its own block: sending goes on right after it,
/// or, when the grab of a write failed, at that write's release. Every
/// request of the later actions still goes out.
pub proof fn lemma_failure_skips_only_its_write(rs: Seq<XRequestView>, k: int)
    requires
        grab_blocks(rs),
        0 <= k < rs.len(),
    ensures
        resume_after(rs, k) == k + 1 || (resume_after(rs, k) == k + 2 && rs[k] is GrabServer
            && rs[k + 1] is SetNetState),
{
    lemma_grab_held_in_blocks(rs, k + 1);
    if rs[k] is GrabServer {
        assert(rs[k + 1] is SetNetState);
        assert(rs[k + 2] is UngrabServer);
        assert(first_release_from(rs, k + 2) == k + 2);
    } else if rs[k] is SetNetState {
        assert(rs[k - 1] is GrabServer);
        assert(rs[k + 1] is UngrabServer);
        assert(first_release_from(rs, k + 1) == k + 1);
    }
}

/// Two plans with their grabs only in `_NET_WM_STATE` writes, one after the
/// other, are again such a plan.
proof fn lemma_grab_blocks_concat(a: Seq<XRequestView>, b: Seq<XRequestView>)
    requires
        grab_blocks(a),
        grab_blocks(b),
    ensures
        grab_blocks(a + b),
{
    let c = a + b;
    assert forall|j: int| 0 <= j < c.len() && (#[trigger] c[j] is GrabServer) implies j + 2 < c.len()
        && c[j + 1] is SetNetState && c[j + 2] is UngrabServer by {
        if j < a.len() {
            assert(a[j] is GrabServer);
        } else {
            assert(b[j - a.len()] is GrabServer);
        }
    }
    assert forall|j: int| 0 <= j < c.len() && (#[trigger] c[j] is SetNetState) implies j >= 1
        && c[j - 1] is GrabServer by {
        if j < a.len() {
            assert(a[j] is SetNetState);
        } else {
            assert(b[j - a.len()] is SetNetState);
        }
    }
    assert forall|j: int| 0 <= j < c.len() && (#[trigger] c[j] is UngrabServer) implies j >= 2
        && c[j - 1] is SetNetState && c[j - 2] is GrabServer by {
        if j < a.len() {
            assert(a[j] is UngrabServer);
        } else {
            assert(b[j - a.len()] is UngrabServer);
        }
    }
}

/// The requests of one `_NET_WM_STATE` change keep their grabs in blocks.
proof fn lemma_net_state_change_blocks(w: XWindowView, atom: u32, is_add: bool)
    ensures
        grab_blocks(net_state_change(w, atom, is_add).1),
{
    let after = changed_net_list(w.net_state, atom, is_add);
    if after != w.net_state {
        let rs = net_state_write(w.window, after);
        assert(rs[0] is GrabServer && rs[1] is SetNetState && rs[2] is UngrabServer);
    }
}

/// The requests of one window action keep their grabs in blocks.
proof fn lemma_action_step_blocks(ns: Seq<XWindowNodeView>, atoms: Atoms, ev: WindowAction)
    ensures
        grab_blocks(x11_action_step(ns, atoms, ev).1),
{
    let e = ev.target();
    if exists|i: int| is_first_node(ns, e, i) {
        let i = choose|i: int| is_first_node(ns, e, i);
        let n = ns[i];
        match n.xwindow {
            Some(w) => {
                match ev {
                    WindowAction::Maximize(_) | WindowAction::UnMaximize(_) => {
                        let is_add = ev is Maximize;
                        let a1 = atoms.net_wm_state_maximized_horz;
                        let a2 = atoms.net_wm_state_maximized_vert;
                        let (w1, r1) = net_state_change(w, a1, is_add);
                        lemma_net_state_change_blocks(w, a1, is_add);
                        lemma_net_state_change_blocks(w1, a2, is_add);
                        lemma_grab_blocks_concat(r1, net_state_change(w1, a2, is_add).1);
                    },
                    WindowAction::Fullscreen(_) | WindowAction::UnFullscreen(_) => {
                        lemma_net_state_change_blocks(w, atoms.net_wm_state_fullscreen, ev is Fullscreen);
                    },
                    WindowAction::Minimize(_) | WindowAction::UnMinimize(_) => {
                        lemma_net_state_change_blocks(w, atoms.net_wm_state_hidden, ev is Minimize);
                    },
                    _ => {},
                }
            },
            None => {},
        }
    }
}

/// Every server grab that a batch of window actions plans is a
/// `_NET_WM_STATE` write: a grab, the write and the release, one after the
/// other. With [`lemma_failure_skips_only_its_write`], a request that fails
/// while the plan is sent costs at most that one write, and every later
/// action still reaches the X server.
pub proof fn lemma_action_plan_grab_blocks(ns: Seq<XWindowNodeView>, atoms: Atoms, evs: Seq<WindowAction>)
    ensures
        grab_blocks(run_x11_actions(ns, atoms, evs).1),
    decreases evs.len(),
{
    if evs.len() > 0 {
        let (ns1, r1) = run_x11_actions(ns, atoms, evs.drop_last());
        lemma_action_plan_grab_blocks(ns, atoms, evs.drop_last());
        lemma_action_step_blocks(ns1, atoms, evs.last());
        lemma_grab_blocks_concat(r1, x11_action_step(ns1, atoms, evs.last()).1);
    } else {
        assert(run_x11_actions(ns, atoms, evs).1 =~= Seq::<XRequestView>::empty());
    }
}

/// Applies the desktop's window actions to the toplevel surfaces and their
/// X11 windows, in order, and gives back the requests to send to the X11
/// server. Moves and resizes set the grab of the surface for the seat of
/// its client, unless the window is pinned.
pub fn process_window_action_events(
    events: &Vec<WindowAction>,
    nodes: &mut Vec<XWindowNode>,
    atoms: &Atoms,
) -> (r: Vec<XRequest>)
    requires
        nodes_wf(old(nodes)@),
        set_rects_fit(events@),
    ensures
        nodes_wf(final(nodes)@),
        (nodes_view(final(nodes)@), requests_view(r@)) == run_x11_actions(
            nodes_view(old(nodes)@),
            *atoms,
            events@,
        ),
{
    let mut out: Vec<XRequest> = Vec::new();
    let mut i: usize = 0;
    while i < events.len()
        invariant
            i <= events.len(),
            set_rects_fit(events@),
            nodes_wf(nodes@),
            (nodes_view(nodes@), requests_view(out@)) == run_x11_actions(
                nodes_view(old(nodes)@),
                *atoms,
                events@.take(i as int),
            ),
        decreases events.len() - i,
    {
        let ev = events[i];
        assert(events@.take(i + 1).drop_last() == events@.take(i as int));
        assert(events@[i as int] matches WindowAction::SetRect(_, r) ==> r.size_fits());
        apply_x11_action(nodes, atoms, ev, &mut out);
        i = i + 1;
    }
    assert(events@.take(events.len() as int) == events@);
    out
}

impl XWindow {
    /// The request that moves and resizes the window to `rect`.
    pub fn set_rect(&self, rect: IRect) -> (r: XRequest)
        requires
            rect.size_fits(),
        ensures
            r@ == self.set_rect_view(rect),
    {
        XRequest::ConfigureWindow {
            window: self.window,
            x: rect.x(),
            y: rect.y(),
            width: rect.width() as u32,
            height: rect.height() as u32,
        }
    }

    /// A resize is a move and resize to `rect`.
    pub fn resize(&self, rect: IRect) -> (r: XRequest)
        requires
            rect.size_fits(),
        ensures
            r@ == self.set_rect_view(rect),
    {
        self.set_rect(rect)
    }

    /// The view of [`Self::set_rect`]'s request.
    pub open spec fn set_rect_view(&self, rect: IRect) -> XRequestView {
        XRequestView::ConfigureWindow {
            window: self.window,
            x: rect.min.x,
            y: rect.min.y,
            width: rect.spec_width() as u32,
            height: rect.spec_height() as u32,
        }
    }

    /// The request that closes the window: it is destroyed.
    pub fn close(&self) -> (r: XRequest)
        ensures
            r@ == (XRequestView::DestroyWindow { window: self.window }),
    {
        XRequest::DestroyWindow { window: self.window }
    }
}

/// A copy of an optional string.
fn clone_opt_string(s: &Option<String>) -> (r: Option<String>)
    ensures
        opt_text(r) == opt_text(*s),
{
    match s {
        Some(t) => Some(t.clone()),
        None => None,
    }
}

/// Whether two optional strings hold the same text.
fn same_opt_string(a: &Option<String>, b: &Option<String>) -> (r: bool)
    ensures
        r == (opt_text(*a) == opt_text(*b)),
{
    match (a, b) {
        (Some(x), Some(y)) => *x == *y,
        (None, None) => true,
        _ => false,
    }
}

/// Brings the toplevel of a surface up to date with the X11 window shown in
/// it: the title is copied when it differs, and a toplevel whose decoration
/// differs from the window's is marked decorated.
pub fn update_xwindow_surface(xwindow: &XWindow, toplevel: &mut DWayToplevel)
    ensures
        final(toplevel).decorated == (old(toplevel).decorated || xwindow.spec_is_decorated()
            != old(toplevel).decorated),
        opt_text(final(toplevel).title) == opt_text(xwindow.title),
        opt_text(final(toplevel).app_id) == opt_text(old(toplevel).app_id),
        final(toplevel).max == old(toplevel).max,
        final(toplevel).fullscreen == old(toplevel).fullscreen,
        final(toplevel).min == old(toplevel).min,
        final(toplevel).min_size == old(toplevel).min_size,
        final(toplevel).max_size == old(toplevel).max_size,
        final(toplevel).size == old(toplevel).size,
{
    let decorated = xwindow.is_decorated();
    if decorated != toplevel.decorated {
        toplevel.decorated = true;
    }
    if !same_opt_string(&xwindow.title, &toplevel.title) {
        toplevel.title = clone_opt_string(&xwindow.title);
    }
}

/// The protocol id of the `wl_surface` to attach to an X11 window: none when
/// a surface is attached already or the window has not named one.
pub fn surface_to_attach(xwindow: &XWindow, attached: bool) -> (r: Option<u32>)
    ensures
        r == (if attached {
            None
        } else {
            xwindow.surface_id
        }),
{
    if attached {
        None
    } else {
        xwindow.surface_id
    }
}

/// What attaching a `wl_surface` to an X11 window gives the surface: it
/// becomes a window, and a toplevel when the X11 window is one.
pub struct SurfaceAttachment {
    pub surface: Entity,
    pub toplevel: Option<DWayToplevel>,
}

/// Attaches the surface found for an X11 window. The window records its own
/// entity as its surface entity; a toplevel window gives the surface a
/// toplevel with the window's decoration and title and nothing else set.
pub fn x11_window_attach_wl_surface(
    xwindow: &mut XWindow,
    xwindow_entity: Entity,
    wl_surface_entity: Entity,
) -> (r: SurfaceAttachment)
    ensures
        final(xwindow)@ == (XWindowView { surface_entity: Some(xwindow_entity), ..old(xwindow)@ }),
        r.surface == wl_surface_entity,
        r.toplevel is Some <==> old(xwindow).is_toplevel,
        r.toplevel matches Some(t) ==> {
            &&& t.decorated == old(xwindow).spec_is_decorated()
            &&& opt_text(t.title) == opt_text(old(xwindow).title)
            &&& t.app_id is None
            &&& !t.max && !t.fullscreen && !t.min
            &&& t.min_size is None && t.max_size is None && t.size is None
        },
{
    xwindow.surface_entity = Some(xwindow_entity);
    let toplevel = if xwindow.is_toplevel {
        let mut t = DWayToplevel::default();
        t.decorated = xwindow.is_decorated();
        t.title = clone_opt_string(&xwindow.title);
        Some(t)
    } else {
        None
    };
    SurfaceAttachment { surface: wl_surface_entity, toplevel }
}

} // verus!
