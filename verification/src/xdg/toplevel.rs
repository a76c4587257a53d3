//! The `xdg_toplevel` role: window state, its requests, and the window
//! actions of the desktop.
use vstd::prelude::*;
use wayland_backend::server::GlobalId;
use crate::entity::Entity;
use crate::events::WindowAction;
use crate::input::{ResizeEdges, StartGrab};
use crate::util::rect::{fits_i32, irect, IRect, IVec2};
use crate::wl::surface::WlSurface;
use crate::xdg::positioner::or_zero;

verus! {

/// The `xdg_toplevel` state value `maximized`.
pub const STATE_MAXIMIZED: u8 = 1;
/// The `xdg_toplevel` state value `fullscreen`.
pub const STATE_FULLSCREEN: u8 = 2;
/// The `xdg_toplevel` state value `activated`.
pub const STATE_ACTIVATED: u8 = 4;
/// The first `xdg_toplevel` version with the `configure_bounds` event.
pub const EVT_CONFIGURE_BOUNDS_SINCE: u32 = 4;

/// Marks a window that the user has pinned in place.
pub struct PinedWindow;

/// The state of a toplevel window.
pub struct DWayToplevel {
    pub title: Option<String>,
    pub app_id: Option<String>,
    pub max: bool,
    pub fullscreen: bool,
    pub min: bool,
    pub decorated: bool,
    pub min_size: Option<IVec2>,
    pub max_size: Option<IVec2>,
    pub size: Option<IVec2>,
}

impl Default for DWayToplevel {
    fn default() -> (r: DWayToplevel)
        ensures
            r.title is None,
            r.app_id is None,
            !r.max,
            !r.fullscreen,
            !r.min,
            !r.decorated,
            r.min_size is None,
            r.max_size is None,
            r.size is None,
    {
        DWayToplevel {
            title: None,
            app_id: None,
            max: false,
            fullscreen: false,
            min: false,
            decorated: false,
            min_size: None,
            max_size: None,
            size: None,
        }
    }
}

/// An `xdg_toplevel` object.
pub struct XdgToplevel {
    /// Whether the first configure has been sent.
    pub send_configure: bool,
    /// The version of the object.
    pub version: u32,
}

/// The content of a configure event: the size asked of the window, its
/// states, and whether the object is recent enough to be told its bounds
/// (which are the same size).
#[derive(Clone, Copy, PartialEq, Eq, Debug, Structural)]
pub struct ToplevelConfigure {
    pub width: i32,
    pub height: i32,
    pub maximized: bool,
    pub fullscreen: bool,
    pub bounds: bool,
}

/// The configure event for a window, from its surface, state and version.
pub open spec fn spec_configure(surface: WlSurface, data: DWayToplevel, version: u32) -> ToplevelConfigure {
    let s = surface.spec_toplevel_size(or_zero(data.size));
    ToplevelConfigure {
        width: s.0 as i32,
        height: s.1 as i32,
        maximized: data.max,
        fullscreen: data.fullscreen,
        bounds: version >= EVT_CONFIGURE_BOUNDS_SINCE,
    }
}

/// The state array of a configure event: `activated` always, then
/// `maximized` and `fullscreen` when they hold, each as four little-endian
/// bytes.
pub open spec fn spec_states(maximized: bool, fullscreen: bool) -> Seq<u8> {
    seq![STATE_ACTIVATED, 0u8, 0u8, 0u8] + (if maximized {
        seq![STATE_MAXIMIZED, 0u8, 0u8, 0u8]
    } else {
        Seq::<u8>::empty()
    }) + (if fullscreen {
        seq![STATE_FULLSCREEN, 0u8, 0u8, 0u8]
    } else {
        Seq::<u8>::empty()
    })
}

impl ToplevelConfigure {
    /// The bytes of the event's state array.
    pub fn states(&self) -> (r: Vec<u8>)
        ensures
            r@ == spec_states(self.maximized, self.fullscreen),
    {
        let mut v: Vec<u8> = Vec::new();
        v.push(STATE_ACTIVATED);
        v.push(0);
        v.push(0);
        v.push(0);
        if self.maximized {
            v.push(STATE_MAXIMIZED);
            v.push(0);
            v.push(0);
            v.push(0);
        }
        if self.fullscreen {
            v.push(STATE_FULLSCREEN);
            v.push(0);
            v.push(0);
            v.push(0);
        }
        assert(v@ =~= spec_states(self.maximized, self.fullscreen));
        v
    }
}

impl XdgToplevel {
    pub fn new(version: u32) -> (r: XdgToplevel)
        ensures
            !r.send_configure,
            r.version == version,
    {
        XdgToplevel { send_configure: false, version }
    }

    /// The configure event that tells the window its state: the size asked
    /// for (or zero) adjusted to the surface's window geometry.
    pub fn configure(&self, surface: &WlSurface, data: &DWayToplevel) -> (r: ToplevelConfigure)
        requires
            surface.toplevel_size_fits(or_zero(data.size)),
        ensures
            r == spec_configure(*surface, *data, self.version),
    {
        let size = match data.size {
            Some(s) => s,
            None => IVec2::zero(),
        };
        let size = surface.calculate_toplevel_size(size);
        ToplevelConfigure {
            width: size.x,
            height: size.y,
            maximized: data.max,
            fullscreen: data.fullscreen,
            bounds: self.version >= EVT_CONFIGURE_BOUNDS_SINCE,
        }
    }
}

/// A request to an `xdg_toplevel`. `edges` of a resize is the raw protocol
/// value.
pub enum ToplevelRequest {
    Destroy,
    SetParent { parent: Option<Entity> },
    SetTitle { title: String },
    SetAppId { app_id: String },
    ShowWindowMenu { seat: Entity, serial: u32, x: i32, y: i32 },
    Move { seat: Entity, serial: u32 },
    Resize { seat: Entity, serial: u32, edges: u32 },
    SetMaxSize { width: i32, height: i32 },
    SetMinSize { width: i32, height: i32 },
    SetMaximized,
    UnsetMaximized,
    SetFullscreen,
    UnsetFullscreen,
    SetMinimized,
}

/// What remains to be done after a toplevel request.
pub enum ToplevelEffect {
    Nothing,
    /// The window is gone: announce it and destroy the object.
    Destroyed,
    /// Make the surface a child of `parent`.
    SetParent(Option<Entity>),
    /// The title changed: rename the entity.
    TitleChanged,
    /// The application id changed: announce it.
    AppIdChanged { entity: Entity, app_id: String },
    /// The client asked for the window menu, which is not offered.
    WindowMenuRequested,
    /// Begin a move or resize.
    StartGrab(StartGrab),
}

/// The edges of a protocol `resize_edge` value; `none` and unknown values
/// give none.
pub open spec fn spec_resize_edges(edges: u32) -> Option<ResizeEdges> {
    if edges == 1 || edges == 2 || edges == 4 || edges == 5 || edges == 6 || edges == 8 || edges
        == 9 || edges == 10 {
        Some(ResizeEdges { bits: edges })
    } else {
        None
    }
}

/// Reads a protocol `resize_edge` value.
pub fn resize_edges(edges: u32) -> (r: Option<ResizeEdges>)
    ensures
        r == spec_resize_edges(edges),
{
    if edges == 1 || edges == 2 || edges == 4 || edges == 5 || edges == 6 || edges == 8 || edges
        == 9 || edges == 10 {
        Some(ResizeEdges { bits: edges })
    } else {
        None
    }
}

impl DWayToplevel {
    /// The view of the title.
    pub open spec fn title_view(&self) -> Option<Seq<char>> {
        match self.title {
            Some(t) => Some(t@),
            None => None,
        }
    }

    /// The view of the application id.
    pub open spec fn app_id_view(&self) -> Option<Seq<char>> {
        match self.app_id {
            Some(t) => Some(t@),
            None => None,
        }
    }

    /// Handles a request to the toplevel of `surface`. `pinned` tells whether
    /// the window is pinned; `mouse_pos` and `geometry` are the pointer
    /// position over the surface and its geometry.
    pub fn handle_request(
        &mut self,
        surface: Entity,
        pinned: bool,
        mouse_pos: IVec2,
        geometry: IRect,
        req: ToplevelRequest,
    ) -> (r: ToplevelEffect)
        ensures
            match req {
                ToplevelRequest::Destroy => r is Destroyed,
                ToplevelRequest::SetParent { parent } => r matches ToplevelEffect::SetParent(p)
                    && p == parent,
                ToplevelRequest::SetTitle { title } => r is TitleChanged && final(self).title_view()
                    == Some(title@),
                ToplevelRequest::SetAppId { app_id } => (r matches ToplevelEffect::AppIdChanged {
                    entity,
                    app_id: a,
                } && entity == surface && a@ == app_id@) && final(self).app_id_view() == Some(
                    app_id@,
                ),
                ToplevelRequest::ShowWindowMenu { .. } => r is WindowMenuRequested,
                ToplevelRequest::Move { seat, serial } => if pinned {
                    r is Nothing
                } else {
                    r matches ToplevelEffect::StartGrab(g) && g == StartGrab::Move {
                        mouse_pos,
                        seat,
                        serial: Some(serial),
                        surface,
                        geometry,
                    }
                },
                ToplevelRequest::Resize { seat, edges, .. } => if pinned || spec_resize_edges(
                    edges,
                ) is None {
                    r is Nothing
                } else {
                    r matches ToplevelEffect::StartGrab(g) && g == StartGrab::Resizing {
                        seat,
                        serial: None,
                        edges: spec_resize_edges(edges)->0,
                        geometry,
                        surface,
                    }
                },
                _ => r is Nothing,
            },
            final(self).max == match req {
                ToplevelRequest::SetMaximized => true,
                ToplevelRequest::UnsetMaximized => false,
                _ => old(self).max,
            },
            final(self).fullscreen == match req {
                ToplevelRequest::SetFullscreen => true,
                ToplevelRequest::UnsetFullscreen => false,
                _ => old(self).fullscreen,
            },
            final(self).min == match req {
                ToplevelRequest::SetMinimized => true,
                _ => old(self).min,
            },
            final(self).max_size == match req {
                ToplevelRequest::SetMaxSize { width, height } => Some(
                    IVec2 { x: width, y: height },
                ),
                _ => old(self).max_size,
            },
            final(self).min_size == match req {
                ToplevelRequest::SetMinSize { width, height } => Some(
                    IVec2 { x: width, y: height },
                ),
                _ => old(self).min_size,
            },
            !(req is SetTitle) ==> final(self).title == old(self).title,
            !(req is SetAppId) ==> final(self).app_id == old(self).app_id,
            final(self).decorated == old(self).decorated,
            final(self).size == old(self).size,
    {
        match req {
            ToplevelRequest::Destroy => ToplevelEffect::Destroyed,
            ToplevelRequest::SetParent { parent } => ToplevelEffect::SetParent(parent),
            ToplevelRequest::SetTitle { title } => {
                self.title = Some(title);
                ToplevelEffect::TitleChanged
            },
            ToplevelRequest::SetAppId { app_id } => {
                self.app_id = Some(app_id.clone());
                ToplevelEffect::AppIdChanged { entity: surface, app_id }
            },
            ToplevelRequest::ShowWindowMenu { .. } => ToplevelEffect::WindowMenuRequested,
            ToplevelRequest::Move { seat, serial } => {
                if pinned {
                    return ToplevelEffect::Nothing;
                }
                ToplevelEffect::StartGrab(
                    StartGrab::Move { mouse_pos, seat, serial: Some(serial), surface, geometry },
                )
            },
            ToplevelRequest::Resize { seat, serial: _, edges } => {
                if pinned {
                    return ToplevelEffect::Nothing;
                }
                match resize_edges(edges) {
                    Some(edges) => ToplevelEffect::StartGrab(
                        StartGrab::Resizing { seat, serial: None, edges, geometry, surface },
                    ),
                    None => ToplevelEffect::Nothing,
                }
            },
            ToplevelRequest::SetMaxSize { width, height } => {
                self.max_size = Some(IVec2::new(width, height));
                ToplevelEffect::Nothing
            },
            ToplevelRequest::SetMinSize { width, height } => {
                self.min_size = Some(IVec2::new(width, height));
                ToplevelEffect::Nothing
            },
            ToplevelRequest::SetMaximized => {
                self.max = true;
                ToplevelEffect::Nothing
            },
            ToplevelRequest::UnsetMaximized => {
                self.max = false;
                ToplevelEffect::Nothing
            },
            ToplevelRequest::SetFullscreen => {
                self.fullscreen = true;
                ToplevelEffect::Nothing
            },
            ToplevelRequest::UnsetFullscreen => {
                self.fullscreen = false;
                ToplevelEffect::Nothing
            },
            ToplevelRequest::SetMinimized => {
                self.min = true;
                ToplevelEffect::Nothing
            },
        }
    }
}

/// Sends a new configure when the window's geometry changed to a size other
/// than the one it was last told: the size is recorded and the configure
/// given back.
pub fn update_window(
    toplevel: &XdgToplevel,
    wl_surface: &WlSurface,
    data: &mut DWayToplevel,
    geometry: IRect,
    geometry_changed: bool,
) -> (r: Option<ToplevelConfigure>)
    requires
        geometry.size_fits(),
        wl_surface.toplevel_size_fits(
            IVec2 { x: geometry.spec_width() as i32, y: geometry.spec_height() as i32 },
        ),
    ensures
        ({
            let size = IVec2 { x: geometry.spec_width() as i32, y: geometry.spec_height() as i32 };
            if geometry_changed && old(data).size != Some(size) {
                &&& final(data).size == Some(size)
                &&& r == Some(spec_configure(*wl_surface, *final(data), toplevel.version))
            } else {
                &&& final(data).size == old(data).size
                &&& r is None
            }
        }),
        final(data).max == old(data).max,
        final(data).fullscreen == old(data).fullscreen,
        final(data).title == old(data).title,
{
    let size = geometry.size();
    let differs = match data.size {
        Some(s) => s != size,
        None => true,
    };
    if geometry_changed && differs {
        data.size = Some(size);
        Some(toplevel.configure(wl_surface, data))
    } else {
        None
    }
}

/// A toplevel window as the window actions see it.
pub struct ToplevelWindow {
    pub entity: Entity,
    pub data: DWayToplevel,
    pub xdg: XdgToplevel,
    pub surface: WlSurface,
    pub geometry: IRect,
    pub global_geometry: IRect,
    pub pinned: bool,
    pub mouse_pos: IVec2,
    /// The seats of the client that owns the window.
    pub seats: Vec<Entity>,
}

/// What the window actions ask of the windows.
#[derive(Clone, Copy, PartialEq, Eq, Debug, Structural)]
pub enum ToplevelOutput {
    /// Ask the window to close, and configure its surface.
    Close { surface: Entity },
    /// Send the configure, and configure the surface.
    Configure { surface: Entity, configure: ToplevelConfigure },
    /// Begin a grab.
    Grab(StartGrab),
}

/// Moves a geometry to `rect`, keeping the offset between the local and the
/// global geometry.
pub open spec fn spec_set_geometry(geo: IRect, global: IRect, rect: IRect) -> (IRect, IRect) {
    let dx = global.min.x - geo.min.x;
    let dy = global.min.y - geo.min.y;
    (rect, irect(rect.min.x + dx, rect.min.y + dy, rect.max.x + dx, rect.max.y + dy))
}

/// The arithmetic of [`set_geometry`] stays in `i32`.
pub open spec fn set_geometry_fits(geo: IRect, global: IRect, rect: IRect) -> bool {
    let dx = global.min.x - geo.min.x;
    let dy = global.min.y - geo.min.y;
    &&& fits_i32(dx)
    &&& fits_i32(dy)
    &&& fits_i32(rect.min.x + dx)
    &&& fits_i32(rect.min.y + dy)
    &&& fits_i32(rect.max.x + dx)
    &&& fits_i32(rect.max.y + dy)
}

/// Moves a geometry (and its global geometry along with it) to `rect`.
pub fn set_geometry(geo: &mut IRect, global: &mut IRect, rect: IRect)
    requires
        set_geometry_fits(*old(geo), *old(global), rect),
    ensures
        (*final(geo), *final(global)) == spec_set_geometry(*old(geo), *old(global), rect),
{
    let dx = global.min.x - geo.min.x;
    let dy = global.min.y - geo.min.y;
    *global = IRect {
        min: IVec2 { x: rect.min.x + dx, y: rect.min.y + dy },
        max: IVec2 { x: rect.max.x + dx, y: rect.max.y + dy },
    };
    *geo = rect;
}

/// `i` is the first window of `ws` whose entity is `e`.
pub open spec fn is_first_window(ws: Seq<ToplevelWindow>, e: Entity, i: int) -> bool {
    &&& 0 <= i < ws.len()
    &&& ws[i].entity == e
    &&& forall|j: int| 0 <= j < i ==> ws[j].entity != e
}

/// Some window of `ws` has the entity `e`.
pub open spec fn has_window(ws: Seq<ToplevelWindow>, e: Entity) -> bool {
    exists|i: int| is_first_window(ws, e, i)
}

/// The index of the window an action addresses.
pub open spec fn window_of(ws: Seq<ToplevelWindow>, e: Entity) -> int {
    choose|i: int| is_first_window(ws, e, i)
}

/// A window with a new state, and the configure it is then sent.
pub open spec fn reconfigured(w: ToplevelWindow, data: DWayToplevel) -> (ToplevelWindow, Seq<
    ToplevelOutput,
>) {
    let w2 = ToplevelWindow { data, ..w };
    (
        w2,
        seq![
            ToplevelOutput::Configure {
                surface: w.entity,
                configure: spec_configure(w.surface, data, w.xdg.version),
            },
        ],
    )
}

/// The grabs a move or resize of window `w` begins, one per seat.
pub open spec fn grabs_of(w: ToplevelWindow, resize: Option<ResizeEdges>) -> Seq<ToplevelOutput> {
    w.seats@.map_values(
        |s: Entity|
            ToplevelOutput::Grab(
                match resize {
                    Some(edges) => StartGrab::Resizing {
                        surface: w.entity,
                        seat: s,
                        serial: None,
                        edges,
                        geometry: w.geometry,
                    },
                    None => StartGrab::Move {
                        surface: w.entity,
                        seat: s,
                        serial: None,
                        mouse_pos: w.mouse_pos,
                        geometry: w.geometry,
                    },
                },
            ),
    )
}

/// One window action on the windows: the windows after it, what it asks,
/// and whether it stops the handling of the actions that follow (a move or
/// resize of a pinned window does).
pub open spec fn action_step(ws: Seq<ToplevelWindow>, ev: WindowAction) -> (Seq<ToplevelWindow>, Seq<
    ToplevelOutput,
>, bool) {
    let e = ev.target();
    if !has_window(ws, e) {
        (ws, Seq::empty(), false)
    } else {
        let i = window_of(ws, e);
        let w = ws[i];
        match ev {
            WindowAction::Close(_) => (ws, seq![ToplevelOutput::Close { surface: e }], false),
            WindowAction::Maximize(_) | WindowAction::UnMaximize(_) => {
                let (w2, out) = reconfigured(w, DWayToplevel { max: true, ..w.data });
                (ws.update(i, w2), out, false)
            },
            WindowAction::Fullscreen(_) => {
                let (w2, out) = reconfigured(w, DWayToplevel { fullscreen: true, ..w.data });
                (ws.update(i, w2), out, false)
            },
            WindowAction::UnFullscreen(_) => {
                let (w2, out) = reconfigured(w, DWayToplevel { fullscreen: false, ..w.data });
                (ws.update(i, w2), out, false)
            },
            WindowAction::Minimize(_) | WindowAction::UnMinimize(_) => (ws, Seq::empty(), false),
            WindowAction::SetRect(_, rect) => {
                let (g, gg) = spec_set_geometry(w.geometry, w.global_geometry, rect);
                let size = IVec2 { x: rect.spec_width() as i32, y: rect.spec_height() as i32 };
                let w1 = ToplevelWindow { geometry: g, global_geometry: gg, ..w };
                let (w2, out) = reconfigured(w1, DWayToplevel { size: Some(size), ..w.data });
                (ws.update(i, w2), out, false)
            },
            WindowAction::RequestMove(_) => if w.pinned {
                (ws, Seq::empty(), true)
            } else {
                (ws, grabs_of(w, None), false)
            },
            WindowAction::RequestResize(_, edges) => if w.pinned {
                (ws, Seq::empty(), true)
            } else {
                (ws, grabs_of(w, Some(edges)), false)
            },
        }
    }
}

/// The arithmetic of one window action stays in `i32`.
pub open spec fn action_fits(ws: Seq<ToplevelWindow>, ev: WindowAction) -> bool {
    let e = ev.target();
    if !has_window(ws, e) {
        true
    } else {
        let w = ws[window_of(ws, e)];
        match ev {
            WindowAction::Maximize(_) | WindowAction::UnMaximize(_) | WindowAction::Fullscreen(_)
            | WindowAction::UnFullscreen(_) => w.surface.toplevel_size_fits(or_zero(w.data.size)),
            WindowAction::SetRect(_, rect) => {
                &&& rect.size_fits()
                &&& set_geometry_fits(w.geometry, w.global_geometry, rect)
                &&& w.surface.toplevel_size_fits(
                    IVec2 { x: rect.spec_width() as i32, y: rect.spec_height() as i32 },
                )
            },
            _ => true,
        }
    }
}

/// The windows, the requests, and whether handling has stopped, after a
/// sequence of window actions.
pub open spec fn run_actions(ws: Seq<ToplevelWindow>, evs: Seq<WindowAction>) -> (Seq<
    ToplevelWindow,
>, Seq<ToplevelOutput>, bool)
    decreases evs.len(),
{
    if evs.len() == 0 {
        (ws, Seq::empty(), false)
    } else {
        let (ws1, out1, stop1) = run_actions(ws, evs.drop_last());
        if stop1 {
            (ws1, out1, true)
        } else {
            let (ws2, out2, stop2) = action_step(ws1, evs.last());
            (ws2, out1 + out2, stop2)
        }
    }
}

/// Every window action that is handled keeps its arithmetic in `i32`.
pub open spec fn actions_fit(ws: Seq<ToplevelWindow>, evs: Seq<WindowAction>) -> bool
    decreases evs.len(),
{
    if evs.len() == 0 {
        true
    } else {
        let (ws1, _, stop1) = run_actions(ws, evs.drop_last());
        actions_fit(ws, evs.drop_last()) && (stop1 || action_fits(ws1, evs.last()))
    }
}

/// A fullscreen action makes the addressed window fullscreen and an
/// unfullscreen action takes it out of fullscreen; a maximize or an
/// unmaximize leaves it maximized. The window is sent exactly one configure,
/// which carries its new fullscreen and maximized states; the window keeps
/// its other state, and handling goes on.
pub proof fn lemma_state_actions_reconfigure(
    ws: Seq<ToplevelWindow>,
    evs: Seq<WindowAction>,
    ev: WindowAction,
    i: int,
)
    requires
        ev is Fullscreen || ev is UnFullscreen || ev is Maximize || ev is UnMaximize,
        !run_actions(ws, evs).2,
        is_first_window(run_actions(ws, evs).0, ev.target(), i),
    ensures
        ({
            let (ws1, out1, _) = run_actions(ws, evs);
            let (ws2, out2, stop) = run_actions(ws, evs.push(ev));
            let old_data = ws1[i].data;
            let fullscreen = if ev is Fullscreen {
                true
            } else if ev is UnFullscreen {
                false
            } else {
                old_data.fullscreen
            };
            let max = if ev is Maximize || ev is UnMaximize {
                true
            } else {
                old_data.max
            };
            &&& !stop
            &&& ws2.len() == ws1.len()
            &&& ws2[i].data.fullscreen == fullscreen
            &&& ws2[i].data.max == max
            &&& ws2[i].data.min == old_data.min
            &&& ws2[i].data.size == old_data.size
            &&& ws2[i].entity == ws1[i].entity
            &&& forall|j: int| 0 <= j < ws1.len() && j != i ==> ws2[j] == ws1[j]
            &&& out2.len() == out1.len() + 1
            &&& out2.subrange(0, out1.len() as int) == out1
            &&& out2.last() matches ToplevelOutput::Configure { surface, configure } && surface
                == ev.target() && configure.fullscreen == fullscreen && configure.maximized == max
        }),
{
    let (ws1, out1, _) = run_actions(ws, evs);
    assert(evs.push(ev).drop_last() =~= evs);
    assert(evs.push(ev).last() == ev);
    let e = ev.target();
    let c = choose|j: int| is_first_window(ws1, e, j);
    assert(c == i) by {
        if c < i {
            assert(ws1[c].entity != e);
        } else if i < c {
            assert(ws1[i].entity != e);
        }
    }
    let out2 = run_actions(ws, evs.push(ev)).1;
    assert(out2.subrange(0, out1.len() as int) =~= out1);
}

/// A set-rect action moves the addressed window to the rectangle, moves its
/// global geometry by the same amount (keeping the offset between the two)
/// and to the same size, asks for the rectangle's size, and sends one
/// configure; a close action changes no window and asks that window to
/// close. Handling goes on after either.
pub proof fn lemma_set_rect_and_close(
    ws: Seq<ToplevelWindow>,
    evs: Seq<WindowAction>,
    ev: WindowAction,
    i: int,
)
    requires
        ev is SetRect || ev is Close,
        !run_actions(ws, evs).2,
        is_first_window(run_actions(ws, evs).0, ev.target(), i),
        actions_fit(ws, evs.push(ev)),
    ensures
        ({
            let (ws1, out1, _) = run_actions(ws, evs);
            let (ws2, out2, stop) = run_actions(ws, evs.push(ev));
            &&& !stop
            &&& out2.len() == out1.len() + 1
            &&& out2.subrange(0, out1.len() as int) == out1
            &&& match ev {
                WindowAction::SetRect(_, rect) => {
                    &&& ws2.len() == ws1.len()
                    &&& ws2[i].geometry == rect
                    &&& ws2[i].global_geometry.min.x - rect.min.x == ws1[i].global_geometry.min.x
                        - ws1[i].geometry.min.x
                    &&& ws2[i].global_geometry.min.y - rect.min.y == ws1[i].global_geometry.min.y
                        - ws1[i].geometry.min.y
                    &&& ws2[i].global_geometry.spec_width() == rect.spec_width()
                    &&& ws2[i].global_geometry.spec_height() == rect.spec_height()
                    &&& ws2[i].data.size == Some(
                        IVec2 { x: rect.spec_width() as i32, y: rect.spec_height() as i32 },
                    )
                    &&& forall|j: int| 0 <= j < ws1.len() && j != i ==> ws2[j] == ws1[j]
                    &&& out2.last() matches ToplevelOutput::Configure { surface, .. } && surface
                        == ev.target()
                },
                _ => ws2 == ws1 && out2.last() == ToplevelOutput::Close { surface: ev.target() },
            }
        }),
{
    let (ws1, out1, _) = run_actions(ws, evs);
    assert(evs.push(ev).drop_last() =~= evs);
    assert(evs.push(ev).last() == ev);
    let e = ev.target();
    let c = choose|j: int| is_first_window(ws1, e, j);
    assert(c == i) by {
        if c < i {
            assert(ws1[c].entity != e);
        } else if i < c {
            assert(ws1[i].entity != e);
        }
    }
    let out2 = run_actions(ws, evs.push(ev)).1;
    assert(out2.subrange(0, out1.len() as int) =~= out1);
    assert(!run_actions(ws, evs.push(ev).drop_last()).2);
    assert(action_fits(ws1, ev));
}

/// Once handling has stopped, further actions change nothing.
proof fn lemma_run_stays_stopped(ws: Seq<ToplevelWindow>, evs: Seq<WindowAction>, i: int)
    requires
        0 <= i <= evs.len(),
        run_actions(ws, evs.take(i)).2,
    ensures
        run_actions(ws, evs) == run_actions(ws, evs.take(i)),
    decreases evs.len() - i,
{
    if i < evs.len() {
        assert(evs.take(i + 1).drop_last() == evs.take(i));
        lemma_run_stays_stopped(ws, evs, i + 1);
    } else {
        assert(evs.take(i) == evs);
    }
}

/// The first window with entity `e`, if any.
fn find_window(ws: &Vec<ToplevelWindow>, e: Entity) -> (r: Option<usize>)
    ensures
        match r {
            Some(i) => is_first_window(ws@, e, i as int),
            None => !has_window(ws@, e),
        },
{
    let mut i: usize = 0;
    while i < ws.len()
        invariant
            i <= ws.len(),
            forall|j: int| 0 <= j < i ==> ws@[j].entity != e,
        decreases ws.len() - i,
    {
        if ws[i].entity == e {
            return Some(i);
        }
        i = i + 1;
    }
    assert forall|k: int| !is_first_window(ws@, e, k) by {}
    None
}

/// Reconfigures window `i` after its state changed.
fn configure_window(w: &ToplevelWindow, out: &mut Vec<ToplevelOutput>)
    requires
        w.surface.toplevel_size_fits(or_zero(w.data.size)),
    ensures
        final(out)@ == old(out)@ + seq![
            ToplevelOutput::Configure {
                surface: w.entity,
                configure: spec_configure(w.surface, w.data, w.xdg.version),
            },
        ],
{
    let c = w.xdg.configure(&w.surface, &w.data);
    out.push(ToplevelOutput::Configure { surface: w.entity, configure: c });
}

/// Pushes the grabs of a move or resize of `w`, one per seat.
fn push_grabs(w: &ToplevelWindow, resize: Option<ResizeEdges>, out: &mut Vec<ToplevelOutput>)
    ensures
        final(out)@ == old(out)@ + grabs_of(*w, resize),
{
    let mut k: usize = 0;
    while k < w.seats.len()
        invariant
            k <= w.seats.len(),
            out@ == old(out)@ + grabs_of(*w, resize).take(k as int),
        decreases w.seats.len() - k,
    {
        let seat = w.seats[k];
        let g = match resize {
            Some(edges) => StartGrab::Resizing {
                surface: w.entity,
                seat,
                serial: None,
                edges,
                geometry: w.geometry,
            },
            None => StartGrab::Move {
                surface: w.entity,
                seat,
                serial: None,
                mouse_pos: w.mouse_pos,
                geometry: w.geometry,
            },
        };
        out.push(ToplevelOutput::Grab(g));
        assert(grabs_of(*w, resize).take(k + 1) == grabs_of(*w, resize).take(k as int).push(
            ToplevelOutput::Grab(g),
        ));
        k = k + 1;
    }
    assert(grabs_of(*w, resize).take(w.seats.len() as int) == grabs_of(*w, resize));
}

/// Applies a window action that changes the state of window `idx`, the
/// window it addresses, and configures the window.
#[verifier::rlimit(40)]
fn apply_state_action(
    windows: &mut Vec<ToplevelWindow>,
    idx: usize,
    ev: WindowAction,
    out: &mut Vec<ToplevelOutput>,
)
    requires
        has_window(old(windows)@, ev.target()),
        window_of(old(windows)@, ev.target()) == idx as int,
        idx < old(windows)@.len(),
        action_fits(old(windows)@, ev),
        ev is Maximize || ev is UnMaximize || ev is Fullscreen || ev is UnFullscreen || ev is SetRect,
    ensures
        ({
            let (ws, o, s) = action_step(old(windows)@, ev);
            &&& final(windows)@ == ws
            &&& final(out)@ == old(out)@ + o
            &&& !s
        }),
{
    let ghost ws0 = windows@;
    let mut w = windows.remove(idx);
    proof {
        assert(w == ws0[idx as int]);
    }
    match ev {
        WindowAction::Fullscreen(_) => {
            w.data.fullscreen = true;
        },
        WindowAction::UnFullscreen(_) => {
            w.data.fullscreen = false;
        },
        WindowAction::SetRect(_, rect) => {
            set_geometry(&mut w.geometry, &mut w.global_geometry, rect);
            w.data.size = Some(rect.size());
        },
        _ => {
            w.data.max = true;
        },
    }
    configure_window(&w, out);
    windows.insert(idx, w);
    assert(windows@ =~= ws0.update(idx as int, w));
}

/// Applies a move or resize of window `idx`, the window it addresses; gives
/// back whether handling stops (it does for a pinned window).
fn apply_grab_action(
    windows: &Vec<ToplevelWindow>,
    idx: usize,
    ev: WindowAction,
    out: &mut Vec<ToplevelOutput>,
) -> (stop: bool)
    requires
        has_window(windows@, ev.target()),
        window_of(windows@, ev.target()) == idx as int,
        idx < windows@.len(),
        ev is RequestMove || ev is RequestResize,
    ensures
        ({
            let (ws, o, s) = action_step(windows@, ev);
            &&& windows@ == ws
            &&& final(out)@ == old(out)@ + o
            &&& stop == s
        }),
{
    if windows[idx].pinned {
        assert(out@ == old(out)@ + Seq::<ToplevelOutput>::empty());
        return true;
    }
    match ev {
        WindowAction::RequestResize(_, edges) => {
            push_grabs(&windows[idx], Some(edges), out);
        },
        _ => {
            push_grabs(&windows[idx], None, out);
        },
    }
    false
}

/// Applies one window action; gives back whether handling stops.
fn apply_action(
    windows: &mut Vec<ToplevelWindow>,
    ev: WindowAction,
    out: &mut Vec<ToplevelOutput>,
) -> (stop: bool)
    requires
        action_fits(old(windows)@, ev),
    ensures
        ({
            let (ws, o, s) = action_step(old(windows)@, ev);
            &&& final(windows)@ == ws
            &&& final(out)@ == old(out)@ + o
            &&& stop == s
        }),
{
    let e = match ev {
        WindowAction::Close(e) => e,
        WindowAction::Maximize(e) => e,
        WindowAction::UnMaximize(e) => e,
        WindowAction::Fullscreen(e) => e,
        WindowAction::UnFullscreen(e) => e,
        WindowAction::Minimize(e) => e,
        WindowAction::UnMinimize(e) => e,
        WindowAction::SetRect(e, _) => e,
        WindowAction::RequestMove(e) => e,
        WindowAction::RequestResize(e, _) => e,
    };
    let ghost ws0 = windows@;
    let idx = match find_window(windows, e) {
        None => {
            assert(out@ == old(out)@ + Seq::<ToplevelOutput>::empty());
            return false;
        },
        Some(idx) => idx,
    };
    proof {
        assert(window_of(ws0, e) == idx as int) by {
            let c = window_of(ws0, e);
            assert(is_first_window(ws0, e, c));
            if c < idx as int {
                assert(ws0[c].entity != e);
            } else if c > idx as int {
                assert(ws0[idx as int].entity != e);
            }
        }
    }
    match ev {
        WindowAction::Close(_) => {
            out.push(ToplevelOutput::Close { surface: e });
            false
        },
        WindowAction::Minimize(_) | WindowAction::UnMinimize(_) => {
            assert(out@ == old(out)@ + Seq::<ToplevelOutput>::empty());
            false
        },
        WindowAction::RequestMove(_) | WindowAction::RequestResize(_, _) => {
            apply_grab_action(windows, idx, ev, out)
        },
        _ => {
            apply_state_action(windows, idx, ev, out);
            false
        },
    }
}

/// Applies the desktop's window actions to the toplevel windows in order.
/// A move or resize of a pinned window ends the handling: the actions after
/// it are not looked at. Gives back the requests for the windows and seats.
pub fn receive_window_action_event(
    events: &Vec<WindowAction>,
    windows: &mut Vec<ToplevelWindow>,
) -> (r: Vec<ToplevelOutput>)
    requires
        actions_fit(old(windows)@, events@),
    ensures
        (final(windows)@, r@) == ({
            let (ws, out, _) = run_actions(old(windows)@, events@);
            (ws, out)
        }),
{
    let mut out: Vec<ToplevelOutput> = Vec::new();
    let mut i: usize = 0;
    while i < events.len()
        invariant
            i <= events.len(),
            actions_fit(old(windows)@, events@),
            !run_actions(old(windows)@, events@.take(i as int)).2,
            windows@ == run_actions(old(windows)@, events@.take(i as int)).0,
            out@ == run_actions(old(windows)@, events@.take(i as int)).1,
        decreases events.len() - i,
    {
        let ev = events[i];
        proof {
            assert(events@.take(i + 1).drop_last() == events@.take(i as int));
            assert(events@.take(i + 1).last() == ev);
            lemma_actions_fit_prefix(old(windows)@, events@, i + 1);
        }
        let stop = apply_action(windows, ev, &mut out);
        if stop {
            proof {
                lemma_run_stays_stopped(old(windows)@, events@, i + 1);
            }
            return out;
        }
        i = i + 1;
    }
    assert(events@.take(events.len() as int) == events@);
    out
}

/// The fit of a prefix of the actions follows from the fit of all of them.
proof fn lemma_actions_fit_prefix(ws: Seq<ToplevelWindow>, evs: Seq<WindowAction>, i: int)
    requires
        0 <= i <= evs.len(),
        actions_fit(ws, evs),
    ensures
        actions_fit(ws, evs.take(i)),
    decreases evs.len() - i,
{
    if i < evs.len() {
        lemma_actions_fit_prefix(ws, evs, i + 1);
        assert(evs.take(i + 1).drop_last() == evs.take(i));
    } else {
        assert(evs.take(i) == evs);
    }
}

/// The global of `xdg_toplevel` objects.
pub struct ToplevelDelegate(pub GlobalId);

/// The plugin for toplevel windows.
pub struct XdgToplevelPlugin;

} // verus!
