//! How the window manager answers the events of an Xwayland display.
//!
//! Each event is decided here from the display's record alone: the record's
//! window map is updated, and what remains to be done in the world or on the
//! X11 connection is handed back as an [`X11Effect`].
use vstd::prelude::*;
use crate::entity::Entity;
use crate::input::{Grab, ResizeEdges, EDGE_BUTTOM, EDGE_LEFT, EDGE_RIGHT, EDGE_TOP};
use crate::util::rect::{fits_i32, IRect, IVec2};
use crate::x11::display::{Atoms, XWaylandDisplay, XWaylandError};
use crate::x11::systems::{requests_view, XRequest, XRequestView};
use crate::x11::window::{property_of_atom, PropertyKind, XWindow};
use crate::x11::{DWayXWaylandReady, DWayXWaylandStoped};

verus! {

broadcast use vstd::std_specs::hash::group_hash_axioms;

/// The bit of a configure request's value mask that carries a width.
pub const CONFIG_WINDOW_WIDTH: u16 = 4;
/// The bit of a configure request's value mask that carries a height.
pub const CONFIG_WINDOW_HEIGHT: u16 = 8;

/// An event of the X11 connection, with the fields the window manager reads.
#[derive(Clone, Copy, PartialEq, Eq, Debug)]
pub enum XEvent {
    Error,
    ClientMessage { window: u32, type_: u32, data: (u32, u32, u32, u32, u32) },
    ConfigureNotify { window: u32, x: i16, y: i16 },
    ConfigureRequest { window: u32, value_mask: u16, width: u16, height: u16 },
    /// A window was created; `geometry` is the window's geometry as the
    /// server reports it, read when the event is taken in.
    CreateNotify { window: u32, parent: u32, override_redirect: bool, geometry: IRect },
    DestroyNotify { window: u32 },
    FocusIn,
    FocusOut,
    MappingNotify,
    MapNotify { window: u32 },
    MapRequest { window: u32 },
    PropertyNotify { window: u32, atom: u32 },
    UnmapNotify { window: u32 },
    /// Any event kind the window manager has no handling for.
    Unsupported,
}

/// The events that the window manager cannot handle: event kinds it has no
/// handling for, and the `WM_CHANGE_STATE` client message.
pub open spec fn unhandled_event(event: XEvent, atoms: Atoms) -> bool {
    match event {
        XEvent::Unsupported => true,
        XEvent::ClientMessage { type_, .. } => type_ != atoms.wl_surface_id && type_
            == atoms.wm_change_state,
        _ => false,
    }
}

/// What a `_NET_WM_MOVERESIZE` client message asks for.
#[derive(Clone, Copy, PartialEq, Eq, Debug, Structural)]
pub enum MoveResizeAction {
    Resize(ResizeEdges),
    Move,
    /// Keyboard moves and resizes, and unknown directions.
    Ignore,
}

/// The edges of a `_NET_WM_MOVERESIZE` direction from 0 (top left) clockwise
/// to 7 (left).
pub open spec fn moveresize_edges(direction: u32) -> u32
    recommends
        direction <= 7,
{
    if direction == 0 {
        EDGE_TOP | EDGE_LEFT
    } else if direction == 1 {
        EDGE_TOP
    } else if direction == 2 {
        EDGE_TOP | EDGE_RIGHT
    } else if direction == 3 {
        EDGE_RIGHT
    } else if direction == 4 {
        EDGE_BUTTOM | EDGE_RIGHT
    } else if direction == 5 {
        EDGE_BUTTOM
    } else if direction == 6 {
        EDGE_BUTTOM | EDGE_LEFT
    } else {
        EDGE_LEFT
    }
}

/// The action of a `_NET_WM_MOVERESIZE` direction.
pub open spec fn spec_moveresize_action(direction: u32) -> MoveResizeAction {
    if direction <= 7 {
        MoveResizeAction::Resize(ResizeEdges { bits: moveresize_edges(direction) })
    } else if direction == 8 {
        MoveResizeAction::Move
    } else {
        MoveResizeAction::Ignore
    }
}

/// Reads the direction of a `_NET_WM_MOVERESIZE` client message.
pub fn moveresize_action(direction: u32) -> (r: MoveResizeAction)
    ensures
        r == spec_moveresize_action(direction),
{
    let bits: u32 = if direction == 0 {
        EDGE_TOP | EDGE_LEFT
    } else if direction == 1 {
        EDGE_TOP
    } else if direction == 2 {
        EDGE_TOP | EDGE_RIGHT
    } else if direction == 3 {
        EDGE_RIGHT
    } else if direction == 4 {
        EDGE_BUTTOM | EDGE_RIGHT
    } else if direction == 5 {
        EDGE_BUTTOM
    } else if direction == 6 {
        EDGE_BUTTOM | EDGE_LEFT
    } else {
        EDGE_LEFT
    };
    if direction <= 7 {
        MoveResizeAction::Resize(ResizeEdges { bits })
    } else if direction == 8 {
        MoveResizeAction::Move
    } else {
        MoveResizeAction::Ignore
    }
}

/// The grab that a move or resize of `surface`, whose geometry is `rect`,
/// begins when the pointer is at `pointer` (the origin when unknown): the
/// relative position is the window's position minus the pointer's.
pub open spec fn spec_moveresize_grab(
    surface: Entity,
    rect: IRect,
    pointer: Option<IVec2>,
    action: MoveResizeAction,
) -> Option<Grab> {
    let p = match pointer {
        Some(p) => p,
        None => IVec2 { x: 0, y: 0 },
    };
    let rel = IVec2 { x: (rect.min.x - p.x) as i32, y: (rect.min.y - p.y) as i32 };
    match action {
        MoveResizeAction::Resize(edges) => Some(
            Grab::Resizing { surface, serial: 0, edges, relative: rel, origin_rect: rect },
        ),
        MoveResizeAction::Move => Some(Grab::Moving { surface, serial: 0, relative: rel }),
        MoveResizeAction::Ignore => None,
    }
}

/// The relative position of a move or resize grab fits in `i32`.
pub open spec fn moveresize_fits(rect: IRect, pointer: Option<IVec2>) -> bool {
    &&& fits_i32(rect.min.x - match pointer { Some(p) => p.x as int, None => 0 })
    &&& fits_i32(rect.min.y - match pointer { Some(p) => p.y as int, None => 0 })
}

/// The grab that a move or resize of `surface`, whose geometry is `rect`,
/// begins when the pointer is at `pointer` (the origin when unknown).
pub fn begin_moveresize_grab(
    surface: Entity,
    rect: IRect,
    pointer: Option<IVec2>,
    action: MoveResizeAction,
) -> (r: Option<Grab>)
    requires
        moveresize_fits(rect, pointer),
    ensures
        r == spec_moveresize_grab(surface, rect, pointer, action),
{
    let p = match pointer {
        Some(p) => p,
        None => IVec2::zero(),
    };
    let relative = rect.pos().sub(p);
    match action {
        MoveResizeAction::Resize(edges) => Some(
            Grab::Resizing { surface, serial: 0, edges, relative, origin_rect: rect },
        ),
        MoveResizeAction::Move => Some(Grab::Moving { surface, serial: 0, relative }),
        MoveResizeAction::Ignore => None,
    }
}

/// A `_NET_WM_MOVERESIZE` message with direction `k` begins, for a surface
/// with geometry `rect`: a resize along the `k`-th edge set (clockwise from
/// the top left corner) when `k <= 7`, a move when `k == 8`, and nothing
/// otherwise; the relative position is the window's position minus the
/// pointer's (the origin when unknown).
pub proof fn lemma_moveresize_message_grab(surface: Entity, rect: IRect, pointer: Option<IVec2>, k: u32)
    ensures
        ({
            let p = match pointer {
                Some(p) => p,
                None => IVec2 { x: 0, y: 0 },
            };
            let rel = IVec2 { x: (rect.min.x - p.x) as i32, y: (rect.min.y - p.y) as i32 };
            spec_moveresize_grab(surface, rect, pointer, spec_moveresize_action(k)) == if k <= 7 {
                Some(
                    Grab::Resizing {
                        surface,
                        serial: 0,
                        edges: ResizeEdges { bits: moveresize_edges(k) },
                        relative: rel,
                        origin_rect: rect,
                    },
                )
            } else if k == 8 {
                Some(Grab::Moving { surface, serial: 0, relative: rel })
            } else {
                None
            }
        }),
{
}

/// Carries out a `_NET_WM_MOVERESIZE` message on the surface that the X11
/// window shows (`surface`; none while the window has no surface), whose
/// geometry is `geometry`. When the message asks for a move or a resize, the
/// display's seat takes the grab that [`begin_moveresize_grab`] builds from the
/// pointer position `pointer`, and `seat_enabled` (whether the seat passes
/// pointer input on to clients) becomes false. A window without surface, or a
/// direction that asks for neither, leaves both as they were; a surface
/// without geometry is an error and leaves them too.
pub fn apply_moveresize(
    surface: Option<Entity>,
    geometry: Option<IRect>,
    pointer: Option<IVec2>,
    action: MoveResizeAction,
    grab: &mut Option<Grab>,
    seat_enabled: &mut bool,
) -> (r: Result<(), XWaylandError>)
    requires
        geometry matches Some(rect) ==> (action is Ignore || moveresize_fits(rect, pointer)),
    ensures
        match (surface, geometry) {
            (None, _) => r is Ok && *final(grab) == *old(grab) && *final(seat_enabled)
                == *old(seat_enabled),
            (Some(s), None) => r matches Err(XWaylandError::InvalidWindowEntity(e)) && e == s
                && *final(grab) == *old(grab) && *final(seat_enabled) == *old(seat_enabled),
            (Some(s), Some(rect)) => r is Ok && match spec_moveresize_grab(s, rect, pointer, action) {
                Some(g) => *final(grab) == Some(g) && !*final(seat_enabled),
                None => *final(grab) == *old(grab) && *final(seat_enabled) == *old(seat_enabled),
            },
        },
{
    let s = match surface {
        Some(s) => s,
        None => {
            return Ok(());
        },
    };
    let rect = match geometry {
        Some(rect) => rect,
        None => {
            return Err(XWaylandError::InvalidWindowEntity(s));
        },
    };
    match action {
        MoveResizeAction::Ignore => {},
        _ => {
            *grab = begin_moveresize_grab(s, rect, pointer, action);
            *seat_enabled = false;
        },
    }
    Ok(())
}

/// The geometry a configure request leaves a window with: a requested width
/// sets the width, and a requested height sets the width as well.
pub open spec fn spec_configure_request_geometry(
    rect: IRect,
    value_mask: u16,
    width: u16,
    height: u16,
) -> IRect {
    let after_w = if value_mask & CONFIG_WINDOW_WIDTH != 0 {
        IRect { max: IVec2 { x: (rect.min.x + width) as i32, ..rect.max }, ..rect }
    } else {
        rect
    };
    if value_mask & CONFIG_WINDOW_HEIGHT != 0 {
        IRect { max: IVec2 { x: (rect.min.x + height) as i32, ..after_w.max }, ..after_w }
    } else {
        after_w
    }
}

/// Applies a configure request to the geometry `rect` of a window.
pub fn configure_request_geometry(rect: IRect, value_mask: u16, width: u16, height: u16) -> (r:
    IRect)
    requires
        fits_i32(rect.min.x + width),
        fits_i32(rect.min.x + height),
    ensures
        r == spec_configure_request_geometry(rect, value_mask, width, height),
{
    let mut geo = rect;
    if value_mask & CONFIG_WINDOW_WIDTH != 0 {
        geo.set_width(width as i32);
    }
    if value_mask & CONFIG_WINDOW_HEIGHT != 0 {
        geo.set_width(height as i32);
    }
    geo
}

/// What remains to be done after an event has been decided.
#[derive(Clone, Copy, PartialEq, Eq, Debug, Structural)]
pub enum X11Effect {
    /// Nothing more.
    Nothing,
    /// Report the X11 error event.
    ReportError,
    /// A client message of a type the window manager does not handle.
    UnhandledClientMessage { type_: u32 },
    /// Record `surface_id` as the Wayland surface of the window and mark it mapped.
    AttachSurface { xwindow: Entity, surface_id: u32 },
    /// Begin the move or resize that a `_NET_WM_MOVERESIZE` message asks for.
    MoveResize { xwindow: Entity, action: MoveResizeAction },
    /// Move the window (and its surface) to `(x, y)`.
    SetPosition { xwindow: Entity, x: i32, y: i32 },
    /// Apply the configure request to the window's geometry and send it back.
    Configure { xwindow: Entity, window: u32, value_mask: u16, width: u16, height: u16 },
    /// Give `entity` a new window record. `parent` is the entity to attach it
    /// to (none for the window manager's own window, which lives on the
    /// display); `parent_found` is false when the parent window was unknown
    /// and the display took its place. `geometry` is the window's geometry.
    CreateWindow {
        entity: Entity,
        window: u32,
        geometry: IRect,
        parent_window: u32,
        override_redirect: bool,
        is_toplevel: bool,
        parent: Option<Entity>,
        parent_found: bool,
    },
    /// Remove the entity and its children.
    Despawn { entity: Entity },
    /// Add the window to its parent's client lists.
    Mapped { xwindow: Entity, window: u32 },
    /// Create a frame for the window and map it.
    MapRequested { xwindow: Entity, window: u32 },
    /// Read the changed property again; `None` when the atom names no
    /// property the window manager keeps, and then nothing is read.
    UpdateProperty { xwindow: Entity, property: Option<PropertyKind> },
    /// The window is no longer mapped.
    Unmapped { xwindow: Entity },
}

/// An error of event handling.
#[derive(Debug)]
pub enum X11EventError {
    /// The X11 connection is gone.
    ConnectionDropped,
    XWayland(XWaylandError),
}

/// The outcome of an event when nothing fails, or the window that is
/// missing.
pub enum EventOutcome {
    Done(X11Effect),
    MissingWindow(u32),
    ConnectionDropped,
}

/// `r` is the result that `o` describes.
pub open spec fn result_is(r: Result<X11Effect, X11EventError>, o: EventOutcome) -> bool {
    match o {
        EventOutcome::Done(e) => r matches Ok(e2) && e2 == e,
        EventOutcome::MissingWindow(w) => r matches Err(
            X11EventError::XWayland(XWaylandError::WindowNotExists(w2)),
        ) && w2 == w,
        EventOutcome::ConnectionDropped => r matches Err(X11EventError::ConnectionDropped),
    }
}

/// The outcome of a window-addressed event: `effect` when the window is
/// known, the missing window otherwise.
pub open spec fn on_window(
    windows: Map<u32, Entity>,
    window: u32,
    effect: spec_fn(Entity) -> X11Effect,
) -> EventOutcome {
    if windows.contains_key(window) {
        EventOutcome::Done(effect(windows[window]))
    } else {
        EventOutcome::MissingWindow(window)
    }
}

/// The entity that a created window is given.
pub open spec fn created_entity(
    wm_window: Option<u32>,
    display_entity: Entity,
    fresh_entity: Entity,
    window: u32,
) -> Entity {
    if wm_window == Some(window) {
        display_entity
    } else {
        fresh_entity
    }
}

/// The outcome of an event, from the display's windows, screens and own
/// window before it.
pub open spec fn spec_event_outcome(
    windows: Map<u32, Entity>,
    screens: Set<u32>,
    wm_window: Option<u32>,
    display_entity: Entity,
    atoms: Atoms,
    connected: bool,
    fresh_entity: Entity,
    event: XEvent,
) -> EventOutcome {
    if !connected {
        EventOutcome::ConnectionDropped
    } else {
        match event {
            XEvent::Error => EventOutcome::Done(X11Effect::ReportError),
            XEvent::ClientMessage { window, type_, data } => {
                if type_ == atoms.wl_surface_id {
                    on_window(
                        windows,
                        window,
                        |e: Entity| X11Effect::AttachSurface { xwindow: e, surface_id: data.0 },
                    )
                } else if type_ == atoms.net_wm_state {
                    EventOutcome::Done(X11Effect::Nothing)
                } else if type_ == atoms.net_wm_moveresize {
                    on_window(
                        windows,
                        window,
                        |e: Entity|
                            X11Effect::MoveResize {
                                xwindow: e,
                                action: spec_moveresize_action(data.2),
                            },
                    )
                } else {
                    EventOutcome::Done(X11Effect::UnhandledClientMessage { type_ })
                }
            },
            XEvent::ConfigureNotify { window, x, y } => {
                if windows.contains_key(window) {
                    EventOutcome::Done(
                        X11Effect::SetPosition { xwindow: windows[window], x: x as i32, y: y as i32 },
                    )
                } else {
                    EventOutcome::Done(X11Effect::Nothing)
                }
            },
            XEvent::ConfigureRequest { window, value_mask, width, height } => {
                if !windows.contains_key(window) {
                    EventOutcome::MissingWindow(window)
                } else if value_mask & (CONFIG_WINDOW_WIDTH | CONFIG_WINDOW_HEIGHT) != 0 {
                    EventOutcome::Done(
                        X11Effect::Configure {
                            xwindow: windows[window],
                            window,
                            value_mask,
                            width,
                            height,
                        },
                    )
                } else {
                    EventOutcome::Done(X11Effect::Nothing)
                }
            },
            XEvent::CreateNotify { window, parent, override_redirect, geometry } => {
                let on_display = wm_window == Some(window);
                EventOutcome::Done(
                    X11Effect::CreateWindow {
                        entity: created_entity(wm_window, display_entity, fresh_entity, window),
                        window,
                        geometry,
                        parent_window: parent,
                        override_redirect,
                        is_toplevel: screens.contains(parent),
                        parent: if on_display {
                            None
                        } else if windows.contains_key(parent) {
                            Some(windows[parent])
                        } else {
                            Some(display_entity)
                        },
                        parent_found: on_display || windows.contains_key(parent),
                    },
                )
            },
            XEvent::DestroyNotify { window } => {
                if windows.contains_key(window) {
                    EventOutcome::Done(X11Effect::Despawn { entity: windows[window] })
                } else {
                    EventOutcome::Done(X11Effect::Nothing)
                }
            },
            XEvent::FocusIn => EventOutcome::Done(X11Effect::Nothing),
            XEvent::FocusOut => EventOutcome::Done(X11Effect::Nothing),
            XEvent::MappingNotify => EventOutcome::Done(X11Effect::Nothing),
            XEvent::MapNotify { window } => on_window(
                windows,
                window,
                |e: Entity| X11Effect::Mapped { xwindow: e, window },
            ),
            XEvent::MapRequest { window } => on_window(
                windows,
                window,
                |e: Entity| X11Effect::MapRequested { xwindow: e, window },
            ),
            XEvent::PropertyNotify { window, atom } => on_window(
                windows,
                window,
                |e: Entity|
                    X11Effect::UpdateProperty { xwindow: e, property: property_of_atom(atom, atoms) },
            ),
            XEvent::UnmapNotify { window } => on_window(
                windows,
                window,
                |e: Entity| X11Effect::Unmapped { xwindow: e },
            ),
            XEvent::Unsupported => EventOutcome::Done(X11Effect::Nothing),
        }
    }
}

/// The display's window map after an event.
pub open spec fn spec_windows_after(
    windows: Map<u32, Entity>,
    wm_window: Option<u32>,
    display_entity: Entity,
    connected: bool,
    fresh_entity: Entity,
    event: XEvent,
) -> Map<u32, Entity> {
    if !connected {
        windows
    } else {
        match event {
            XEvent::CreateNotify { window, .. } => windows.insert(
                window,
                created_entity(wm_window, display_entity, fresh_entity, window),
            ),
            XEvent::DestroyNotify { window } => windows.remove(window),
            _ => windows,
        }
    }
}

/// A window the X server announces as created is found afterwards, under
/// the entity it was given; the other windows keep theirs.
pub proof fn lemma_created_window_found(
    windows: Map<u32, Entity>,
    wm_window: Option<u32>,
    display_entity: Entity,
    fresh_entity: Entity,
    window: u32,
    parent: u32,
    override_redirect: bool,
    geometry: IRect,
    other: u32,
)
    requires
        other != window,
    ensures
        ({
            let after = spec_windows_after(
                windows,
                wm_window,
                display_entity,
                true,
                fresh_entity,
                XEvent::CreateNotify { window, parent, override_redirect, geometry },
            );
            &&& after.contains_key(window)
            &&& after[window] == created_entity(wm_window, display_entity, fresh_entity, window)
            &&& after.contains_key(other) == windows.contains_key(other)
            &&& windows.contains_key(other) ==> after[other] == windows[other]
        }),
{
}

/// A destroyed window is no longer found; the other windows stay.
pub proof fn lemma_destroyed_window_forgotten(
    windows: Map<u32, Entity>,
    wm_window: Option<u32>,
    display_entity: Entity,
    fresh_entity: Entity,
    window: u32,
    other: u32,
)
    requires
        other != window,
    ensures
        ({
            let after = spec_windows_after(
                windows,
                wm_window,
                display_entity,
                true,
                fresh_entity,
                XEvent::DestroyNotify { window },
            );
            &&& !after.contains_key(window)
            &&& after.contains_key(other) == windows.contains_key(other)
            &&& windows.contains_key(other) ==> after[other] == windows[other]
        }),
{
}

/// Creating a window the display did not know and destroying it again gives
/// the display's record back.
pub proof fn lemma_create_then_destroy(
    windows: Map<u32, Entity>,
    wm_window: Option<u32>,
    display_entity: Entity,
    fresh_entity: Entity,
    window: u32,
    parent: u32,
    override_redirect: bool,
    geometry: IRect,
)
    requires
        !windows.contains_key(window),
    ensures
        spec_windows_after(
            spec_windows_after(
                windows,
                wm_window,
                display_entity,
                true,
                fresh_entity,
                XEvent::CreateNotify { window, parent, override_redirect, geometry },
            ),
            wm_window,
            display_entity,
            true,
            fresh_entity,
            XEvent::DestroyNotify { window },
        ) == windows,
{
    let created = spec_windows_after(
        windows,
        wm_window,
        display_entity,
        true,
        fresh_entity,
        XEvent::CreateNotify { window, parent, override_redirect, geometry },
    );
    assert(created.remove(window) =~= windows);
}

/// Events are ignored once the connection is gone: the record stays as it
/// was.
pub proof fn lemma_disconnected_changes_nothing(
    windows: Map<u32, Entity>,
    wm_window: Option<u32>,
    display_entity: Entity,
    fresh_entity: Entity,
    event: XEvent,
)
    ensures
        spec_windows_after(windows, wm_window, display_entity, false, fresh_entity, event)
            == windows,
{
}

/// Looks up `window`, turning a miss into the event's error.
fn lookup(display: &XWaylandDisplay, window: u32) -> (r: Result<Entity, X11EventError>)
    ensures
        display.windows_entitys@.contains_key(window) ==> (r matches Ok(e) && e
            == display.windows_entitys@[window]),
        !display.windows_entitys@.contains_key(window) ==> (r matches Err(
            X11EventError::XWayland(XWaylandError::WindowNotExists(w)),
        ) && w == window),
{
    match display.find_window(window) {
        Ok(e) => Ok(e),
        Err(e) => Err(X11EventError::XWayland(e)),
    }
}

/// Decides an X11 event of the display whose entity is `display_entity`.
/// `connected` tells whether the X11 connection is still there;
/// `fresh_entity` is the entity a newly created window is given.
pub fn process_x11_event(
    display: &mut XWaylandDisplay,
    display_entity: Entity,
    atoms: &Atoms,
    connected: bool,
    fresh_entity: Entity,
    event: XEvent,
) -> (r: Result<X11Effect, X11EventError>)
    requires
        connected ==> !unhandled_event(event, *atoms),
    ensures
        result_is(
            r,
            spec_event_outcome(
                old(display).windows_entitys@,
                old(display).screen_windows@,
                old(display).wm_window,
                display_entity,
                *atoms,
                connected,
                fresh_entity,
                event,
            ),
        ),
        final(display).windows_entitys@ == spec_windows_after(
            old(display).windows_entitys@,
            old(display).wm_window,
            display_entity,
            connected,
            fresh_entity,
            event,
        ),
        final(display).screen_windows@ == old(display).screen_windows@,
        final(display).wm_window == old(display).wm_window,
        final(display).display_number == old(display).display_number,
{
    if !connected {
        return Err(X11EventError::ConnectionDropped);
    }
    match event {
        XEvent::Error => Ok(X11Effect::ReportError),
        XEvent::ClientMessage { window, type_, data } => {
            if type_ == atoms.wl_surface_id {
                let e = lookup(display, window)?;
                Ok(X11Effect::AttachSurface { xwindow: e, surface_id: data.0 })
            } else if type_ == atoms.net_wm_state {
                Ok(X11Effect::Nothing)
            } else if type_ == atoms.net_wm_moveresize {
                let e = lookup(display, window)?;
                Ok(X11Effect::MoveResize { xwindow: e, action: moveresize_action(data.2) })
            } else {
                Ok(X11Effect::UnhandledClientMessage { type_ })
            }
        },
        XEvent::ConfigureNotify { window, x, y } => {
            match display.find_window(window) {
                Ok(e) => Ok(X11Effect::SetPosition { xwindow: e, x: x as i32, y: y as i32 }),
                Err(_) => Ok(X11Effect::Nothing),
            }
        },
        XEvent::ConfigureRequest { window, value_mask, width, height } => {
            let e = lookup(display, window)?;
            if value_mask & (CONFIG_WINDOW_WIDTH | CONFIG_WINDOW_HEIGHT) != 0 {
                Ok(X11Effect::Configure { xwindow: e, window, value_mask, width, height })
            } else {
                Ok(X11Effect::Nothing)
            }
        },
        XEvent::CreateNotify { window, parent, override_redirect, geometry } => {
            let is_toplevel = display.screen_windows.contains(&parent);
            let on_display = match display.wm_window {
                Some(w) => w == window,
                None => false,
            };
            let (entity, parent_entity, parent_found) = if on_display {
                (display_entity, None, true)
            } else {
                match display.find_window(parent) {
                    Ok(p) => (fresh_entity, Some(p), true),
                    Err(_) => (fresh_entity, Some(display_entity), false),
                }
            };
            display.windows_entitys.insert(window, entity);
            Ok(
                X11Effect::CreateWindow {
                    entity,
                    window,
                    geometry,
                    parent_window: parent,
                    override_redirect,
                    is_toplevel,
                    parent: parent_entity,
                    parent_found,
                },
            )
        },
        XEvent::DestroyNotify { window } => {
            match display.windows_entitys.remove(&window) {
                Some(e) => Ok(X11Effect::Despawn { entity: e }),
                None => Ok(X11Effect::Nothing),
            }
        },
        XEvent::FocusIn => Ok(X11Effect::Nothing),
        XEvent::FocusOut => Ok(X11Effect::Nothing),
        XEvent::MappingNotify => Ok(X11Effect::Nothing),
        XEvent::MapNotify { window } => {
            let e = lookup(display, window)?;
            Ok(X11Effect::Mapped { xwindow: e, window })
        },
        XEvent::MapRequest { window } => {
            let e = lookup(display, window)?;
            Ok(X11Effect::MapRequested { xwindow: e, window })
        },
        XEvent::PropertyNotify { window, atom } => {
            let e = lookup(display, window)?;
            let kinds = crate::x11::window::property_updates(Some(atom), atoms);
            let property = if kinds.len() > 0 {
                Some(kinds[0])
            } else {
                None
            };
            Ok(X11Effect::UpdateProperty { xwindow: e, property })
        },
        XEvent::UnmapNotify { window } => {
            let e = lookup(display, window)?;
            Ok(X11Effect::Unmapped { xwindow: e })
        },
        XEvent::Unsupported => Ok(X11Effect::Nothing),
    }
}



/// The requests that follow the mapping of `window`: when it has a parent,
/// it is appended to the parent's client list and stacking list.
pub fn mapped_requests(xwindow: &XWindow, window: u32, atoms: &Atoms) -> (r: Vec<XRequest>)
    ensures
        requests_view(r@) == match xwindow.parent_window {
            Some(p) => seq![
                XRequestView::AppendWindows {
                    window: p,
                    property: atoms.net_client_list,
                    windows: seq![window],
                },
                XRequestView::AppendWindows {
                    window: p,
                    property: atoms.net_client_list_stacking,
                    windows: seq![window],
                },
            ],
            None => Seq::<XRequestView>::empty(),
        },
{
    let mut out: Vec<XRequest> = Vec::new();
    match xwindow.parent_window {
        Some(parent) => {
            let mut list: Vec<u32> = Vec::new();
            list.push(window);
            let mut stacking: Vec<u32> = Vec::new();
            stacking.push(window);
            out.push(XRequest::AppendWindows { window: parent, property: atoms.net_client_list, windows: list });
            out.push(
                XRequest::AppendWindows {
                    window: parent,
                    property: atoms.net_client_list_stacking,
                    windows: stacking,
                },
            );
            assert(requests_view(out@) =~= seq![
                XRequestView::AppendWindows {
                    window: parent,
                    property: atoms.net_client_list,
                    windows: seq![window],
                },
                XRequestView::AppendWindows {
                    window: parent,
                    property: atoms.net_client_list_stacking,
                    windows: seq![window],
                },
            ]);
        },
        None => {
            assert(requests_view(out@) =~= Seq::<XRequestView>::empty());
        },
    }
    out
}

/// The requests that answer a map request of `window`, whose geometry is
/// `rect`, all with the server grabbed: when the window has a parent, a frame
/// window `frame` is made in the parent at that geometry, with the window's
/// border width, and the window is mapped. The numbers are cut to the
/// protocol's sizes.
pub fn map_request_steps(xwindow: &XWindow, rect: IRect, window: u32, frame: u32) -> (r: Vec<
    XRequest,
>)
    requires
        rect.size_fits(),
    ensures
        requests_view(r@) == seq![XRequestView::GrabServer] + match xwindow.parent_window {
            Some(p) => seq![
                XRequestView::CreateFrame {
                    frame,
                    parent: p,
                    x: rect.min.x as i16,
                    y: rect.min.y as i16,
                    width: (rect.spec_width() as i32) as u16,
                    height: (rect.spec_height() as i32) as u16,
                    border_width: xwindow.boarder_width as u16,
                },
                XRequestView::MapWindow { window },
            ],
            None => Seq::<XRequestView>::empty(),
        } + seq![XRequestView::UngrabServer],
{
    let mut out: Vec<XRequest> = Vec::new();
    out.push(XRequest::GrabServer);
    match xwindow.parent_window {
        Some(parent) => {
            let req = XRequest::CreateFrame {
                frame,
                parent,
                x: rect.x() as i16,
                y: rect.y() as i16,
                width: rect.width() as u16,
                height: rect.height() as u16,
                border_width: xwindow.boarder_width as u16,
            };
            out.push(req);
            out.push(XRequest::MapWindow { window });
            out.push(XRequest::UngrabServer);
            assert(requests_view(out@) =~= seq![XRequestView::GrabServer] + seq![
                req@,
                XRequestView::MapWindow { window },
            ] + seq![XRequestView::UngrabServer]);
        },
        None => {
            out.push(XRequest::UngrabServer);
            assert(requests_view(out@) =~= seq![XRequestView::GrabServer] + Seq::<
                XRequestView,
            >::empty() + seq![XRequestView::UngrabServer]);
        },
    }
    out
}

/// The requests that go with an unmap of a window: the window manager drops
/// the window's mapped state with the server grabbed, so the requests are the
/// grab and its release.
pub fn unmap_requests() -> (r: Vec<XRequest>)
    ensures
        requests_view(r@) == seq![XRequestView::GrabServer, XRequestView::UngrabServer],
{
    let mut out: Vec<XRequest> = Vec::new();
    out.push(XRequest::GrabServer);
    out.push(XRequest::UngrabServer);
    assert(requests_view(out@) =~= seq![XRequestView::GrabServer, XRequestView::UngrabServer]);
    out
}

/// Applies a configure request to the window's geometry and gives the
/// request that moves and resizes the window to it.
pub fn apply_configure_request(
    geometry: &mut IRect,
    window: u32,
    value_mask: u16,
    width: u16,
    height: u16,
) -> (r: XRequest)
    requires
        fits_i32(old(geometry).min.x + width),
        fits_i32(old(geometry).min.x + height),
        old(geometry).size_fits(),
    ensures
        *final(geometry) == spec_configure_request_geometry(*old(geometry), value_mask, width, height),
        r@ == (XRequestView::ConfigureWindow {
            window,
            x: final(geometry).min.x,
            y: final(geometry).min.y,
            width: final(geometry).spec_width() as u32,
            height: final(geometry).spec_height() as u32,
        }),
{
    let rect = configure_request_geometry(*geometry, value_mask, width, height);
    *geometry = rect;
    XRequest::ConfigureWindow {
        window,
        x: rect.x(),
        y: rect.y(),
        width: rect.width() as u32,
        height: rect.height() as u32,
    }
}

/// Moves a geometry to the position a configure notify reports, keeping its
/// size.
pub fn apply_position(geometry: &mut IRect, x: i16, y: i16)
    requires
        old(geometry).size_fits(),
        fits_i32(x + old(geometry).spec_width()),
        fits_i32(y + old(geometry).spec_height()),
    ensures
        *final(geometry) == crate::util::rect::irect(
            x as int,
            y as int,
            x + old(geometry).spec_width(),
            y + old(geometry).spec_height(),
        ),
{
    geometry.set_x(x as i32);
    geometry.set_y(y as i32);
}

/// A message from the thread that reads the X11 connection.
pub enum XWaylandThreadEvent {
    /// The connection is set up. `alive` tells whether it still stands;
    /// `screens` pairs the root window of each screen with the entity made
    /// for it.
    CreateConnection { alive: bool, wm_window: u32, screens: Vec<(u32, Entity)> },
    /// An event of the connection; `connected` and `fresh_entity` are the
    /// arguments of [`process_x11_event`].
    XWaylandEvent { event: XEvent, connected: bool, fresh_entity: Entity },
    /// The connection failed.
    Disconnect,
}

/// What a thread message came to.
pub enum DispatchOutcome {
    /// The connection was already gone; nothing was done.
    Skipped,
    /// The display is ready: announce it and link it to its compositor.
    Ready(DWayXWaylandReady),
    /// The event was decided.
    Processed(Result<X11Effect, X11EventError>),
    /// The display has stopped: remove it, announce it and unlink it.
    Stopped(DWayXWaylandStoped),
}

/// The window map after recording the screens' root windows.
pub open spec fn add_screen_windows(windows: Map<u32, Entity>, screens: Seq<(u32, Entity)>) -> Map<
    u32,
    Entity,
>
    decreases screens.len(),
{
    if screens.len() == 0 {
        windows
    } else {
        add_screen_windows(windows, screens.drop_last()).insert(
            screens.last().0,
            screens.last().1,
        )
    }
}

/// The set of screen roots after recording the screens.
pub open spec fn add_screen_roots(roots: Set<u32>, screens: Seq<(u32, Entity)>) -> Set<u32>
    decreases screens.len(),
{
    if screens.len() == 0 {
        roots
    } else {
        add_screen_roots(roots, screens.drop_last()).insert(screens.last().0)
    }
}

/// The display's windows, screens and own window after one thread message.
pub open spec fn display_step(
    st: (Map<u32, Entity>, Set<u32>, Option<u32>),
    display_entity: Entity,
    ev: XWaylandThreadEvent,
) -> (Map<u32, Entity>, Set<u32>, Option<u32>) {
    match ev {
        XWaylandThreadEvent::CreateConnection { alive, wm_window, screens } => {
            if alive {
                (
                    add_screen_windows(st.0, screens@),
                    add_screen_roots(st.1, screens@),
                    Some(wm_window),
                )
            } else {
                st
            }
        },
        XWaylandThreadEvent::XWaylandEvent { event, connected, fresh_entity } => (
            spec_windows_after(st.0, st.2, display_entity, connected, fresh_entity, event),
            st.1,
            st.2,
        ),
        XWaylandThreadEvent::Disconnect => st,
    }
}

/// The display's state after a sequence of thread messages.
pub open spec fn display_after(
    st: (Map<u32, Entity>, Set<u32>, Option<u32>),
    display_entity: Entity,
    evs: Seq<XWaylandThreadEvent>,
) -> (Map<u32, Entity>, Set<u32>, Option<u32>)
    decreases evs.len(),
{
    if evs.len() == 0 {
        st
    } else {
        display_step(display_after(st, display_entity, evs.drop_last()), display_entity, evs.last())
    }
}

/// `o` is what the message `ev` comes to when the display is in state `st`.
pub open spec fn dispatch_outcome_is(
    o: DispatchOutcome,
    st: (Map<u32, Entity>, Set<u32>, Option<u32>),
    display_entity: Entity,
    dway_entity: Entity,
    atoms: Atoms,
    ev: XWaylandThreadEvent,
) -> bool {
    match ev {
        XWaylandThreadEvent::CreateConnection { alive, .. } => if alive {
            o matches DispatchOutcome::Ready(r) && r.dway_entity == dway_entity
        } else {
            o is Skipped
        },
        XWaylandThreadEvent::XWaylandEvent { event, connected, fresh_entity } => o matches DispatchOutcome::Processed(
            r,
        ) && result_is(
            r,
            spec_event_outcome(
                st.0,
                st.1,
                st.2,
                display_entity,
                atoms,
                connected,
                fresh_entity,
                event,
            ),
        ),
        XWaylandThreadEvent::Disconnect => o matches DispatchOutcome::Stopped(s) && s.dway_entity
            == dway_entity,
    }
}

/// No message is an event that the window manager cannot handle.
pub open spec fn all_handled(evs: Seq<XWaylandThreadEvent>, atoms: Atoms) -> bool {
    forall|i: int|
        0 <= i < evs.len() ==> match #[trigger] evs[i] {
            XWaylandThreadEvent::XWaylandEvent { event, connected, .. } => connected
                ==> !unhandled_event(event, atoms),
            _ => true,
        }
}

/// The display's state as a triple.
pub open spec fn display_state(d: &XWaylandDisplay) -> (Map<u32, Entity>, Set<u32>, Option<u32>) {
    (d.windows_entitys@, d.screen_windows@, d.wm_window)
}

/// Records a new connection: its own window and each screen's root window.
fn record_connection(
    display: &mut XWaylandDisplay,
    wm_window: u32,
    screens: &Vec<(u32, Entity)>,
)
    ensures
        final(display).windows_entitys@ == add_screen_windows(
            old(display).windows_entitys@,
            screens@,
        ),
        final(display).screen_windows@ == add_screen_roots(old(display).screen_windows@, screens@),
        final(display).wm_window == Some(wm_window),
        final(display).display_number == old(display).display_number,
{
    display.wm_window = Some(wm_window);
    let mut j: usize = 0;
    while j < screens.len()
        invariant
            j <= screens.len(),
            display.windows_entitys@ == add_screen_windows(
                old(display).windows_entitys@,
                screens@.take(j as int),
            ),
            display.screen_windows@ == add_screen_roots(
                old(display).screen_windows@,
                screens@.take(j as int),
            ),
            display.wm_window == Some(wm_window),
            display.display_number == old(display).display_number,
        decreases screens.len() - j,
    {
        let (root, entity) = screens[j];
        assert(screens@.take(j + 1).drop_last() == screens@.take(j as int));
        display.windows_entitys.insert(root, entity);
        display.screen_windows.insert(root);
        j = j + 1;
    }
    assert(screens@.take(screens.len() as int) == screens@);
}

/// Decides the messages of the Xwayland thread in order, updating the
/// display's record as it goes.
pub fn dispatch_x11_events(
    display: &mut XWaylandDisplay,
    display_entity: Entity,
    dway_entity: Entity,
    atoms: &Atoms,
    events: &Vec<XWaylandThreadEvent>,
) -> (r: Vec<DispatchOutcome>)
    requires
        all_handled(events@, *atoms),
    ensures
        r@.len() == events@.len(),
        forall|i: int|
            0 <= i < events@.len() ==> dispatch_outcome_is(
                #[trigger] r@[i],
                display_after(display_state(old(display)), display_entity, events@.take(i)),
                display_entity,
                dway_entity,
                *atoms,
                events@[i],
            ),
        display_state(final(display)) == display_after(
            display_state(old(display)),
            display_entity,
            events@,
        ),
        final(display).display_number == old(display).display_number,
{
    let mut out: Vec<DispatchOutcome> = Vec::new();
    let mut i: usize = 0;
    while i < events.len()
        invariant
            i <= events.len(),
            all_handled(events@, *atoms),
            out@.len() == i,
            display_state(display) == display_after(
                display_state(old(display)),
                display_entity,
                events@.take(i as int),
            ),
            forall|k: int|
                0 <= k < i ==> dispatch_outcome_is(
                    #[trigger] out@[k],
                    display_after(display_state(old(display)), display_entity, events@.take(k)),
                    display_entity,
                    dway_entity,
                    *atoms,
                    events@[k],
                ),
            display.display_number == old(display).display_number,
        decreases events.len() - i,
    {
        let ghost st = display_state(display);
        assert(events@.take(i + 1).drop_last() == events@.take(i as int));
        let outcome = match &events[i] {
            XWaylandThreadEvent::CreateConnection { alive, wm_window, screens } => {
                if *alive {
                    record_connection(display, *wm_window, screens);
                    DispatchOutcome::Ready(DWayXWaylandReady::new(dway_entity))
                } else {
                    DispatchOutcome::Skipped
                }
            },
            XWaylandThreadEvent::XWaylandEvent { event, connected, fresh_entity } => {
                assert(match events@[i as int] {
                    XWaylandThreadEvent::XWaylandEvent { event, connected, .. } => connected
                        ==> !unhandled_event(event, *atoms),
                    _ => true,
                });
                let r = process_x11_event(
                    display,
                    display_entity,
                    atoms,
                    *connected,
                    *fresh_entity,
                    *event,
                );
                DispatchOutcome::Processed(r)
            },
            XWaylandThreadEvent::Disconnect => DispatchOutcome::Stopped(
                DWayXWaylandStoped::new(dway_entity),
            ),
        };
        out.push(outcome);
        i = i + 1;
    }
    assert(events@.take(events.len() as int) == events@);
    out
}

} // verus!
