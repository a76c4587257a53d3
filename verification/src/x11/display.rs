//! The window manager's record of one Xwayland display.
use std::collections::HashMap;
use std::collections::HashSet;
use vstd::prelude::*;
use crate::entity::Entity;

verus! {

broadcast use vstd::std_specs::hash::group_hash_axioms;

/// The atoms that the window manager interns on its X11 connection.
#[derive(Clone, Copy, PartialEq, Eq, Debug, Structural)]
pub struct Atoms {
    pub wl_surface_id: u32,
    pub utf8_string: u32,
    pub wm_hints: u32,
    pub wm_protocols: u32,
    pub wm_change_state: u32,
    pub net_wm_name: u32,
    pub net_wm_moveresize: u32,
    pub net_wm_window_type: u32,
    pub motif_wm_hints: u32,
    pub net_client_list: u32,
    pub net_client_list_stacking: u32,
    pub net_wm_state: u32,
    pub net_wm_state_maximized_vert: u32,
    pub net_wm_state_maximized_horz: u32,
    pub net_wm_state_hidden: u32,
    pub net_wm_state_fullscreen: u32,
    pub net_wm_state_modal: u32,
    pub net_wm_state_focused: u32,
    pub net_active_window: u32,
    pub net_supported: u32,
    pub net_supporting_wm_check: u32,
    pub net_wm_cm_s0: u32,
    pub wm_s0: u32,
    pub wm_delete_window: u32,
    pub wm_take_focus: u32,
}

/// The error type of an established X11 connection.
#[verifier::external_type_specification]
#[verifier::external_body]
pub struct ExConnectionError(x11rb::rust_connection::ConnectionError);

/// An error met while handling an X11 event.
#[derive(Debug)]
pub enum XWaylandError {
    /// No entity is known for this X11 window.
    WindowNotExists(u32),
    /// The entity lacks the component the event needs.
    InvalidWindowEntity(Entity),
    /// The X11 connection failed.
    ConnectionError(x11rb::rust_connection::ConnectionError),
}

/// The X11 windows of one Xwayland display and the entities that stand for
/// them.
pub struct XWaylandDisplay {
    pub display_number: u32,
    pub windows_entitys: HashMap<u32, Entity>,
    pub screen_windows: HashSet<u32>,
    pub wm_window: Option<u32>,
}

impl XWaylandDisplay {
    /// A display with no known window.
    pub fn new(display_number: u32) -> (r: XWaylandDisplay)
        ensures
            r.display_number == display_number,
            r.windows_entitys@ == Map::<u32, Entity>::empty(),
            r.screen_windows@ == Set::<u32>::empty(),
            r.wm_window is None,
    {
        XWaylandDisplay {
            display_number,
            windows_entitys: HashMap::new(),
            screen_windows: HashSet::new(),
            wm_window: None,
        }
    }

    /// The entity of an X11 window, or `WindowNotExists` for an unknown window.
    pub fn find_window(&self, id: u32) -> (r: Result<Entity, XWaylandError>)
        ensures
            self.windows_entitys@.contains_key(id) ==> r == Ok::<Entity, XWaylandError>(
                self.windows_entitys@[id],
            ),
            !self.windows_entitys@.contains_key(id) ==> (r matches Err(
                XWaylandError::WindowNotExists(w),
            ) && w == id),
    {
        match self.windows_entitys.get(&id) {
            Some(e) => Ok(*e),
            None => Err(XWaylandError::WindowNotExists(id)),
        }
    }
}

/// The predefined atom `ATOM`.
pub const ATOM_ATOM: u32 = 4;
/// The predefined atom `WINDOW`.
pub const ATOM_WINDOW: u32 = 33;
/// The events the window manager selects on the root window:
/// substructure redirect and notify, property and focus changes.
pub const WM_ROOT_EVENT_MASK: u32 = 0x0078_0000;
/// The glyph of the font `cursor` that the root window shows, and its mask.
pub const WM_CURSOR_GLYPH: u16 = 68;
pub const WM_CURSOR_MASK_GLYPH: u16 = 69;

/// A request that sets the window manager up on a display, once its window
/// exists.
pub enum WmSetupStep {
    /// `owner` becomes the owner of the selection, from the current time.
    SetSelectionOwner { owner: u32, selection: u32 },
    /// The children of `window` are redirected to off-screen storage, by hand.
    RedirectSubwindows { window: u32 },
    /// The property is replaced by 32-bit items.
    ReplaceProperty32 { window: u32, property: u32, type_: u32, items: Vec<u32> },
    /// The property is replaced by bytes.
    ReplaceProperty8 { window: u32, property: u32, type_: u32, bytes: Vec<u8> },
}

/// `s` replaces a property with these 32-bit items.
pub open spec fn replaces32(s: WmSetupStep, window: u32, property: u32, type_: u32, data: Seq<u32>) -> bool {
    s matches WmSetupStep::ReplaceProperty32 { window: w, property: p, type_: t, items: d } && w
        == window && p == property && t == type_ && d@ == data
}

/// The atoms the window manager lists as supported.
pub open spec fn net_supported(atoms: Atoms) -> Seq<u32> {
    seq![
        atoms.net_wm_state,
        atoms.net_wm_state_maximized_horz,
        atoms.net_wm_state_maximized_vert,
        atoms.net_wm_state_hidden,
        atoms.net_wm_state_fullscreen,
        atoms.net_wm_state_modal,
        atoms.net_wm_state_focused,
        atoms.net_active_window,
        atoms.net_wm_moveresize,
        atoms.net_client_list,
        atoms.net_client_list_stacking,
    ]
}

/// The name the window manager gives its window, as bytes.
pub open spec fn wm_name() -> Seq<u8> {
    seq![83u8, 109, 105, 116, 104, 97, 121, 32, 88, 32, 87, 77]
}

/// The steps that make `win` the window manager of the screen whose root is
/// `root`: it takes the `WM_S0` and `_NET_WM_CM_S0` selections, redirects the
/// root's children, lists what it supports, empties the client lists, sets no
/// active window, names itself as the supporting window on the root and on
/// itself, and gives itself its name.
pub open spec fn is_wm_setup(r: Seq<WmSetupStep>, atoms: Atoms, root: u32, win: u32) -> bool {
    &&& r.len() == 10
    &&& r[0] == WmSetupStep::SetSelectionOwner { owner: win, selection: atoms.wm_s0 }
    &&& r[1] == WmSetupStep::SetSelectionOwner { owner: win, selection: atoms.net_wm_cm_s0 }
    &&& r[2] == WmSetupStep::RedirectSubwindows { window: root }
    &&& replaces32(r[3], root, atoms.net_supported, ATOM_ATOM, net_supported(atoms))
    &&& replaces32(r[4], root, atoms.net_client_list, ATOM_WINDOW, seq![])
    &&& replaces32(r[5], root, atoms.net_client_list_stacking, ATOM_WINDOW, seq![])
    &&& replaces32(r[6], root, atoms.net_active_window, ATOM_WINDOW, seq![0u32])
    &&& replaces32(r[7], root, atoms.net_supporting_wm_check, ATOM_WINDOW, seq![win])
    &&& replaces32(r[8], win, atoms.net_supporting_wm_check, ATOM_WINDOW, seq![win])
    &&& r[9] matches WmSetupStep::ReplaceProperty8 { window: w, property: p, type_: t, bytes: d }
        && w == win && p == atoms.net_wm_name && t == atoms.utf8_string && d@ == wm_name()
}

/// The steps of [`is_wm_setup`], in order.
pub fn start_wm(atoms: &Atoms, root: u32, win: u32) -> (r: Vec<WmSetupStep>)
    ensures
        is_wm_setup(r@, *atoms, root, win),
{
    let mut steps: Vec<WmSetupStep> = Vec::new();
    steps.push(WmSetupStep::SetSelectionOwner { owner: win, selection: atoms.wm_s0 });
    steps.push(WmSetupStep::SetSelectionOwner { owner: win, selection: atoms.net_wm_cm_s0 });
    steps.push(WmSetupStep::RedirectSubwindows { window: root });
    let mut supported: Vec<u32> = Vec::new();
    supported.push(atoms.net_wm_state);
    supported.push(atoms.net_wm_state_maximized_horz);
    supported.push(atoms.net_wm_state_maximized_vert);
    supported.push(atoms.net_wm_state_hidden);
    supported.push(atoms.net_wm_state_fullscreen);
    supported.push(atoms.net_wm_state_modal);
    supported.push(atoms.net_wm_state_focused);
    supported.push(atoms.net_active_window);
    supported.push(atoms.net_wm_moveresize);
    supported.push(atoms.net_client_list);
    supported.push(atoms.net_client_list_stacking);
    assert(supported@ =~= net_supported(*atoms));
    steps.push(WmSetupStep::ReplaceProperty32 {
        window: root,
        property: atoms.net_supported,
        type_: ATOM_ATOM,
        items: supported,
    });
    steps.push(WmSetupStep::ReplaceProperty32 {
        window: root,
        property: atoms.net_client_list,
        type_: ATOM_WINDOW,
        items: Vec::new(),
    });
    steps.push(WmSetupStep::ReplaceProperty32 {
        window: root,
        property: atoms.net_client_list_stacking,
        type_: ATOM_WINDOW,
        items: Vec::new(),
    });
    let mut active: Vec<u32> = Vec::new();
    active.push(0);
    steps.push(WmSetupStep::ReplaceProperty32 {
        window: root,
        property: atoms.net_active_window,
        type_: ATOM_WINDOW,
        items: active,
    });
    let mut check_root: Vec<u32> = Vec::new();
    check_root.push(win);
    steps.push(WmSetupStep::ReplaceProperty32 {
        window: root,
        property: atoms.net_supporting_wm_check,
        type_: ATOM_WINDOW,
        items: check_root,
    });
    let mut check_win: Vec<u32> = Vec::new();
    check_win.push(win);
    steps.push(WmSetupStep::ReplaceProperty32 {
        window: win,
        property: atoms.net_supporting_wm_check,
        type_: ATOM_WINDOW,
        items: check_win,
    });
    let mut name: Vec<u8> = Vec::new();
    name.push(83u8);
    name.push(109u8);
    name.push(105u8);
    name.push(116u8);
    name.push(104u8);
    name.push(97u8);
    name.push(121u8);
    name.push(32u8);
    name.push(88u8);
    name.push(32u8);
    name.push(87u8);
    name.push(77u8);
    assert(name@ =~= wm_name());
    steps.push(WmSetupStep::ReplaceProperty8 {
        window: win,
        property: atoms.net_wm_name,
        type_: atoms.utf8_string,
        bytes: name,
    });
    proof {
        assert(seq![0u32] =~= Seq::<u32>::empty().push(0u32));
    }
    steps
}

/// The items that the last 32-bit write of `property` on `window` in the
/// steps `r` leaves there, if any step writes it.
pub open spec fn last_write32(r: Seq<WmSetupStep>, window: u32, property: u32) -> Option<Seq<u32>>
    decreases r.len(),
{
    if r.len() == 0 {
        None
    } else {
        match r.last() {
            WmSetupStep::ReplaceProperty32 { window: w, property: p, items, .. } => if w == window
                && p == property {
                Some(items@)
            } else {
                last_write32(r.drop_last(), window, property)
            },
            _ => last_write32(r.drop_last(), window, property),
        }
    }
}

/// Once the setup steps have run, the root names the window manager's own
/// window `win` as the supporting window, `win` names itself, `win` owns
/// every selection taken, and `win` carries the manager's name: a client that
/// follows `_NET_SUPPORTING_WM_CHECK` from the root finds `win`.
pub proof fn lemma_wm_setup_names_win(r: Seq<WmSetupStep>, atoms: Atoms, root: u32, win: u32)
    requires
        is_wm_setup(r, atoms, root, win),
    ensures
        last_write32(r, root, atoms.net_supporting_wm_check) == Some(seq![win]),
        last_write32(r, win, atoms.net_supporting_wm_check) == Some(seq![win]),
        forall|j: int|
            0 <= j < r.len() ==> (#[trigger] r[j] matches WmSetupStep::SetSelectionOwner { owner, .. }
                ==> owner == win),
        exists|j: int|
            0 <= j < r.len() && (#[trigger] r[j] matches WmSetupStep::ReplaceProperty8 {
                window: w,
                property: p,
                ..
            } && w == win && p == atoms.net_wm_name),
{
    let r9 = r.drop_last();
    let r8 = r9.drop_last();
    assert(r.last() == r[9]);
    assert(r9.last() == r[8]);
    assert(r8.last() == r[7]);
    reveal_with_fuel(last_write32, 3);
    assert(last_write32(r8, root, atoms.net_supporting_wm_check) == Some(seq![win]));
    assert forall|j: int|
        0 <= j < r.len() implies (#[trigger] r[j] matches WmSetupStep::SetSelectionOwner { owner, .. }
        ==> owner == win) by {
        if 3 <= j < 9 {
            assert(r[j] is ReplaceProperty32);
        }
    }
    assert(r[9] matches WmSetupStep::ReplaceProperty8 { window: w, property: p, .. } && w == win && p
        == atoms.net_wm_name);
}

} // verus!
