//! What the window manager knows of one X11 window, and how each property
//! reply updates it.
use encoding::Encoding;
use vstd::prelude::*;
use vstd::utf8::{decode_utf8, valid_utf8};
use crate::entity::Entity;
use crate::x11::display::{Atoms, XWaylandDisplay};
use crate::x11::systems::{net_state_write, requests_view, XRequest, XRequestView};

verus! {

broadcast use vstd::std_specs::hash::group_hash_axioms;

/// The predefined X11 atom `STRING`.
pub const ATOM_STRING: u32 = 31;
/// The predefined X11 atom `WM_NAME`.
pub const ATOM_WM_NAME: u32 = 39;
/// The predefined X11 atom `WM_NORMAL_HINTS`.
pub const ATOM_WM_NORMAL_HINTS: u32 = 40;
/// The predefined X11 atom `WM_CLASS`.
pub const ATOM_WM_CLASS: u32 = 67;
/// The predefined X11 atom `WM_TRANSIENT_FOR`.
pub const ATOM_WM_TRANSIENT_FOR: u32 = 68;

/// The text that ISO-8859-1 gives a byte string: each byte is the code point
/// of its character.
pub open spec fn latin1_text(bytes: Seq<u8>) -> Seq<char> {
    bytes.map_values(|b: u8| b as char)
}

/// `encoding::all::ISO_8859_1.decode(bytes, DecoderTrap::Replace)`, with its
/// error turned into `None`. ISO-8859-1 gives every byte `b` the character
/// `U+00b`, so the decoding never fails and the text has one character per
/// byte.
#[verifier::external_body]
fn decode_latin1(bytes: &Vec<u8>) -> (r: Option<String>)
    ensures
        r is Some,
        r.unwrap()@ == latin1_text(bytes@),
{
    encoding::all::ISO_8859_1.decode(bytes.as_slice(), encoding::DecoderTrap::Replace).ok()
}

/// `String::from_utf8(bytes).ok()`: the text when the bytes are valid UTF-8,
/// `None` otherwise (as `std` documents it).
#[verifier::external_body]
pub(crate) fn string_from_utf8(bytes: Vec<u8>) -> (r: Option<String>)
    ensures
        r is Some <==> valid_utf8(bytes@),
        r is Some ==> r.unwrap()@ == decode_utf8(bytes@),
{
    String::from_utf8(bytes).ok()
}

/// The text of a string property, by the property's type: `STRING` is
/// ISO-8859-1, `UTF8_STRING` is UTF-8, any other type gives no text.
pub open spec fn property_text(type_: u32, utf8_string: u32, bytes: Seq<u8>) -> Option<Seq<char>> {
    if type_ == ATOM_STRING {
        Some(latin1_text(bytes))
    } else if type_ == utf8_string {
        if valid_utf8(bytes) {
            Some(decode_utf8(bytes))
        } else {
            None
        }
    } else {
        None
    }
}

/// The view of an optional string.
pub open spec fn opt_text(s: Option<String>) -> Option<Seq<char>> {
    match s {
        Some(s) => Some(s@),
        None => None,
    }
}

/// Decodes the bytes of a string property whose type is `type_`.
pub fn decode_property_string(type_: u32, atoms: &Atoms, bytes: Vec<u8>) -> (r: Option<String>)
    ensures
        opt_text(r) == property_text(type_, atoms.utf8_string, bytes@),
{
    if type_ == ATOM_STRING {
        decode_latin1(&bytes)
    } else if type_ == atoms.utf8_string {
        string_from_utf8(bytes)
    } else {
        None
    }
}

/// A window property that the window manager reads again when it changes.
#[derive(Clone, Copy, PartialEq, Eq, Debug, Structural)]
pub enum PropertyKind {
    Title,
    Class,
    Protocols,
    Hints,
    NormalHints,
    TransientFor,
    NetWindowType,
    MotifHints,
}

/// Every property kind, in the order in which a full refresh reads them.
pub open spec fn all_property_kinds() -> Seq<PropertyKind> {
    seq![
        PropertyKind::Title,
        PropertyKind::Class,
        PropertyKind::Protocols,
        PropertyKind::Hints,
        PropertyKind::NormalHints,
        PropertyKind::TransientFor,
        PropertyKind::NetWindowType,
        PropertyKind::MotifHints,
    ]
}

/// The property that a change of `atom` concerns, if any.
pub open spec fn property_of_atom(atom: u32, atoms: Atoms) -> Option<PropertyKind> {
    if atom == atoms.net_wm_name || atom == ATOM_WM_NAME {
        Some(PropertyKind::Title)
    } else if atom == ATOM_WM_CLASS {
        Some(PropertyKind::Class)
    } else if atom == atoms.wm_protocols {
        Some(PropertyKind::Protocols)
    } else if atom == atoms.wm_hints {
        Some(PropertyKind::Hints)
    } else if atom == ATOM_WM_NORMAL_HINTS {
        Some(PropertyKind::NormalHints)
    } else if atom == ATOM_WM_TRANSIENT_FOR {
        Some(PropertyKind::TransientFor)
    } else if atom == atoms.net_wm_window_type {
        Some(PropertyKind::NetWindowType)
    } else if atom == atoms.motif_wm_hints {
        Some(PropertyKind::MotifHints)
    } else {
        None
    }
}

/// The properties to read again: the one that `atom` names (none for an
/// atom the window manager ignores), or all of them when no atom is given.
pub fn property_updates(atom: Option<u32>, atoms: &Atoms) -> (r: Vec<PropertyKind>)
    ensures
        atom is None ==> r@ == all_property_kinds(),
        atom matches Some(a) ==> r@ == match property_of_atom(a, *atoms) {
            Some(k) => seq![k],
            None => Seq::<PropertyKind>::empty(),
        },
{
    match atom {
        None => {
            let r = vec![
                PropertyKind::Title,
                PropertyKind::Class,
                PropertyKind::Protocols,
                PropertyKind::Hints,
                PropertyKind::NormalHints,
                PropertyKind::TransientFor,
                PropertyKind::NetWindowType,
                PropertyKind::MotifHints,
            ];
            assert(r@ == all_property_kinds());
            r
        },
        Some(a) => {
            let kind = if a == atoms.net_wm_name || a == ATOM_WM_NAME {
                Some(PropertyKind::Title)
            } else if a == ATOM_WM_CLASS {
                Some(PropertyKind::Class)
            } else if a == atoms.wm_protocols {
                Some(PropertyKind::Protocols)
            } else if a == atoms.wm_hints {
                Some(PropertyKind::Hints)
            } else if a == ATOM_WM_NORMAL_HINTS {
                Some(PropertyKind::NormalHints)
            } else if a == ATOM_WM_TRANSIENT_FOR {
                Some(PropertyKind::TransientFor)
            } else if a == atoms.net_wm_window_type {
                Some(PropertyKind::NetWindowType)
            } else if a == atoms.motif_wm_hints {
                Some(PropertyKind::MotifHints)
            } else {
                None
            };
            let mut r = Vec::new();
            match kind {
                Some(k) => r.push(k),
                None => {},
            }
            assert(r@ == match property_of_atom(a, *atoms) {
                Some(k) => seq![k],
                None => Seq::<PropertyKind>::empty(),
            });
            r
        },
    }
}

/// An X11 window as the window manager sees it.
pub struct XWindow {
    pub window: u32,
    pub parent_window: Option<u32>,
    pub override_redirect: bool,
    pub title: Option<String>,
    pub class: Option<String>,
    pub instance: Option<String>,
    pub hints: Option<WindowHints>,
    pub normal_hints: Option<SizeHints>,
    pub transient_for: Option<Entity>,
    /// The atoms of `_NET_WM_STATE`, each once.
    pub net_state: Vec<u32>,
    pub motif_hints: Vec<u32>,
    pub window_type: Vec<u32>,
    pub surface_id: Option<u32>,
    pub surface_entity: Option<Entity>,
    pub boarder_width: u32,
    pub is_toplevel: bool,
}

/// The state a window asks to leave the withdrawn state in (`WM_HINTS`).
#[derive(Clone, Copy, PartialEq, Eq, Debug)]
pub enum InitialState {
    Normal,
    Iconic,
}

/// A window's `WM_HINTS`, each field `None` when the window does not give it.
#[derive(Clone, Copy, PartialEq, Eq, Debug)]
pub struct WindowHints {
    /// Whether the window manager may give the window the input focus.
    pub input: Option<bool>,
    pub initial_state: Option<InitialState>,
    pub icon_pixmap: Option<u32>,
    pub icon_window: Option<u32>,
    pub icon_position: Option<(i32, i32)>,
    pub icon_mask: Option<u32>,
    /// The leader of the window's group.
    pub window_group: Option<u32>,
    pub urgent: bool,
}

/// Who set a position or size of `WM_NORMAL_HINTS`.
#[derive(Clone, Copy, PartialEq, Eq, Debug)]
pub enum HintSource {
    User,
    Program,
}

/// A window's `WM_NORMAL_HINTS`, each field `None` when the window does not
/// give it. An aspect ratio is a numerator and a denominator.
#[derive(Clone, Copy, PartialEq, Eq, Debug)]
pub struct SizeHints {
    pub position: Option<(HintSource, i32, i32)>,
    pub size: Option<(HintSource, i32, i32)>,
    pub min_size: Option<(i32, i32)>,
    pub max_size: Option<(i32, i32)>,
    pub size_increment: Option<(i32, i32)>,
    pub aspect: Option<((i32, i32), (i32, i32))>,
    pub base_size: Option<(i32, i32)>,
    pub win_gravity: Option<u32>,
}

/// The net-state list after adding (`is_add`) or removing `atom`: an added
/// atom goes to the end, a removed one leaves its place.
pub open spec fn changed_net_list(s: Seq<u32>, atom: u32, is_add: bool) -> Seq<u32> {
    if is_add {
        if s.contains(atom) {
            s
        } else {
            s.push(atom)
        }
    } else {
        if s.contains(atom) {
            s.remove(choose|i: int| 0 <= i < s.len() && s[i] == atom)
        } else {
            s
        }
    }
}

/// What is known of an X11 window, as spec values.
pub struct XWindowView {
    pub window: u32,
    pub parent_window: Option<u32>,
    pub override_redirect: bool,
    pub title: Option<Seq<char>>,
    pub class: Option<Seq<char>>,
    pub instance: Option<Seq<char>>,
    pub hints: Option<WindowHints>,
    pub normal_hints: Option<SizeHints>,
    pub transient_for: Option<Entity>,
    pub net_state: Seq<u32>,
    pub motif_hints: Seq<u32>,
    pub window_type: Seq<u32>,
    pub surface_id: Option<u32>,
    pub surface_entity: Option<Entity>,
    pub boarder_width: u32,
    pub is_toplevel: bool,
}

impl View for XWindow {
    type V = XWindowView;

    open spec fn view(&self) -> XWindowView {
        XWindowView {
            window: self.window,
            parent_window: self.parent_window,
            override_redirect: self.override_redirect,
            title: opt_text(self.title),
            class: opt_text(self.class),
            instance: opt_text(self.instance),
            hints: self.hints,
            normal_hints: self.normal_hints,
            transient_for: self.transient_for,
            net_state: self.net_state@,
            motif_hints: self.motif_hints@,
            window_type: self.window_type@,
            surface_id: self.surface_id,
            surface_entity: self.surface_entity,
            boarder_width: self.boarder_width,
            is_toplevel: self.is_toplevel,
        }
    }
}

/// The net-state set after adding (`is_add`) or removing `atom`.
pub open spec fn changed_net_state(s: Set<u32>, atom: u32, is_add: bool) -> Set<u32> {
    if is_add {
        s.insert(atom)
    } else {
        s.remove(atom)
    }
}

impl XWindow {
    /// `net_state` holds no atom twice.
    pub open spec fn wf(&self) -> bool {
        self.net_state@.no_duplicates()
    }

    /// The atoms of `_NET_WM_STATE` as a set.
    pub open spec fn net_state_set(&self) -> Set<u32> {
        self.net_state@.to_set()
    }

    /// A window that nothing has been read of yet.
    pub fn new(
        window: u32,
        parent_window: Option<u32>,
        override_redirect: bool,
        is_toplevel: bool,
    ) -> (r: XWindow)
        ensures
            r.wf(),
            r.window == window,
            r.parent_window == parent_window,
            r.override_redirect == override_redirect,
            r.is_toplevel == is_toplevel,
            r.title is None,
            r.class is None,
            r.instance is None,
            r.transient_for is None,
            r.net_state@ == Seq::<u32>::empty(),
            r.motif_hints@ == Seq::<u32>::empty(),
            r.window_type@ == Seq::<u32>::empty(),
            r.surface_id is None,
            r.surface_entity is None,
            r.hints is None,
            r.normal_hints is None,
            r.boarder_width == 0,
    {
        XWindow {
            window,
            parent_window,
            override_redirect,
            title: None,
            class: None,
            instance: None,
            hints: None,
            normal_hints: None,
            transient_for: None,
            net_state: Vec::new(),
            motif_hints: Vec::new(),
            window_type: Vec::new(),
            surface_id: None,
            surface_entity: None,
            boarder_width: 0,
            is_toplevel,
        }
    }

    /// The requests that write the current `_NET_WM_STATE` to the window.
    fn write_net_state(&self) -> (r: Vec<XRequest>)
        ensures
            requests_view(r@) == net_state_write(self.window, self.net_state@),
    {
        let mut out: Vec<XRequest> = Vec::new();
        out.push(XRequest::GrabServer);
        out.push(XRequest::SetNetState { window: self.window, atoms: self.net_state.clone() });
        out.push(XRequest::UngrabServer);
        assert(requests_view(out@) =~= net_state_write(self.window, self.net_state@));
        out
    }

    /// Adds (`is_add`) or removes `atom` from `_NET_WM_STATE`. When the set
    /// changes, gives back the requests that write the new value to the
    /// window with the server grabbed; otherwise none.
    pub fn change_net_state(&mut self, atom: u32, is_add: bool) -> (r: Vec<XRequest>)
        requires
            old(self).wf(),
        ensures
            final(self).wf(),
            final(self).net_state_set() == changed_net_state(
                old(self).net_state_set(),
                atom,
                is_add,
            ),
            final(self)@ == (XWindowView {
                net_state: changed_net_list(old(self)@.net_state, atom, is_add),
                ..old(self)@
            }),
            final(self).net_state_set() != old(self).net_state_set() <==> final(self).net_state@
                != old(self).net_state@,
            requests_view(r@) == if final(self).net_state@ != old(self).net_state@ {
                net_state_write(old(self).window, final(self).net_state@)
            } else {
                Seq::<XRequestView>::empty()
            },
    {
        let mut i: usize = 0;
        let n = self.net_state.len();
        while i < n
            invariant
                n == self.net_state.len(),
                i <= n,
                forall|j: int| 0 <= j < i ==> self.net_state@[j] != atom,
            ensures
                i <= n,
                i < n ==> self.net_state@[i as int] == atom,
                forall|j: int| 0 <= j < i ==> self.net_state@[j] != atom,
            decreases n - i,
        {
            if self.net_state[i] == atom {
                break;
            }
            i = i + 1;
        }
        let present = i < n;
        proof {
            if !present {
                assert(!self.net_state@.contains(atom));
            } else {
                assert(self.net_state@[i as int] == atom);
            }
        }
        if is_add {
            if present {
                assert(old(self).net_state_set().insert(atom) =~= old(self).net_state_set());
                assert(requests_view(Seq::<XRequest>::empty()) =~= Seq::<XRequestView>::empty());
                Vec::new()
            } else {
                let ghost before = self.net_state@;
                self.net_state.push(atom);
                proof {
                    assert(before.push(atom).to_set() =~= before.to_set().insert(atom)) by {
                        assert forall|x: u32| before.push(atom).contains(x) <==> before.to_set().insert(atom).contains(x) by {
                            if before.push(atom).contains(x) {
                                let k = choose|k: int| 0 <= k < before.push(atom).len() && before.push(atom)[k] == x;
                                if k < before.len() {
                                    assert(before.contains(x));
                                }
                            }
                            if x == atom {
                                assert(before.push(atom)[before.len() as int] == atom);
                            } else if before.contains(x) {
                                let k = choose|k: int| 0 <= k < before.len() && before[k] == x;
                                assert(before.push(atom)[k] == x);
                            }
                        }
                    }
                    assert(!before.to_set().contains(atom));
                    assert(before.to_set().insert(atom).contains(atom));
                    assert(self.net_state@.no_duplicates()) by {
                        assert forall|a: int, b: int| 0 <= a < b < self.net_state@.len() implies self.net_state@[a] != self.net_state@[b] by {
                            if b == before.len() {
                                assert(before.contains(before[a]));
                            }
                        }
                    }
                }
                self.write_net_state()
            }
        } else {
            if present {
                let ghost before = self.net_state@;
                self.net_state.remove(i);
                proof {
                    let after = self.net_state@;
                    assert(after =~= before.remove(i as int));
                    assert(after.to_set() =~= before.to_set().remove(atom)) by {
                        assert forall|x: u32| after.contains(x) <==> before.to_set().remove(atom).contains(x) by {
                            if after.contains(x) {
                                let k = choose|k: int| 0 <= k < after.len() && after[k] == x;
                                if k < i {
                                    assert(before[k] == x);
                                } else {
                                    assert(before[k + 1] == x);
                                }
                                assert(before.contains(x));
                                assert(x != atom);
                            }
                            if x != atom && before.contains(x) {
                                let k = choose|k: int| 0 <= k < before.len() && before[k] == x;
                                assert(k != i);
                                if k < i {
                                    assert(after[k] == x);
                                } else {
                                    assert(after[k - 1] == x);
                                }
                            }
                        }
                    }
                    assert(after.no_duplicates()) by {
                        assert forall|a: int, b: int| 0 <= a < b < after.len() implies after[a] != after[b] by {
                            let a2 = if a < i { a } else { a + 1 };
                            let b2 = if b < i { b } else { b + 1 };
                            assert(after[a] == before[a2]);
                            assert(after[b] == before[b2]);
                        }
                    }
                    assert(before.to_set().contains(atom));
                    assert(!after.to_set().contains(atom));
                }
                self.write_net_state()
            } else {
                assert(old(self).net_state_set().remove(atom) =~= old(self).net_state_set());
                assert(requests_view(Seq::<XRequest>::empty()) =~= Seq::<XRequestView>::empty());
                Vec::new()
            }
        }
    }

    /// Applies a `_MOTIF_WM_HINTS` reply: hints of fewer than five values are
    /// ignored, as is a missing property.
    pub fn set_motif_hints(&mut self, hints: Option<Vec<u32>>)
        ensures
            match hints {
                Some(h) => if h@.len() < 5 {
                    final(self).motif_hints == old(self).motif_hints
                } else {
                    final(self).motif_hints@ == h@
                },
                None => final(self).motif_hints == old(self).motif_hints,
            },
            final(self).net_state == old(self).net_state,
            final(self).title == old(self).title,
            final(self).window == old(self).window,
    {
        match hints {
            Some(h) => {
                if h.len() >= 5 {
                    self.motif_hints = h;
                }
            },
            None => {},
        }
    }

    /// Whether the window wants a frame: unless its Motif hints set the
    /// decorations flag (bit 1 of the first value) with no decoration
    /// (third value zero), it does.
    pub open spec fn spec_is_decorated(&self) -> bool {
        !(self.motif_hints@.len() >= 5 && self.motif_hints@[0] & 2 != 0 && self.motif_hints@[2] == 0)
    }

    pub fn is_decorated(&self) -> (r: bool)
        ensures
            r == self.spec_is_decorated(),
    {
        !(self.motif_hints.len() >= 5 && self.motif_hints[0] & 2 != 0 && self.motif_hints[2] == 0)
    }

    /// Applies the replies for `_NET_WM_NAME` and `WM_NAME`: the first text
    /// there is, or the empty string.
    pub fn set_title(&mut self, net_wm_name: Option<String>, wm_name: Option<String>)
        ensures
            final(self).title matches Some(t) && t@ == match net_wm_name {
                Some(s) => s@,
                None => match wm_name {
                    Some(s) => s@,
                    None => Seq::<char>::empty(),
                },
            },
            final(self).net_state == old(self).net_state,
            final(self).motif_hints == old(self).motif_hints,
            final(self).window == old(self).window,
    {
        let title = match net_wm_name {
            Some(s) => s,
            None => match wm_name {
                Some(s) => s,
                None => String::new(),
            },
        };
        self.title = Some(title);
    }

    /// Applies a `WM_CLASS` reply given as its class and instance bytes
    /// (ISO-8859-1); a missing or unreadable property gives empty strings.
    pub fn set_class(&mut self, wm_class: Option<(Vec<u8>, Vec<u8>)>)
        ensures
            final(self).class matches Some(c) && c@ == match wm_class {
                Some(p) => latin1_text(p.0@),
                None => Seq::<char>::empty(),
            },
            final(self).instance matches Some(i) && i@ == match wm_class {
                Some(p) => latin1_text(p.1@),
                None => Seq::<char>::empty(),
            },
            final(self).net_state == old(self).net_state,
            final(self).title == old(self).title,
            final(self).window == old(self).window,
    {
        let (class, instance) = match wm_class {
            Some(p) => {
                let c = match decode_latin1(&p.0) {
                    Some(s) => s,
                    None => String::new(),
                };
                let i = match decode_latin1(&p.1) {
                    Some(s) => s,
                    None => String::new(),
                };
                (c, i)
            },
            None => (String::new(), String::new()),
        };
        self.class = Some(class);
        self.instance = Some(instance);
    }

    /// Applies a `WM_TRANSIENT_FOR` reply: the first value names the parent
    /// window (zero names none), looked up among the display's windows. A
    /// missing property leaves the record as it was.
    pub fn set_transient_for(&mut self, display: &XWaylandDisplay, values: Option<Vec<u32>>)
        ensures
            match values {
                None => final(self).transient_for == old(self).transient_for,
                Some(v) => final(self).transient_for == (
                    if v@.len() > 0 && v@[0] != 0 && display.windows_entitys@.contains_key(v@[0]) {
                        Some(display.windows_entitys@[v@[0]])
                    } else {
                        None
                    }
                ),
            },
            final(self).net_state == old(self).net_state,
            final(self).title == old(self).title,
            final(self).window == old(self).window,
    {
        match values {
            None => {},
            Some(v) => {
                if v.len() > 0 && v[0] != 0 {
                    self.transient_for = match display.find_window(v[0]) {
                        Ok(e) => Some(e),
                        Err(_) => None,
                    };
                } else {
                    self.transient_for = None;
                }
            },
        }
    }

    /// Applies a `WM_HINTS` reply; a missing or unreadable property clears
    /// the hints.
    pub fn set_hints(&mut self, hints: Option<WindowHints>)
        ensures
            final(self)@ == (XWindowView { hints, ..old(self)@ }),
            final(self).wf() == old(self).wf(),
    {
        self.hints = hints;
    }

    /// Applies a `WM_NORMAL_HINTS` reply; a missing or unreadable property
    /// clears the hints.
    pub fn set_normal_hints(&mut self, hints: Option<SizeHints>)
        ensures
            final(self)@ == (XWindowView { normal_hints: hints, ..old(self)@ }),
            final(self).wf() == old(self).wf(),
    {
        self.normal_hints = hints;
    }

    /// Applies a `_NET_WM_WINDOW_TYPE` reply; a missing property clears the list.
    pub fn set_window_type(&mut self, values: Option<Vec<u32>>)
        ensures
            final(self).window_type@ == match values {
                Some(v) => v@,
                None => Seq::<u32>::empty(),
            },
            final(self).net_state == old(self).net_state,
            final(self).title == old(self).title,
            final(self).window == old(self).window,
    {
        self.window_type = match values {
            Some(v) => v,
            None => Vec::new(),
        };
    }
}

/// Adding an atom to `_NET_WM_STATE` and removing it again leaves the set as
/// it was before, provided the atom was not there.
pub proof fn lemma_net_state_add_then_remove(s: Set<u32>, atom: u32)
    requires
        !s.contains(atom),
    ensures
        changed_net_state(changed_net_state(s, atom, true), atom, false) == s,
{
    assert(s.insert(atom).remove(atom) =~= s);
}

/// Changing `_NET_WM_STATE` the same way twice changes nothing the second time.
pub proof fn lemma_net_state_idempotent(s: Set<u32>, atom: u32, is_add: bool)
    ensures
        changed_net_state(changed_net_state(s, atom, is_add), atom, is_add) == changed_net_state(
            s,
            atom,
            is_add,
        ),
{
    assert(changed_net_state(changed_net_state(s, atom, is_add), atom, is_add) =~= changed_net_state(
        s,
        atom,
        is_add,
    ));
}

/// `atom` is an atom from which the window manager reads the property kind
/// `k`.
pub open spec fn names_property(atom: u32, atoms: Atoms, k: PropertyKind) -> bool {
    match k {
        PropertyKind::Title => atom == atoms.net_wm_name || atom == ATOM_WM_NAME,
        PropertyKind::Class => atom == ATOM_WM_CLASS,
        PropertyKind::Protocols => atom == atoms.wm_protocols,
        PropertyKind::Hints => atom == atoms.wm_hints,
        PropertyKind::NormalHints => atom == ATOM_WM_NORMAL_HINTS,
        PropertyKind::TransientFor => atom == ATOM_WM_TRANSIENT_FOR,
        PropertyKind::NetWindowType => atom == atoms.net_wm_window_type,
        PropertyKind::MotifHints => atom == atoms.motif_wm_hints,
    }
}

/// A change of `atom` rereads only a property that is read from that atom;
/// an atom from which some property is read always rereads one; and an atom
/// from which exactly one property kind is read rereads that kind (so a
/// change of `WM_HINTS` rereads the hints, of `WM_NORMAL_HINTS` the size
/// hints, and so on).
pub proof fn lemma_property_of_atom_reads_that_atom(atom: u32, atoms: Atoms, k: PropertyKind)
    ensures
        property_of_atom(atom, atoms) matches Some(j) ==> names_property(atom, atoms, j),
        names_property(atom, atoms, k) ==> property_of_atom(atom, atoms) is Some,
        names_property(atom, atoms, k) && (forall|j: PropertyKind| #[trigger] names_property(atom, atoms, j) ==> j == k)
            ==> property_of_atom(atom, atoms) == Some(k),
{
    if names_property(atom, atoms, k) && (forall|j: PropertyKind| #[trigger] names_property(atom, atoms, j) ==> j == k) {
        match property_of_atom(atom, atoms) {
            Some(j) => {
                assert(names_property(atom, atoms, j));
            },
            None => {},
        }
    }
}

} // verus!
