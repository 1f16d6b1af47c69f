//! The session with a window manager: what the control layer knows once the
//! connection stands, the reads that its queries ask for, the decoding of
//! their replies, and the client messages of its requests.
//!
//! A query comes as a pair: a function whose name ends in `_request` says
//! what to read, and the function without that ending decodes what came back.

use std::collections::HashMap;
use vstd::prelude::*;
use crate::atoms::{core_atom, core_atom_id, none_atom, AtomCollection, CoreAtom, NONE};
use crate::error::{is_not_found, not_found, ErrorWrapper, WindowManagerResult};
use crate::event::{
    deliver, delivery, flags, move_resize_data, ClientMessage, Step, WINDOW_STATE_ACTION_ADD,
    WINDOW_STATE_ACTION_REMOVE,
};
use crate::model::{
    class_of, map_of, state_of, type_of, WinClass, WinMap, WinState, WinType,
};
use crate::property::{
    decoded, decoded_list, first_of, signed, words, GetPropertyResult, PropertyReply,
    PropertyRequest,
};
use crate::text::{decimal, from_utf8, numeral};
use crate::window::Window;
use vstd::utf8::{decode_utf8, valid_utf8};

verus! {

broadcast use vstd::std_specs::hash::group_hash_axioms;

/// The session: the atom cache, what the window manager declared to support,
/// and the sizes of the screen and of its work area. It holds no connection.
pub struct WindowManager {
    atoms: AtomCollection,
    supported: HashMap<u32, bool>,
    screen: usize,
    root: u32,
    width: u32,
    height: u32,
    work_width: u32,
    work_height: u32,
}

/// What a session knows.
pub struct Session {
    pub atoms: AtomCollection,
    /// The atoms of the features that the window manager declared.
    pub supported: Set<u32>,
    pub screen: usize,
    pub root: u32,
    pub width: u32,
    pub height: u32,
    pub work_width: u32,
    pub work_height: u32,
}

impl View for WindowManager {
    type V = Session;

    closed spec fn view(&self) -> Session {
        Session {
            atoms: self.atoms,
            supported: self.supported@.dom(),
            screen: self.screen,
            root: self.root,
            width: self.width,
            height: self.height,
            work_width: self.work_width,
            work_height: self.work_height,
        }
    }
}

/// One of the two statements `p(false)` and `p(true)` holds. A reply is read
/// in the byte order of the machine, which is one of two.
pub open spec fn either(p: spec_fn(bool) -> bool) -> bool {
    p(false) || p(true)
}

/// The width and height of the work area of the first desktop: the third and
/// fourth of the four numbers of its record, each cut to sixteen bits.
pub open spec fn work_area_of(items: Seq<u32>) -> Option<(u16, u16)> {
    if items.len() >= 4 {
        Some(((items[2] % 0x1_0000) as u16, (items[3] % 0x1_0000) as u16))
    } else {
        None
    }
}

/// Whether `r` is what connecting gives when the two replies read as the
/// items `supported` and `area`.
pub open spec fn connected(
    r: WindowManagerResult<WindowManager>,
    screen: usize,
    root: u32,
    width: u16,
    height: u16,
    atoms: AtomCollection,
    supported: Seq<u32>,
    area: Seq<u32>,
) -> bool {
    match work_area_of(area) {
        None => is_not_found(r, "_NET_WORKAREA"@),
        Some((w, h)) => r matches Ok(wm) && wm@ == (Session {
            atoms,
            supported: supported.to_set(),
            screen,
            root,
            width: width as u32,
            height: height as u32,
            work_width: w as u32,
            work_height: h as u32,
        }),
    }
}

/// The cache of supported features: every item, marked as present.
fn supported_cache(items: &Vec<u32>) -> (r: HashMap<u32, bool>)
    ensures
        r@.dom() == items@.to_set(),
{
    let mut cache: HashMap<u32, bool> = HashMap::new();
    let mut i: usize = 0;
    while i < items.len()
        invariant
            i <= items.len(),
            cache@.dom() == items@.take(i as int).to_set(),
        decreases items.len() - i,
    {
        cache.insert(items[i], true);
        proof {
            assert(items@.take(i + 1) == items@.take(i as int).push(items@[i as int]));
            items@.take(i as int).lemma_push_to_set_commute(items@[i as int]);
        }
        i = i + 1;
    }
    assert(items@.take(items.len() as int) == items@);
    cache
}

/// Computes `work_area_of` on the items of a reply.
fn work_area(items: &Vec<u32>) -> (r: Option<(u16, u16)>)
    ensures
        r == work_area_of(items@),
{
    if items.len() >= 4 {
        Some(((items[2] % 0x1_0000) as u16, (items[3] % 0x1_0000) as u16))
    } else {
        None
    }
}

impl WindowManager {
    /// The read of the list of features that the window manager supports.
    pub fn supported_request(atoms: &AtomCollection, root: u32) -> (r: PropertyRequest)
        ensures
            r == PropertyRequest::spec_new(
                root,
                atoms._NET_SUPPORTED,
                core_atom_id(CoreAtom::AtomType),
            ),
    {
        PropertyRequest::new(root, atoms._NET_SUPPORTED, core_atom(CoreAtom::AtomType))
    }

    /// The read of the work areas of the desktops.
    pub fn workarea_request(atoms: &AtomCollection, root: u32) -> (r: PropertyRequest)
        ensures
            r == PropertyRequest::spec_new(
                root,
                atoms._NET_WORKAREA,
                core_atom_id(CoreAtom::Cardinal),
            ),
    {
        PropertyRequest::new(root, atoms._NET_WORKAREA, core_atom(CoreAtom::Cardinal))
    }

    /// Builds the session from what the start of a connection gave: the
    /// number of the default screen, its root window and size in pixels, the
    /// interned atoms, and the outcomes of the reads of the supported
    /// features and of the work area. Either the whole session stands or
    /// none: a failed read fails the session with the failure of the read,
    /// and a reply without the expected items fails it as a property that
    /// was not found.
    pub fn connect(
        screen: usize,
        root: u32,
        width: u16,
        height: u16,
        atoms: AtomCollection,
        supported: GetPropertyResult,
        workarea: GetPropertyResult,
    ) -> (r: WindowManagerResult<WindowManager>)
        ensures
            match supported.boxed {
                Err(e) => r == Err::<WindowManager, ErrorWrapper>(e),
                Ok(features) => if features.format != 32 {
                    is_not_found(r, "_NET_SUPPORTED"@)
                } else {
                    match workarea.boxed {
                        Err(e) => r == Err::<WindowManager, ErrorWrapper>(e),
                        Ok(area) => if area.format != 32 {
                            is_not_found(r, "_NET_WORKAREA"@)
                        } else {
                            either(
                                |f: bool|
                                    either(
                                        |a: bool|
                                            connected(
                                                r,
                                                screen,
                                                root,
                                                width,
                                                height,
                                                atoms,
                                                words(features.value@, f),
                                                words(area.value@, a),
                                            ),
                                    ),
                            )
                        },
                    }
                },
            },
    {
        let features = supported.values("_NET_SUPPORTED")?;
        let cache = supported_cache(&features);
        let area = workarea.values("_NET_WORKAREA")?;
        match work_area(&area) {
            None => Err(not_found("_NET_WORKAREA")),
            Some((w, h)) => Ok(
                WindowManager {
                    atoms,
                    supported: cache,
                    screen,
                    root,
                    width: width as u32,
                    height: height as u32,
                    work_width: w as u32,
                    work_height: h as u32,
                },
            ),
        }
    }

    /// The atom cache.
    pub fn atoms(&self) -> (r: &AtomCollection)
        ensures
            *r == self@.atoms,
    {
        &self.atoms
    }

    /// The number of the default screen.
    pub fn screen(&self) -> (r: usize)
        ensures
            r == self@.screen,
    {
        self.screen
    }

    /// The root window.
    pub fn root(&self) -> (r: u32)
        ensures
            r == self@.root,
    {
        self.root
    }

    /// The width of the screen in pixels.
    pub fn width(&self) -> (r: u32)
        ensures
            r == self@.width,
    {
        self.width
    }

    /// The height of the screen in pixels.
    pub fn height(&self) -> (r: u32)
        ensures
            r == self@.height,
    {
        self.height
    }

    /// The width of the work area: the screen without what panels reserve.
    pub fn work_width(&self) -> (r: u32)
        ensures
            r == self@.work_width,
    {
        self.work_width
    }

    /// The height of the work area.
    pub fn work_height(&self) -> (r: u32)
        ensures
            r == self@.work_height,
    {
        self.work_height
    }

    /// Whether the window manager declared the feature that `atom` names.
    pub fn supported(&self, atom: u32) -> (r: bool)
        ensures
            r == self@.supported.contains(atom),
    {
        self.supported.contains_key(&atom)
    }
}

/// What a window tree query answered.
#[derive(Debug, Clone)]
pub struct TreeReply {
    pub parent: u32,
    pub children: Vec<u32>,
}

/// What a geometry query answered: the place of a window relative to its
/// parent, and its size.
#[derive(Debug, Clone, Copy, PartialEq, Eq, Structural)]
pub struct Geometry {
    pub x: i16,
    pub y: i16,
    pub width: u16,
    pub height: u16,
}

/// The translation of a point from the coordinates of one window to those of
/// another.
#[derive(Debug, Clone, Copy, PartialEq, Eq, Structural)]
pub struct TranslateRequest {
    pub src_window: u32,
    pub dst_window: u32,
    pub src_x: i16,
    pub src_y: i16,
}

/// How the list of windows is obtained.
#[derive(Debug, Clone, Copy, PartialEq, Eq, Structural)]
pub enum WindowsRequest {
    /// Every child of `window` in the window tree.
    Tree { window: u32 },
    /// The list of clients that the window manager keeps in a property.
    Property(PropertyRequest),
}

/// What came back for a `WindowsRequest`.
#[derive(Debug)]
pub enum WindowsReply {
    Tree(TreeReply),
    Property(GetPropertyResult),
}

/// The properties that may hold the name of a window, in the order in which
/// they are tried.
#[derive(Debug, Clone, Copy, PartialEq, Eq, Structural)]
pub enum NameSource {
    /// `_NET_WM_VISIBLE_NAME`, the title as the window manager shows it.
    Visible,
    /// `_NET_WM_NAME`, the title as the application set it.
    Name,
    /// `WM_NAME`, the title of the older convention.
    Legacy,
}

/// How the search for the name of a window goes on.
#[derive(Debug)]
pub enum NameLookup {
    Found(String),
    /// The property that was read holds no name: read this one next.
    Retry(NameSource),
}

/// The property that is tried after `source`, if any.
pub open spec fn next_source(source: NameSource) -> Option<NameSource> {
    match source {
        NameSource::Visible => Some(NameSource::Name),
        NameSource::Name => Some(NameSource::Legacy),
        NameSource::Legacy => None,
    }
}

/// The name that a reply holds: its value as text, where the property exists
/// and the value is valid UTF-8 and not empty.
pub open spec fn name_in(reply: PropertyReply) -> Option<Seq<char>> {
    if reply.type_ != NONE && valid_utf8(reply.value@) && decode_utf8(reply.value@).len() > 0 {
        Some(decode_utf8(reply.value@))
    } else {
        None
    }
}

/// The name that the search ends with when it starts at `source` and each
/// read succeeds with the reply that `replies` gives for its property.
pub open spec fn name_from(source: NameSource, replies: spec_fn(NameSource) -> PropertyReply)
    -> Option<Seq<char>>
    decreases
            match source {
                NameSource::Visible => 2nat,
                NameSource::Name => 1nat,
                NameSource::Legacy => 0nat,
            },
{
    match name_in(replies(source)) {
        Some(name) => Some(name),
        None => match source {
            NameSource::Visible => name_from(NameSource::Name, replies),
            NameSource::Name => name_from(NameSource::Legacy, replies),
            NameSource::Legacy => None,
        },
    }
}

/// The name of a window is the first of the visible name, the name and the
/// legacy name that is there and not empty. So the visible name wins over a
/// name that differs from it, and the legacy name counts only where the two
/// others hold none.
pub proof fn lemma_name_order(replies: spec_fn(NameSource) -> PropertyReply)
    ensures
        name_in(replies(NameSource::Visible)) is Some ==> name_from(NameSource::Visible, replies)
            == name_in(replies(NameSource::Visible)),
        name_in(replies(NameSource::Visible)) is None && name_in(replies(NameSource::Name))
            is Some ==> name_from(NameSource::Visible, replies) == name_in(
            replies(NameSource::Name),
        ),
        name_in(replies(NameSource::Visible)) is None && name_in(replies(NameSource::Name))
            is None ==> name_from(NameSource::Visible, replies) == name_in(
            replies(NameSource::Legacy),
        ),
        name_from(NameSource::Visible, replies) is Some && name_from(
            NameSource::Visible,
            replies,
        ) != name_in(replies(NameSource::Visible)) && name_from(NameSource::Visible, replies)
            != name_in(replies(NameSource::Name)) ==> name_in(replies(NameSource::Visible))
            is None && name_in(replies(NameSource::Name)) is None,
{
    reveal_with_fuel(name_from, 3);
}

/// Where the first zero byte at or after `from` stands, or the length of
/// `bytes` where there is none.
pub open spec fn first_nul(bytes: Seq<u8>, from: int) -> int
    decreases bytes.len() - from,
{
    if from < 0 || from >= bytes.len() {
        bytes.len() as int
    } else if bytes[from] == 0 {
        from
    } else {
        first_nul(bytes, from + 1)
    }
}

/// The second of the zero-terminated strings in `bytes`: what stands between
/// the first zero byte and the next one, or the end.
pub open spec fn second_string(bytes: Seq<u8>) -> Seq<u8> {
    let start = if first_nul(bytes, 0) < bytes.len() {
        first_nul(bytes, 0) + 1
    } else {
        bytes.len() as int
    };
    bytes.subrange(start, first_nul(bytes, start))
}

/// Computes `first_nul`.
pub fn find_nul(bytes: &[u8], from: usize) -> (r: usize)
    requires
        from <= bytes.len(),
    ensures
        r == first_nul(bytes@, from as int),
        from <= r <= bytes.len(),
{
    let mut i: usize = from;
    while i < bytes.len() && bytes[i] != 0
        invariant
            from <= i <= bytes.len(),
            first_nul(bytes@, from as int) == first_nul(bytes@, i as int),
        decreases bytes.len() - i,
    {
        i = i + 1;
    }
    i
}

/// The four border widths of a frame: left, right, top and bottom.
pub open spec fn borders_of(items: Seq<u32>) -> Option<(u32, u32, u32, u32)> {
    if items.len() >= 4 {
        Some((items[0], items[1], items[2], items[3]))
    } else {
        None
    }
}

/// The window type that the first item names.
pub open spec fn kind_in(atoms: AtomCollection, items: Seq<u32>) -> Option<WinType> {
    match first_of(items) {
        Some(v) => Some(type_of(atoms, v)),
        None => None,
    }
}

/// The states that the items name, one for each item and in their order.
pub open spec fn states_in(atoms: AtomCollection, items: Seq<u32>) -> Seq<WinState> {
    items.map_values(|a: u32| state_of(atoms, a))
}

/// The windows with the given ids, one for each id and in their order.
pub open spec fn windows_of(ids: Seq<u32>) -> Seq<Window> {
    ids.map_values(|id: u32| Window { id })
}

/// The name of the selection that a compositing manager owns on the screen
/// with the given number.
pub open spec fn compositor_selection(screen: usize) -> Seq<char> {
    "_NET_WM_CM_S"@ + numeral(screen as nat)
}

/// The windows with the given ids.
pub fn windows_from(ids: &Vec<u32>) -> (r: Vec<Window>)
    ensures
        r@ == windows_of(ids@),
{
    let mut windows: Vec<Window> = Vec::new();
    let mut i: usize = 0;
    while i < ids.len()
        invariant
            i <= ids.len(),
            windows.len() == i,
            forall|k: int| 0 <= k < i ==> windows[k] == (Window { id: ids[k] }),
        decreases ids.len() - i,
    {
        windows.push(Window { id: ids[i] });
        i = i + 1;
    }
    assert(windows@ =~= windows_of(ids@));
    windows
}

impl Session {
    /// The read of the whole of a property of the root window.
    pub open spec fn root_read(self, property: u32, kind: CoreAtom) -> PropertyRequest {
        PropertyRequest::spec_new(self.root, property, core_atom_id(kind))
    }

    /// The request to add or remove the two states that make a window
    /// maximized.
    pub open spec fn state_change(self, win: u32, action: u32) -> ClientMessage {
        ClientMessage {
            format: 32,
            window: win,
            type_: self.atoms._NET_WM_STATE,
            data: [
                action,
                self.atoms._NET_WM_STATE_MAXIMIZED_HORZ,
                self.atoms._NET_WM_STATE_MAXIMIZED_VERT,
                0u32,
                0u32,
            ],
        }
    }

    /// The request to move or resize a window. A value that is absent is
    /// sent as zero, and its bit in the flags is clear.
    pub open spec fn move_resize(
        self,
        win: u32,
        gravity: Option<u32>,
        x: Option<u32>,
        y: Option<u32>,
        w: Option<u32>,
        h: Option<u32>,
    ) -> ClientMessage {
        ClientMessage {
            format: 32,
            window: win,
            type_: self.atoms._NET_MOVERESIZE_WINDOW,
            data: move_resize_data(gravity, x, y, w, h),
        }
    }

    /// The steps that deliver a client message in this session.
    pub open spec fn delivery(self, msg: ClientMessage) -> Seq<Step> {
        delivery(self.root, self.atoms._NET_MOVERESIZE_WINDOW, msg)
    }

    /// The read of the property that `source` stands for.
    pub open spec fn name_read(self, win: u32, source: NameSource) -> PropertyRequest {
        match source {
            NameSource::Visible => PropertyRequest::spec_new(
                win,
                self.atoms._NET_WM_VISIBLE_NAME,
                self.atoms.UTF8_STRING,
            ),
            NameSource::Name => PropertyRequest::spec_new(
                win,
                self.atoms._NET_WM_NAME,
                self.atoms.UTF8_STRING,
            ),
            NameSource::Legacy => PropertyRequest::spec_new(
                win,
                core_atom_id(CoreAtom::WmName),
                core_atom_id(CoreAtom::Text),
            ),
        }
    }
}

impl WindowManager {
    /// The read of the whole of `property` on the window `window_id`.
    pub fn get_window_property(&self, window_id: u32, property: u32, type_: u32) -> (r:
        PropertyRequest)
        ensures
            r == PropertyRequest::spec_new(window_id, property, type_),
    {
        PropertyRequest::new(window_id, property, type_)
    }

    /// The read of the whole of `property` on the root window.
    pub fn get_root_property(&self, property: u32, type_: u32) -> (r: PropertyRequest)
        ensures
            r == PropertyRequest::spec_new(self@.root, property, type_),
    {
        self.get_window_property(self.root, property, type_)
    }

    /// The read of the active window.
    pub fn active_win_request(&self) -> (r: PropertyRequest)
        ensures
            r == self@.root_read(self@.atoms._NET_ACTIVE_WINDOW, CoreAtom::Window),
    {
        self.get_root_property(self.atoms._NET_ACTIVE_WINDOW, core_atom(CoreAtom::Window))
    }

    /// The id of the active window.
    pub fn active_win(&self, reply: GetPropertyResult) -> (r: WindowManagerResult<u32>)
        ensures
            decoded(reply, "_NET_ACTIVE_WINDOW"@, |items: Seq<u32>| first_of(items), r),
    {
        reply.try_into_u32("_NET_ACTIVE_WINDOW")
    }

    /// The name of the selection that a compositing manager owns on the
    /// screen of this session. Its atom is interned, and the owner of the
    /// selection under that atom is asked for.
    pub fn composite_manager_selection(&self) -> (r: String)
        ensures
            r@ == compositor_selection(self@.screen),
    {
        let mut name = "_NET_WM_CM_S".to_owned();
        let number = decimal(self.screen as u64);
        name.append(number.as_str());
        name
    }

    /// Whether a compositing manager runs, given the owner of its selection.
    pub fn composite_manager(&self, owner: u32) -> (r: bool)
        ensures
            r == (owner != NONE),
    {
        owner != none_atom()
    }

    /// The read of the number of desktops.
    pub fn desktops_request(&self) -> (r: PropertyRequest)
        ensures
            r == self@.root_read(self@.atoms._NET_NUMBER_OF_DESKTOPS, CoreAtom::Cardinal),
    {
        self.get_root_property(self.atoms._NET_NUMBER_OF_DESKTOPS, core_atom(CoreAtom::Cardinal))
    }

    /// The number of desktops.
    pub fn desktops(&self, reply: GetPropertyResult) -> (r: WindowManagerResult<u32>)
        ensures
            decoded(reply, "_NET_NUMBER_OF_DESKTOPS"@, |items: Seq<u32>| first_of(items), r),
    {
        reply.try_into_u32("_NET_NUMBER_OF_DESKTOPS")
    }

    /// The steps that deliver `msg`: sent to the root window and flushed, and
    /// for a move/resize request sent and flushed once more after a pause.
    pub fn send_event(&self, msg: ClientMessage) -> (r: Vec<Step>)
        ensures
            r@ == self@.delivery(msg),
    {
        deliver(self.root, self.atoms._NET_MOVERESIZE_WINDOW, msg)
    }

    /// The steps that maximize the window `win` in both directions.
    pub fn maximize_win(&self, win: u32) -> (r: Vec<Step>)
        ensures
            r@ == self@.delivery(self@.state_change(win, WINDOW_STATE_ACTION_ADD)),
    {
        self.send_event(
            ClientMessage::new(
                32,
                win,
                self.atoms._NET_WM_STATE,
                [
                    WINDOW_STATE_ACTION_ADD,
                    self.atoms._NET_WM_STATE_MAXIMIZED_HORZ,
                    self.atoms._NET_WM_STATE_MAXIMIZED_VERT,
                    0,
                    0,
                ],
            ),
        )
    }

    /// The steps that take the maximized states off the window `win`.
    pub fn unmaximize_win(&self, win: u32) -> (r: Vec<Step>)
        ensures
            r@ == self@.delivery(self@.state_change(win, WINDOW_STATE_ACTION_REMOVE)),
    {
        self.send_event(
            ClientMessage::new(
                32,
                win,
                self.atoms._NET_WM_STATE,
                [
                    WINDOW_STATE_ACTION_REMOVE,
                    self.atoms._NET_WM_STATE_MAXIMIZED_HORZ,
                    self.atoms._NET_WM_STATE_MAXIMIZED_VERT,
                    0,
                    0,
                ],
            ),
        )
    }

    /// The steps that move and resize the window `win`. Each of `x`, `y`, `w`
    /// and `h` that is absent stays as it is.
    pub fn move_resize_win(
        &self,
        win: u32,
        gravity: Option<u32>,
        x: Option<u32>,
        y: Option<u32>,
        w: Option<u32>,
        h: Option<u32>,
    ) -> (r: Vec<Step>)
        ensures
            r@ == self@.delivery(self@.move_resize(win, gravity, x, y, w, h)),
    {
        let flags = flags(gravity, x.is_some(), y.is_some(), w.is_some(), h.is_some());
        self.send_event(
            ClientMessage::new(
                32,
                win,
                self.atoms._NET_MOVERESIZE_WINDOW,
                [flags, x.unwrap_or(0), y.unwrap_or(0), w.unwrap_or(0), h.unwrap_or(0)],
            ),
        )
    }

    /// How the list of windows is read: all windows of the tree under the
    /// root when `all` is set, else the clients of the window manager.
    pub fn get_windows_request(&self, all: bool) -> (r: WindowsRequest)
        ensures
            r == if all {
                WindowsRequest::Tree { window: self@.root }
            } else {
                WindowsRequest::Property(
                    self@.root_read(self@.atoms._NET_CLIENT_LIST, CoreAtom::Window),
                )
            },
    {
        if all {
            WindowsRequest::Tree { window: self.root }
        } else {
            WindowsRequest::Property(
                self.get_root_property(self.atoms._NET_CLIENT_LIST, core_atom(CoreAtom::Window)),
            )
        }
    }

    /// The list of windows: every child of the tree as it came, or every id
    /// of the client list as it came. Nothing is left out.
    pub fn get_windows(&self, reply: WindowsReply) -> (r: WindowManagerResult<Vec<Window>>)
        ensures
            match reply {
                WindowsReply::Tree(tree) => r matches Ok(v) && v@ == windows_of(tree.children@),
                WindowsReply::Property(list) => decoded_list(
                    list,
                    "_NET_CLIENT_LIST"@,
                    |items: Seq<u32>| windows_of(items),
                    r,
                ),
            },
    {
        match reply {
            WindowsReply::Tree(tree) => Ok(windows_from(&tree.children)),
            WindowsReply::Property(list) => {
                let ids = list.values("_NET_CLIENT_LIST")?;
                Ok(windows_from(&ids))
            },
        }
    }

    /// The read of the window that the window manager owns to announce
    /// itself.
    pub fn winmgr_request(&self) -> (r: PropertyRequest)
        ensures
            r == self@.root_read(self@.atoms._NET_SUPPORTING_WM_CHECK, CoreAtom::Window),
    {
        self.get_root_property(self.atoms._NET_SUPPORTING_WM_CHECK, core_atom(CoreAtom::Window))
    }

    /// The window that the window manager owns to announce itself. Its name
    /// is the name of the window manager.
    pub fn winmgr(&self, reply: GetPropertyResult) -> (r: WindowManagerResult<u32>)
        ensures
            decoded(reply, "_NET_SUPPORTING_WM_CHECK"@, |items: Seq<u32>| first_of(items), r),
    {
        reply.try_into_u32("_NET_SUPPORTING_WM_CHECK")
    }

    /// The width and height of the work area of the first desktop.
    pub fn workarea(&self, reply: GetPropertyResult) -> (r: WindowManagerResult<(u16, u16)>)
        ensures
            decoded(reply, "_NET_WORKAREA"@, |items: Seq<u32>| work_area_of(items), r),
    {
        let items = reply.values("_NET_WORKAREA")?;
        match work_area(&items) {
            Some(area) => Ok(area),
            None => Err(not_found("_NET_WORKAREA")),
        }
    }

    /// The class and the map state of a window, from the two numbers that
    /// its attributes hold for them.
    pub fn win_attributes(&self, class: u32, map_state: u32) -> (r: WindowManagerResult<
        (WinClass, WinMap),
    >)
        ensures
            match (class_of(class), map_of(map_state)) {
                (Some(c), Some(m)) => r == Ok::<(WinClass, WinMap), ErrorWrapper>((c, m)),
                (Some(c), None) => r == Err::<(WinClass, WinMap), ErrorWrapper>(
                    ErrorWrapper::WindowManager(
                        crate::error::WindowManagerError::InvalidWinMap(map_state),
                    ),
                ),
                (None, _) => r == Err::<(WinClass, WinMap), ErrorWrapper>(
                    ErrorWrapper::WindowManager(
                        crate::error::WindowManagerError::InvalidWinClass(class),
                    ),
                ),
            },
    {
        let c = WinClass::from(class)?;
        let m = WinMap::from(map_state)?;
        Ok((c, m))
    }

    /// The read of the instance and class names of the window `win`.
    pub fn win_class_request(&self, win: u32) -> (r: PropertyRequest)
        ensures
            r == PropertyRequest::spec_new(
                win,
                core_atom_id(CoreAtom::WmClass),
                core_atom_id(CoreAtom::Text),
            ),
    {
        self.get_window_property(win, core_atom(CoreAtom::WmClass), core_atom(CoreAtom::Text))
    }

    /// The class name of a window: the second of the two zero-terminated
    /// strings of the property, as text.
    pub fn win_class(&self, reply: GetPropertyResult) -> (r: WindowManagerResult<String>)
        ensures
            match reply.boxed {
                Err(e) => r == Err::<String, ErrorWrapper>(e),
                Ok(reply) => if valid_utf8(second_string(reply.value@)) {
                    r matches Ok(class) && class@ == decode_utf8(second_string(reply.value@))
                } else {
                    r matches Err(ErrorWrapper::Utf8(_))
                },
            },
    {
        let reply = reply.boxed?;
        let bytes = reply.value.as_slice();
        let first = find_nul(bytes, 0);
        let start = if first < bytes.len() {
            first + 1
        } else {
            bytes.len()
        };
        let end = find_nul(bytes, start);
        let class = vstd::slice::slice_subrange(bytes, start, end);
        match from_utf8(class) {
            Ok(text) => Ok(text.to_owned()),
            Err(e) => Err(ErrorWrapper::Utf8(e)),
        }
    }

    /// The read of the desktop that the window `win` is on.
    pub fn win_desktop_request(&self, win: u32) -> (r: PropertyRequest)
        ensures
            r == PropertyRequest::spec_new(
                win,
                self@.atoms._NET_WM_DESKTOP,
                core_atom_id(CoreAtom::Cardinal),
            ),
    {
        self.get_window_property(win, self.atoms._NET_WM_DESKTOP, core_atom(CoreAtom::Cardinal))
    }

    /// The desktop that a window is on, as a signed number.
    pub fn win_desktop(&self, reply: GetPropertyResult) -> (r: WindowManagerResult<i32>)
        ensures
            decoded(reply, "_NET_WM_DESKTOP"@, |items: Seq<u32>| signed(first_of(items)), r),
    {
        reply.try_into_i32("_NET_WM_DESKTOP")
    }

    /// The read of the widths of the frame around the window `win`.
    pub fn win_borders_request(&self, win: u32) -> (r: PropertyRequest)
        ensures
            r == PropertyRequest::spec_new(
                win,
                self@.atoms._NET_FRAME_EXTENTS,
                core_atom_id(CoreAtom::Cardinal),
            ),
    {
        self.get_window_property(
            win,
            self.atoms._NET_FRAME_EXTENTS,
            core_atom(CoreAtom::Cardinal),
        )
    }

    /// The widths of the frame that the window manager put around a window:
    /// left, right, top and bottom. A reply with fewer than four items is a
    /// property that was not found.
    pub fn win_borders(&self, reply: GetPropertyResult) -> (r: WindowManagerResult<
        (u32, u32, u32, u32),
    >)
        ensures
            decoded(reply, "_NET_FRAME_EXTENTS"@, |items: Seq<u32>| borders_of(items), r),
    {
        let items = reply.values("_NET_FRAME_EXTENTS")?;
        if items.len() >= 4 {
            Ok((items[0], items[1], items[2], items[3]))
        } else {
            Err(not_found("_NET_FRAME_EXTENTS"))
        }
    }

    /// The translation that turns the place of the window `win` relative to
    /// its parent into its place on the screen.
    pub fn translate_request(&self, win: u32, geometry: &Geometry) -> (r: TranslateRequest)
        ensures
            r == (TranslateRequest {
                src_window: win,
                dst_window: self@.root,
                src_x: geometry.x,
                src_y: geometry.y,
            }),
    {
        TranslateRequest {
            src_window: win,
            dst_window: self.root,
            src_x: geometry.x,
            src_y: geometry.y,
        }
    }

    /// The place of a window on the screen and its size: x, y, width and
    /// height. The place is the translated one, never the one relative to
    /// the parent.
    pub fn win_geometry(&self, geometry: &Geometry, dst_x: i16, dst_y: i16) -> (r: (
        i32,
        i32,
        u32,
        u32,
    ))
        ensures
            r == (dst_x as i32, dst_y as i32, geometry.width as u32, geometry.height as u32),
    {
        (dst_x as i32, dst_y as i32, geometry.width as u32, geometry.height as u32)
    }

    /// The property that the search for a name starts with.
    pub fn first_name_source(&self) -> (r: NameSource)
        ensures
            r == NameSource::Visible,
    {
        NameSource::Visible
    }

    /// The read of the property that `source` stands for on the window `win`.
    pub fn win_name_request(&self, win: u32, source: NameSource) -> (r: PropertyRequest)
        ensures
            r == self@.name_read(win, source),
    {
        match source {
            NameSource::Visible => self.get_window_property(
                win,
                self.atoms._NET_WM_VISIBLE_NAME,
                self.atoms.UTF8_STRING,
            ),
            NameSource::Name => self.get_window_property(
                win,
                self.atoms._NET_WM_NAME,
                self.atoms.UTF8_STRING,
            ),
            NameSource::Legacy => self.get_window_property(
                win,
                core_atom(CoreAtom::WmName),
                core_atom(CoreAtom::Text),
            ),
        }
    }

    /// One step of the search for the name of a window: `reply` is what the
    /// read of the property `source` gave. The name is found where the
    /// property exists and holds text that is not empty. Else the next
    /// property is to be read, and after the last one the name was not found.
    /// A failed read ends the search with its failure.
    pub fn win_name(&self, source: NameSource, reply: GetPropertyResult) -> (r:
        WindowManagerResult<NameLookup>)
        ensures
            match reply.boxed {
                Err(e) => r == Err::<NameLookup, ErrorWrapper>(e),
                Ok(reply) => match name_in(reply) {
                    Some(name) => r matches Ok(NameLookup::Found(found)) && found@ == name,
                    None => match next_source(source) {
                        Some(next) => r == Ok::<NameLookup, ErrorWrapper>(
                            NameLookup::Retry(next),
                        ),
                        None => is_not_found(r, "_NET_WM_NAME | _WM_NAME"@),
                    },
                },
            },
    {
        let reply = reply.boxed?;
        if reply.type_ != none_atom() {
            if let Ok(value) = from_utf8(reply.value.as_slice()) {
                if !value.is_empty() {
                    return Ok(NameLookup::Found(value.to_owned()));
                }
            }
        }
        match source {
            NameSource::Visible => Ok(NameLookup::Retry(NameSource::Name)),
            NameSource::Name => Ok(NameLookup::Retry(NameSource::Legacy)),
            NameSource::Legacy => Err(not_found("_NET_WM_NAME | _WM_NAME")),
        }
    }

    /// The parent of a window, from the tree query on that window.
    pub fn win_parent(&self, tree: &TreeReply) -> (r: u32)
        ensures
            r == tree.parent,
    {
        tree.parent
    }

    /// The read of the process id of the window `win`.
    pub fn win_pid_request(&self, win: u32) -> (r: PropertyRequest)
        ensures
            r == PropertyRequest::spec_new(
                win,
                self@.atoms._NET_WM_PID,
                core_atom_id(CoreAtom::Cardinal),
            ),
    {
        self.get_window_property(win, self.atoms._NET_WM_PID, core_atom(CoreAtom::Cardinal))
    }

    /// The id of the process that owns a window, as a signed number.
    pub fn win_pid(&self, reply: GetPropertyResult) -> (r: WindowManagerResult<i32>)
        ensures
            decoded(reply, "_NET_WM_PID"@, |items: Seq<u32>| signed(first_of(items)), r),
    {
        reply.try_into_i32("_NET_WM_PID")
    }

    /// The read of the states of the window `win`.
    pub fn win_state_request(&self, win: u32) -> (r: PropertyRequest)
        ensures
            r == PropertyRequest::spec_new(
                win,
                self@.atoms._NET_WM_STATE,
                core_atom_id(CoreAtom::AtomType),
            ),
    {
        self.get_window_property(win, self.atoms._NET_WM_STATE, core_atom(CoreAtom::AtomType))
    }

    /// The states of a window: one for each atom of the reply, in their
    /// order. An atom without a name and an atom that occurs twice are kept.
    pub fn win_state(&self, reply: GetPropertyResult) -> (r: WindowManagerResult<Vec<WinState>>)
        ensures
            decoded_list(
                reply,
                "_NET_WM_STATE"@,
                |items: Seq<u32>| states_in(self@.atoms, items),
                r,
            ),
    {
        let items = reply.values("_NET_WM_STATE")?;
        let mut states: Vec<WinState> = Vec::new();
        let mut i: usize = 0;
        while i < items.len()
            invariant
                i <= items.len(),
                states.len() == i,
                forall|k: int| 0 <= k < i ==> states[k] == state_of(self.atoms, items[k]),
            decreases items.len() - i,
        {
            states.push(WinState::from(&self.atoms, items[i]));
            i = i + 1;
        }
        assert(states@ =~= states_in(self@.atoms, items@));
        Ok(states)
    }

    /// The read of the type of the window `win`.
    pub fn win_type_request(&self, win: u32) -> (r: PropertyRequest)
        ensures
            r == PropertyRequest::spec_new(
                win,
                self@.atoms._NET_WM_WINDOW_TYPE,
                core_atom_id(CoreAtom::AtomType),
            ),
    {
        self.get_window_property(
            win,
            self.atoms._NET_WM_WINDOW_TYPE,
            core_atom(CoreAtom::AtomType),
        )
    }

    /// The type of a window: what the first atom of the reply stands for.
    pub fn win_type(&self, reply: GetPropertyResult) -> (r: WindowManagerResult<WinType>)
        ensures
            decoded(
                reply,
                "_NET_WM_WINDOW_TYPE"@,
                |items: Seq<u32>| kind_in(self@.atoms, items),
                r,
            ),
    {
        let v = reply.try_into_u32("_NET_WM_WINDOW_TYPE")?;
        Ok(WinType::from(&self.atoms, v))
    }
}

} // verus!
