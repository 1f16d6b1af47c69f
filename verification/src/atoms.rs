//! The atom cache: the numeric identifiers that the display server gave to
//! the property and type names that the control layer uses.
//!
//! The names form a fixed list. A session interns them in the order of that
//! list and builds the cache from the identifiers that came back.

use vstd::prelude::*;

verus! {

/// How many names the cache holds.
pub const ATOM_COUNT: usize = 41;

/// The identifier of each name, under the name itself.
#[allow(non_snake_case)]
#[derive(Debug, Clone, Copy, PartialEq, Eq, Structural)]
pub struct AtomCollection {
    pub _NET_ACTIVE_WINDOW: u32,
    pub _NET_CLIENT_LIST: u32,
    pub _NET_FRAME_EXTENTS: u32,
    pub _NET_MOVERESIZE_WINDOW: u32,
    pub _NET_NUMBER_OF_DESKTOPS: u32,
    pub _NET_SUPPORTED: u32,
    pub _NET_SUPPORTING_WM_CHECK: u32,
    pub _NET_WM_DESKTOP: u32,
    pub _NET_WM_NAME: u32,
    pub _NET_WM_PID: u32,
    pub _NET_WM_STATE: u32,
    pub _NET_WM_STATE_ABOVE: u32,
    pub _NET_WM_STATE_BELOW: u32,
    pub _NET_WM_STATE_DEMANDS_ATTENTION: u32,
    pub _NET_WM_STATE_FOCUSED: u32,
    pub _NET_WM_STATE_FULLSCREEN: u32,
    pub _NET_WM_STATE_HIDDEN: u32,
    pub _NET_WM_STATE_MAXIMIZED_HORZ: u32,
    pub _NET_WM_STATE_MAXIMIZED_VERT: u32,
    pub _NET_WM_STATE_MODAL: u32,
    pub _NET_WM_STATE_SHADED: u32,
    pub _NET_WM_STATE_SKIP_PAGER: u32,
    pub _NET_WM_STATE_SKIP_TASKBAR: u32,
    pub _NET_WM_VISIBLE_NAME: u32,
    pub _NET_WM_WINDOW_TYPE: u32,
    pub _NET_WM_WINDOW_TYPE_COMBO: u32,
    pub _NET_WM_WINDOW_TYPE_DESKTOP: u32,
    pub _NET_WM_WINDOW_TYPE_DIALOG: u32,
    pub _NET_WM_WINDOW_TYPE_DND: u32,
    pub _NET_WM_WINDOW_TYPE_DOCK: u32,
    pub _NET_WM_WINDOW_TYPE_DROPDOWN_MENU: u32,
    pub _NET_WM_WINDOW_TYPE_MENU: u32,
    pub _NET_WM_WINDOW_TYPE_NORMAL: u32,
    pub _NET_WM_WINDOW_TYPE_NOTIFICATION: u32,
    pub _NET_WM_WINDOW_TYPE_POPUP_MENU: u32,
    pub _NET_WM_WINDOW_TYPE_SPLASH: u32,
    pub _NET_WM_WINDOW_TYPE_TOOLBAR: u32,
    pub _NET_WM_WINDOW_TYPE_TOOLTIP: u32,
    pub _NET_WM_WINDOW_TYPE_UTILITY: u32,
    pub _NET_WORKAREA: u32,
    pub UTF8_STRING: u32,
}

/// The name at place `index` of the list, as a sequence of characters.
pub open spec fn atom_name_at(index: int) -> Seq<char> {
    if index == 0 {
        "_NET_ACTIVE_WINDOW"@
    } else if index == 1 {
        "_NET_CLIENT_LIST"@
    } else if index == 2 {
        "_NET_FRAME_EXTENTS"@
    } else if index == 3 {
        "_NET_MOVERESIZE_WINDOW"@
    } else if index == 4 {
        "_NET_NUMBER_OF_DESKTOPS"@
    } else if index == 5 {
        "_NET_SUPPORTED"@
    } else if index == 6 {
        "_NET_SUPPORTING_WM_CHECK"@
    } else if index == 7 {
        "_NET_WM_DESKTOP"@
    } else if index == 8 {
        "_NET_WM_NAME"@
    } else if index == 9 {
        "_NET_WM_PID"@
    } else if index == 10 {
        "_NET_WM_STATE"@
    } else if index == 11 {
        "_NET_WM_STATE_ABOVE"@
    } else if index == 12 {
        "_NET_WM_STATE_BELOW"@
    } else if index == 13 {
        "_NET_WM_STATE_DEMANDS_ATTENTION"@
    } else if index == 14 {
        "_NET_WM_STATE_FOCUSED"@
    } else if index == 15 {
        "_NET_WM_STATE_FULLSCREEN"@
    } else if index == 16 {
        "_NET_WM_STATE_HIDDEN"@
    } else if index == 17 {
        "_NET_WM_STATE_MAXIMIZED_HORZ"@
    } else if index == 18 {
        "_NET_WM_STATE_MAXIMIZED_VERT"@
    } else if index == 19 {
        "_NET_WM_STATE_MODAL"@
    } else if index == 20 {
        "_NET_WM_STATE_SHADED"@
    } else if index == 21 {
        "_NET_WM_STATE_SKIP_PAGER"@
    } else if index == 22 {
        "_NET_WM_STATE_SKIP_TASKBAR"@
    } else if index == 23 {
        "_NET_WM_VISIBLE_NAME"@
    } else if index == 24 {
        "_NET_WM_WINDOW_TYPE"@
    } else if index == 25 {
        "_NET_WM_WINDOW_TYPE_COMBO"@
    } else if index == 26 {
        "_NET_WM_WINDOW_TYPE_DESKTOP"@
    } else if index == 27 {
        "_NET_WM_WINDOW_TYPE_DIALOG"@
    } else if index == 28 {
        "_NET_WM_WINDOW_TYPE_DND"@
    } else if index == 29 {
        "_NET_WM_WINDOW_TYPE_DOCK"@
    } else if index == 30 {
        "_NET_WM_WINDOW_TYPE_DROPDOWN_MENU"@
    } else if index == 31 {
        "_NET_WM_WINDOW_TYPE_MENU"@
    } else if index == 32 {
        "_NET_WM_WINDOW_TYPE_NORMAL"@
    } else if index == 33 {
        "_NET_WM_WINDOW_TYPE_NOTIFICATION"@
    } else if index == 34 {
        "_NET_WM_WINDOW_TYPE_POPUP_MENU"@
    } else if index == 35 {
        "_NET_WM_WINDOW_TYPE_SPLASH"@
    } else if index == 36 {
        "_NET_WM_WINDOW_TYPE_TOOLBAR"@
    } else if index == 37 {
        "_NET_WM_WINDOW_TYPE_TOOLTIP"@
    } else if index == 38 {
        "_NET_WM_WINDOW_TYPE_UTILITY"@
    } else if index == 39 {
        "_NET_WORKAREA"@
    } else {
        "UTF8_STRING"@
    }
}

/// The identifiers of a cache in the order of the list of names.
pub open spec fn atom_ids(atoms: AtomCollection) -> Seq<u32> {
    seq![
        atoms._NET_ACTIVE_WINDOW,
        atoms._NET_CLIENT_LIST,
        atoms._NET_FRAME_EXTENTS,
        atoms._NET_MOVERESIZE_WINDOW,
        atoms._NET_NUMBER_OF_DESKTOPS,
        atoms._NET_SUPPORTED,
        atoms._NET_SUPPORTING_WM_CHECK,
        atoms._NET_WM_DESKTOP,
        atoms._NET_WM_NAME,
        atoms._NET_WM_PID,
        atoms._NET_WM_STATE,
        atoms._NET_WM_STATE_ABOVE,
        atoms._NET_WM_STATE_BELOW,
        atoms._NET_WM_STATE_DEMANDS_ATTENTION,
        atoms._NET_WM_STATE_FOCUSED,
        atoms._NET_WM_STATE_FULLSCREEN,
        atoms._NET_WM_STATE_HIDDEN,
        atoms._NET_WM_STATE_MAXIMIZED_HORZ,
        atoms._NET_WM_STATE_MAXIMIZED_VERT,
        atoms._NET_WM_STATE_MODAL,
        atoms._NET_WM_STATE_SHADED,
        atoms._NET_WM_STATE_SKIP_PAGER,
        atoms._NET_WM_STATE_SKIP_TASKBAR,
        atoms._NET_WM_VISIBLE_NAME,
        atoms._NET_WM_WINDOW_TYPE,
        atoms._NET_WM_WINDOW_TYPE_COMBO,
        atoms._NET_WM_WINDOW_TYPE_DESKTOP,
        atoms._NET_WM_WINDOW_TYPE_DIALOG,
        atoms._NET_WM_WINDOW_TYPE_DND,
        atoms._NET_WM_WINDOW_TYPE_DOCK,
        atoms._NET_WM_WINDOW_TYPE_DROPDOWN_MENU,
        atoms._NET_WM_WINDOW_TYPE_MENU,
        atoms._NET_WM_WINDOW_TYPE_NORMAL,
        atoms._NET_WM_WINDOW_TYPE_NOTIFICATION,
        atoms._NET_WM_WINDOW_TYPE_POPUP_MENU,
        atoms._NET_WM_WINDOW_TYPE_SPLASH,
        atoms._NET_WM_WINDOW_TYPE_TOOLBAR,
        atoms._NET_WM_WINDOW_TYPE_TOOLTIP,
        atoms._NET_WM_WINDOW_TYPE_UTILITY,
        atoms._NET_WORKAREA,
        atoms.UTF8_STRING,
    ]
}

/// The name to intern at place `index`, or `None` past the end of the list.
pub fn atom_name(index: usize) -> (r: Option<&'static str>)
    ensures
        r is Some <==> index < ATOM_COUNT,
        r matches Some(name) ==> name@ == atom_name_at(index as int),
{
    match index {
        0 => Some("_NET_ACTIVE_WINDOW"),
        1 => Some("_NET_CLIENT_LIST"),
        2 => Some("_NET_FRAME_EXTENTS"),
        3 => Some("_NET_MOVERESIZE_WINDOW"),
        4 => Some("_NET_NUMBER_OF_DESKTOPS"),
        5 => Some("_NET_SUPPORTED"),
        6 => Some("_NET_SUPPORTING_WM_CHECK"),
        7 => Some("_NET_WM_DESKTOP"),
        8 => Some("_NET_WM_NAME"),
        9 => Some("_NET_WM_PID"),
        10 => Some("_NET_WM_STATE"),
        11 => Some("_NET_WM_STATE_ABOVE"),
        12 => Some("_NET_WM_STATE_BELOW"),
        13 => Some("_NET_WM_STATE_DEMANDS_ATTENTION"),
        14 => Some("_NET_WM_STATE_FOCUSED"),
        15 => Some("_NET_WM_STATE_FULLSCREEN"),
        16 => Some("_NET_WM_STATE_HIDDEN"),
        17 => Some("_NET_WM_STATE_MAXIMIZED_HORZ"),
        18 => Some("_NET_WM_STATE_MAXIMIZED_VERT"),
        19 => Some("_NET_WM_STATE_MODAL"),
        20 => Some("_NET_WM_STATE_SHADED"),
        21 => Some("_NET_WM_STATE_SKIP_PAGER"),
        22 => Some("_NET_WM_STATE_SKIP_TASKBAR"),
        23 => Some("_NET_WM_VISIBLE_NAME"),
        24 => Some("_NET_WM_WINDOW_TYPE"),
        25 => Some("_NET_WM_WINDOW_TYPE_COMBO"),
        26 => Some("_NET_WM_WINDOW_TYPE_DESKTOP"),
        27 => Some("_NET_WM_WINDOW_TYPE_DIALOG"),
        28 => Some("_NET_WM_WINDOW_TYPE_DND"),
        29 => Some("_NET_WM_WINDOW_TYPE_DOCK"),
        30 => Some("_NET_WM_WINDOW_TYPE_DROPDOWN_MENU"),
        31 => Some("_NET_WM_WINDOW_TYPE_MENU"),
        32 => Some("_NET_WM_WINDOW_TYPE_NORMAL"),
        33 => Some("_NET_WM_WINDOW_TYPE_NOTIFICATION"),
        34 => Some("_NET_WM_WINDOW_TYPE_POPUP_MENU"),
        35 => Some("_NET_WM_WINDOW_TYPE_SPLASH"),
        36 => Some("_NET_WM_WINDOW_TYPE_TOOLBAR"),
        37 => Some("_NET_WM_WINDOW_TYPE_TOOLTIP"),
        38 => Some("_NET_WM_WINDOW_TYPE_UTILITY"),
        39 => Some("_NET_WORKAREA"),
        40 => Some("UTF8_STRING"),
        _ => None,
    }
}

impl AtomCollection {
    /// Builds the cache from the identifiers that interning the names gave, in
    /// the order of the list. Any other number of identifiers gives `None`.
    pub fn from_ids(ids: &Vec<u32>) -> (r: Option<AtomCollection>)
        ensures
            r is Some <==> ids.len() == ATOM_COUNT,
            r matches Some(atoms) ==> atom_ids(atoms) == ids@,
    {
        if ids.len() != ATOM_COUNT {
            return None;
        }
        let atoms = AtomCollection {
            _NET_ACTIVE_WINDOW: ids[0],
            _NET_CLIENT_LIST: ids[1],
            _NET_FRAME_EXTENTS: ids[2],
            _NET_MOVERESIZE_WINDOW: ids[3],
            _NET_NUMBER_OF_DESKTOPS: ids[4],
            _NET_SUPPORTED: ids[5],
            _NET_SUPPORTING_WM_CHECK: ids[6],
            _NET_WM_DESKTOP: ids[7],
            _NET_WM_NAME: ids[8],
            _NET_WM_PID: ids[9],
            _NET_WM_STATE: ids[10],
            _NET_WM_STATE_ABOVE: ids[11],
            _NET_WM_STATE_BELOW: ids[12],
            _NET_WM_STATE_DEMANDS_ATTENTION: ids[13],
            _NET_WM_STATE_FOCUSED: ids[14],
            _NET_WM_STATE_FULLSCREEN: ids[15],
            _NET_WM_STATE_HIDDEN: ids[16],
            _NET_WM_STATE_MAXIMIZED_HORZ: ids[17],
            _NET_WM_STATE_MAXIMIZED_VERT: ids[18],
            _NET_WM_STATE_MODAL: ids[19],
            _NET_WM_STATE_SHADED: ids[20],
            _NET_WM_STATE_SKIP_PAGER: ids[21],
            _NET_WM_STATE_SKIP_TASKBAR: ids[22],
            _NET_WM_VISIBLE_NAME: ids[23],
            _NET_WM_WINDOW_TYPE: ids[24],
            _NET_WM_WINDOW_TYPE_COMBO: ids[25],
            _NET_WM_WINDOW_TYPE_DESKTOP: ids[26],
            _NET_WM_WINDOW_TYPE_DIALOG: ids[27],
            _NET_WM_WINDOW_TYPE_DND: ids[28],
            _NET_WM_WINDOW_TYPE_DOCK: ids[29],
            _NET_WM_WINDOW_TYPE_DROPDOWN_MENU: ids[30],
            _NET_WM_WINDOW_TYPE_MENU: ids[31],
            _NET_WM_WINDOW_TYPE_NORMAL: ids[32],
            _NET_WM_WINDOW_TYPE_NOTIFICATION: ids[33],
            _NET_WM_WINDOW_TYPE_POPUP_MENU: ids[34],
            _NET_WM_WINDOW_TYPE_SPLASH: ids[35],
            _NET_WM_WINDOW_TYPE_TOOLBAR: ids[36],
            _NET_WM_WINDOW_TYPE_TOOLTIP: ids[37],
            _NET_WM_WINDOW_TYPE_UTILITY: ids[38],
            _NET_WORKAREA: ids[39],
            UTF8_STRING: ids[40],
        };
        assert(atom_ids(atoms) =~= ids@);
        Some(atoms)
    }

    /// The identifiers in the order of the list of names.
    pub fn ids(&self) -> (r: Vec<u32>)
        ensures
            r@ == atom_ids(*self),
    {
        let r = vec![
            self._NET_ACTIVE_WINDOW,
            self._NET_CLIENT_LIST,
            self._NET_FRAME_EXTENTS,
            self._NET_MOVERESIZE_WINDOW,
            self._NET_NUMBER_OF_DESKTOPS,
            self._NET_SUPPORTED,
            self._NET_SUPPORTING_WM_CHECK,
            self._NET_WM_DESKTOP,
            self._NET_WM_NAME,
            self._NET_WM_PID,
            self._NET_WM_STATE,
            self._NET_WM_STATE_ABOVE,
            self._NET_WM_STATE_BELOW,
            self._NET_WM_STATE_DEMANDS_ATTENTION,
            self._NET_WM_STATE_FOCUSED,
            self._NET_WM_STATE_FULLSCREEN,
            self._NET_WM_STATE_HIDDEN,
            self._NET_WM_STATE_MAXIMIZED_HORZ,
            self._NET_WM_STATE_MAXIMIZED_VERT,
            self._NET_WM_STATE_MODAL,
            self._NET_WM_STATE_SHADED,
            self._NET_WM_STATE_SKIP_PAGER,
            self._NET_WM_STATE_SKIP_TASKBAR,
            self._NET_WM_VISIBLE_NAME,
            self._NET_WM_WINDOW_TYPE,
            self._NET_WM_WINDOW_TYPE_COMBO,
            self._NET_WM_WINDOW_TYPE_DESKTOP,
            self._NET_WM_WINDOW_TYPE_DIALOG,
            self._NET_WM_WINDOW_TYPE_DND,
            self._NET_WM_WINDOW_TYPE_DOCK,
            self._NET_WM_WINDOW_TYPE_DROPDOWN_MENU,
            self._NET_WM_WINDOW_TYPE_MENU,
            self._NET_WM_WINDOW_TYPE_NORMAL,
            self._NET_WM_WINDOW_TYPE_NOTIFICATION,
            self._NET_WM_WINDOW_TYPE_POPUP_MENU,
            self._NET_WM_WINDOW_TYPE_SPLASH,
            self._NET_WM_WINDOW_TYPE_TOOLBAR,
            self._NET_WM_WINDOW_TYPE_TOOLTIP,
            self._NET_WM_WINDOW_TYPE_UTILITY,
            self._NET_WORKAREA,
            self.UTF8_STRING,
        ];
        assert(r@ =~= atom_ids(*self));
        r
    }
}

/// The atoms that the protocol itself defines and that the control layer
/// uses, under the names that x11rb's `AtomEnum` has for them.
#[derive(Debug, Clone, Copy, PartialEq, Eq, Structural)]
pub enum CoreAtom {
    /// `ATOM`, the type of a property that holds atoms.
    AtomType,
    /// `CARDINAL`, the type of a property that holds numbers.
    Cardinal,
    /// `STRING`, the type of a property that holds text in a one-byte charset.
    Text,
    /// `WINDOW`, the type of a property that holds window ids.
    Window,
    /// `WM_NAME`, the legacy property of a window's title.
    WmName,
    /// `WM_CLASS`, the property of a window's instance and class names.
    WmClass,
}

/// The identifier that the protocol fixes for a core atom.
pub open spec fn core_atom_id(atom: CoreAtom) -> u32 {
    match atom {
        CoreAtom::AtomType => 4,
        CoreAtom::Cardinal => 6,
        CoreAtom::Text => 31,
        CoreAtom::Window => 33,
        CoreAtom::WmName => 39,
        CoreAtom::WmClass => 67,
    }
}

/// The atom that stands for the absence of a type, a property or a window.
pub const NONE: u32 = 0;

/// The constants of `AtomEnum` of x11rb as numbers: `ATOM` is 4, `CARDINAL`
/// is 6, `STRING` is 31, `WINDOW` is 33, `WM_NAME` is 39 and `WM_CLASS` is 67.
#[verifier::external_body]
pub(crate) fn core_atom(atom: CoreAtom) -> (r: u32)
    ensures
        r == core_atom_id(atom),
{
    match atom {
        CoreAtom::AtomType => x11rb::protocol::xproto::AtomEnum::ATOM.into(),
        CoreAtom::Cardinal => x11rb::protocol::xproto::AtomEnum::CARDINAL.into(),
        CoreAtom::Text => x11rb::protocol::xproto::AtomEnum::STRING.into(),
        CoreAtom::Window => x11rb::protocol::xproto::AtomEnum::WINDOW.into(),
        CoreAtom::WmName => x11rb::protocol::xproto::AtomEnum::WM_NAME.into(),
        CoreAtom::WmClass => x11rb::protocol::xproto::AtomEnum::WM_CLASS.into(),
    }
}

/// The constant `NONE` of x11rb, which is zero.
#[verifier::external_body]
pub(crate) fn none_atom() -> (r: u32)
    ensures
        r == NONE,
{
    x11rb::NONE
}

} // verus!
