//! The domain values of the control layer: what a raw protocol integer or a
//! word typed by a user stands for.

use vstd::prelude::*;
use crate::atoms::AtomCollection;
use crate::error::{ErrorWrapper, WindowManagerError, WindowManagerResult};
use crate::text::{lowercase, reads, to_lowercase};

verus! {

/// The anchor that stays in place while a window changes its size. It travels
/// in the low byte of the flags of a move/resize request.
#[derive(Debug, Clone, Copy, PartialEq, Eq, Structural)]
pub enum WinGravity {
    Center,
    /// No anchor of its own: the window manager uses the one of the window.
    Unset,
}

/// Preset places on the work area.
#[derive(Debug, Clone, Copy, PartialEq, Eq, Structural)]
pub enum WinPosition {
    Center,
    Left,
    Right,
    Top,
    Bottom,
    TopLeft,
    TopRight,
    BottomLeft,
    BottomRight,
    LeftCenter,
    RightCenter,
    TopCenter,
    BottomCenter,
}

/// Preset sizes relative to the work area.
#[derive(Debug, Clone, Copy, PartialEq, Eq, Structural)]
pub enum WinShape {
    Grow,
    Max,
    Halfw,
    Halfh,
    Small,
    Medium,
    Large,
    Shrink,
    Square,
    UnMax,
}

/// The class of a window.
#[derive(Debug, Clone, Copy, PartialEq, Eq, Structural)]
pub enum WinClass {
    CopyFromParent,
    InputOnly,
    InputOutput,
}

/// Whether a window is mapped, and whether it can be seen.
#[derive(Debug, Clone, Copy, PartialEq, Eq, Structural)]
pub enum WinMap {
    Unmapped,
    Unviewable,
    Viewable,
}

/// One state of a window. A window has a list of them.
#[derive(Debug, Clone, Copy, PartialEq, Eq, Structural)]
pub enum WinState {
    Above,
    Below,
    DemandsAttention,
    Focused,
    Fullscreen,
    Hidden,
    MaxVert,
    MaxHorz,
    Modal,
    Shaded,
    SkipPager,
    SkipTaskbar,
    /// A state that the control layer has no name for, with its atom.
    Other(u32),
}

/// The kind of a window.
#[derive(Debug, Clone, Copy, PartialEq, Eq, Structural)]
pub enum WinType {
    Combo,
    Desktop,
    Dialog,
    DND,
    Dock,
    DropDownMenu,
    Menu,
    Normal,
    Notification,
    PopupMenu,
    Splash,
    Toolbar,
    ToolTip,
    Utility,
    /// A kind that the control layer has no name for, with its atom.
    Other(u32),
}

/// The number that stands for a gravity in a move/resize request.
pub open spec fn gravity_code(gravity: WinGravity) -> u32 {
    match gravity {
        WinGravity::Center => 5,
        WinGravity::Unset => 0,
    }
}

/// The gravity that a number stands for.
pub open spec fn gravity_of(val: u32) -> WinGravity {
    if val == 5 {
        WinGravity::Center
    } else {
        WinGravity::Unset
    }
}

impl From<u32> for WinGravity {
    fn from(val: u32) -> (r: WinGravity) {
        match val {
            5 => WinGravity::Center,
            _ => WinGravity::Unset,
        }
    }
}

impl vstd::std_specs::convert::FromSpecImpl<u32> for WinGravity {
    open spec fn obeys_from_spec() -> bool {
        true
    }

    open spec fn from_spec(val: u32) -> WinGravity {
        gravity_of(val)
    }
}

impl From<WinGravity> for u32 {
    fn from(val: WinGravity) -> (r: u32) {
        match val {
            WinGravity::Center => 5,
            WinGravity::Unset => 0,
        }
    }
}

impl vstd::std_specs::convert::FromSpecImpl<WinGravity> for u32 {
    open spec fn obeys_from_spec() -> bool {
        true
    }

    open spec fn from_spec(val: WinGravity) -> u32 {
        gravity_code(val)
    }
}

/// A gravity is found again from its number.
pub proof fn lemma_gravity_round_trip(gravity: WinGravity)
    ensures
        gravity_of(gravity_code(gravity)) == gravity,
{
}

impl WinGravity {
    /// The name of the value in lower case.
    pub open spec fn name(self) -> Seq<char> {
        match self {
            WinGravity::Center => "center"@,
            WinGravity::Unset => "none"@,
        }
    }

    /// The name of the value in lower case.
    pub fn to_string(&self) -> (r: String)
        ensures
            r@ == self.name(),
    {
        match self {
            WinGravity::Center => "center".to_owned(),
            WinGravity::Unset => "none".to_owned(),
        }
    }
}

/// The position that a word in lower case names.
pub open spec fn position_named(word: Seq<char>) -> Option<WinPosition> {
    if word == "center"@ {
        Some(WinPosition::Center)
    } else if word == "left"@ {
        Some(WinPosition::Left)
    } else if word == "right"@ {
        Some(WinPosition::Right)
    } else if word == "top"@ {
        Some(WinPosition::Top)
    } else if word == "bottom"@ {
        Some(WinPosition::Bottom)
    } else if word == "top-left"@ {
        Some(WinPosition::TopLeft)
    } else if word == "top-right"@ {
        Some(WinPosition::TopRight)
    } else if word == "bottom-left"@ {
        Some(WinPosition::BottomLeft)
    } else if word == "bottom-right"@ {
        Some(WinPosition::BottomRight)
    } else if word == "left-center"@ {
        Some(WinPosition::LeftCenter)
    } else if word == "right-center"@ {
        Some(WinPosition::RightCenter)
    } else if word == "top-center"@ {
        Some(WinPosition::TopCenter)
    } else if word == "bottom-center"@ {
        Some(WinPosition::BottomCenter)
    } else {
        None
    }
}

/// The shape that a word in lower case names.
pub open spec fn shape_named(word: Seq<char>) -> Option<WinShape> {
    if word == "grow"@ {
        Some(WinShape::Grow)
    } else if word == "max"@ {
        Some(WinShape::Max)
    } else if word == "halfw"@ {
        Some(WinShape::Halfw)
    } else if word == "halfh"@ {
        Some(WinShape::Halfh)
    } else if word == "small"@ {
        Some(WinShape::Small)
    } else if word == "medium"@ {
        Some(WinShape::Medium)
    } else if word == "large"@ {
        Some(WinShape::Large)
    } else if word == "shrink"@ {
        Some(WinShape::Shrink)
    } else if word == "unmax"@ {
        Some(WinShape::UnMax)
    } else {
        None
    }
}

/// Whether `result` is what looking up a position gives: the position that
/// `found` holds, or the refusal of the word `given`.
pub open spec fn position_result(
    result: Result<WinPosition, WindowManagerError>,
    found: Option<WinPosition>,
    given: Seq<char>,
) -> bool {
    match found {
        Some(p) => result == Ok::<WinPosition, WindowManagerError>(p),
        None => result matches Err(WindowManagerError::InvalidWinPosition(s)) && s@ == given,
    }
}

/// Whether `result` is what looking up a shape gives: the shape that `found`
/// holds, or the refusal of the word `given`.
pub open spec fn shape_result(
    result: Result<WinShape, WindowManagerError>,
    found: Option<WinShape>,
    given: Seq<char>,
) -> bool {
    match found {
        Some(p) => result == Ok::<WinShape, WindowManagerError>(p),
        None => result matches Err(WindowManagerError::InvalidWinShape(s)) && s@ == given,
    }
}

impl WinPosition {
    /// The position that `val` names, whatever the case of its letters.
    pub fn try_from(val: &str) -> (r: Result<WinPosition, WindowManagerError>)
        ensures
            position_result(r, position_named(lowercase(val@)), val@),
    {
        let lower = to_lowercase(val);
        WinPosition::from_lowercase(lower.as_str(), val)
    }

    /// The position that `lower` names as it stands. A word that names none
    /// is refused under the spelling `given`.
    pub fn from_lowercase(lower: &str, given: &str) -> (r: Result<WinPosition, WindowManagerError>)
        ensures
            position_result(r, position_named(lower@), given@),
    {
        if reads(lower, "center") {
            Ok(WinPosition::Center)
        } else if reads(lower, "left") {
            Ok(WinPosition::Left)
        } else if reads(lower, "right") {
            Ok(WinPosition::Right)
        } else if reads(lower, "top") {
            Ok(WinPosition::Top)
        } else if reads(lower, "bottom") {
            Ok(WinPosition::Bottom)
        } else if reads(lower, "top-left") {
            Ok(WinPosition::TopLeft)
        } else if reads(lower, "top-right") {
            Ok(WinPosition::TopRight)
        } else if reads(lower, "bottom-left") {
            Ok(WinPosition::BottomLeft)
        } else if reads(lower, "bottom-right") {
            Ok(WinPosition::BottomRight)
        } else if reads(lower, "left-center") {
            Ok(WinPosition::LeftCenter)
        } else if reads(lower, "right-center") {
            Ok(WinPosition::RightCenter)
        } else if reads(lower, "top-center") {
            Ok(WinPosition::TopCenter)
        } else if reads(lower, "bottom-center") {
            Ok(WinPosition::BottomCenter)
        } else {
            Err(WindowManagerError::InvalidWinPosition(given.to_owned()))
        }
    }
}

impl WinShape {
    /// The shape that `val` names, whatever the case of its letters.
    pub fn try_from(val: &str) -> (r: Result<WinShape, WindowManagerError>)
        ensures
            shape_result(r, shape_named(lowercase(val@)), val@),
    {
        let lower = to_lowercase(val);
        WinShape::from_lowercase(lower.as_str(), val)
    }

    /// The shape that `lower` names as it stands. A word that names none is
    /// refused under the spelling `given`.
    pub fn from_lowercase(lower: &str, given: &str) -> (r: Result<WinShape, WindowManagerError>)
        ensures
            shape_result(r, shape_named(lower@), given@),
    {
        if reads(lower, "grow") {
            Ok(WinShape::Grow)
        } else if reads(lower, "max") {
            Ok(WinShape::Max)
        } else if reads(lower, "halfw") {
            Ok(WinShape::Halfw)
        } else if reads(lower, "halfh") {
            Ok(WinShape::Halfh)
        } else if reads(lower, "small") {
            Ok(WinShape::Small)
        } else if reads(lower, "medium") {
            Ok(WinShape::Medium)
        } else if reads(lower, "large") {
            Ok(WinShape::Large)
        } else if reads(lower, "shrink") {
            Ok(WinShape::Shrink)
        } else if reads(lower, "unmax") {
            Ok(WinShape::UnMax)
        } else {
            Err(WindowManagerError::InvalidWinShape(given.to_owned()))
        }
    }
}

impl WinPosition {
    /// The name of the value in lower case.
    pub open spec fn name(self) -> Seq<char> {
        match self {
            WinPosition::Center => "center"@,
            WinPosition::Left => "left"@,
            WinPosition::Right => "right"@,
            WinPosition::Top => "top"@,
            WinPosition::Bottom => "bottom"@,
            WinPosition::TopLeft => "topleft"@,
            WinPosition::TopRight => "topright"@,
            WinPosition::BottomLeft => "bottomleft"@,
            WinPosition::BottomRight => "bottomright"@,
            WinPosition::LeftCenter => "leftcenter"@,
            WinPosition::RightCenter => "rightcenter"@,
            WinPosition::TopCenter => "topcenter"@,
            WinPosition::BottomCenter => "bottomcenter"@,
        }
    }

    /// The name of the value in lower case.
    pub fn to_string(&self) -> (r: String)
        ensures
            r@ == self.name(),
    {
        match self {
            WinPosition::Center => "center".to_owned(),
            WinPosition::Left => "left".to_owned(),
            WinPosition::Right => "right".to_owned(),
            WinPosition::Top => "top".to_owned(),
            WinPosition::Bottom => "bottom".to_owned(),
            WinPosition::TopLeft => "topleft".to_owned(),
            WinPosition::TopRight => "topright".to_owned(),
            WinPosition::BottomLeft => "bottomleft".to_owned(),
            WinPosition::BottomRight => "bottomright".to_owned(),
            WinPosition::LeftCenter => "leftcenter".to_owned(),
            WinPosition::RightCenter => "rightcenter".to_owned(),
            WinPosition::TopCenter => "topcenter".to_owned(),
            WinPosition::BottomCenter => "bottomcenter".to_owned(),
        }
    }
}

impl WinShape {
    /// The name of the value in lower case.
    pub open spec fn name(self) -> Seq<char> {
        match self {
            WinShape::Grow => "grow"@,
            WinShape::Max => "max"@,
            WinShape::Halfw => "halfw"@,
            WinShape::Halfh => "halfh"@,
            WinShape::Small => "small"@,
            WinShape::Medium => "medium"@,
            WinShape::Large => "large"@,
            WinShape::Shrink => "shrink"@,
            WinShape::Square => "square"@,
            WinShape::UnMax => "unmax"@,
        }
    }

    /// The name of the value in lower case.
    pub fn to_string(&self) -> (r: String)
        ensures
            r@ == self.name(),
    {
        match self {
            WinShape::Grow => "grow".to_owned(),
            WinShape::Max => "max".to_owned(),
            WinShape::Halfw => "halfw".to_owned(),
            WinShape::Halfh => "halfh".to_owned(),
            WinShape::Small => "small".to_owned(),
            WinShape::Medium => "medium".to_owned(),
            WinShape::Large => "large".to_owned(),
            WinShape::Shrink => "shrink".to_owned(),
            WinShape::Square => "square".to_owned(),
            WinShape::UnMax => "unmax".to_owned(),
        }
    }
}

impl WinClass {
    /// The name of the value in lower case.
    pub open spec fn name(self) -> Seq<char> {
        match self {
            WinClass::CopyFromParent => "copyfromparent"@,
            WinClass::InputOnly => "inputonly"@,
            WinClass::InputOutput => "inputoutput"@,
        }
    }

    /// The name of the value in lower case.
    pub fn to_string(&self) -> (r: String)
        ensures
            r@ == self.name(),
    {
        match self {
            WinClass::CopyFromParent => "copyfromparent".to_owned(),
            WinClass::InputOnly => "inputonly".to_owned(),
            WinClass::InputOutput => "inputoutput".to_owned(),
        }
    }
}

impl WinMap {
    /// The name of the value in lower case.
    pub open spec fn name(self) -> Seq<char> {
        match self {
            WinMap::Unmapped => "unmapped"@,
            WinMap::Unviewable => "unviewable"@,
            WinMap::Viewable => "viewable"@,
        }
    }

    /// The name of the value in lower case.
    pub fn to_string(&self) -> (r: String)
        ensures
            r@ == self.name(),
    {
        match self {
            WinMap::Unmapped => "unmapped".to_owned(),
            WinMap::Unviewable => "unviewable".to_owned(),
            WinMap::Viewable => "viewable".to_owned(),
        }
    }
}

impl WinState {
    /// The name of the value in lower case.
    pub open spec fn name(self) -> Seq<char> {
        match self {
            WinState::Above => "above"@,
            WinState::Below => "below"@,
            WinState::DemandsAttention => "demandsattention"@,
            WinState::Focused => "focused"@,
            WinState::Fullscreen => "fullscreen"@,
            WinState::Hidden => "hidden"@,
            WinState::MaxVert => "maxvert"@,
            WinState::MaxHorz => "maxhorz"@,
            WinState::Modal => "modal"@,
            WinState::Shaded => "shaded"@,
            WinState::SkipPager => "skippager"@,
            WinState::SkipTaskbar => "skiptaskbar"@,
            WinState::Other(_) => Seq::<char>::empty(),
        }
    }

    /// The name of the value in lower case.
    pub fn to_string(&self) -> (r: String)
        ensures
            r@ == self.name(),
    {
        match self {
            WinState::Above => "above".to_owned(),
            WinState::Below => "below".to_owned(),
            WinState::DemandsAttention => "demandsattention".to_owned(),
            WinState::Focused => "focused".to_owned(),
            WinState::Fullscreen => "fullscreen".to_owned(),
            WinState::Hidden => "hidden".to_owned(),
            WinState::MaxVert => "maxvert".to_owned(),
            WinState::MaxHorz => "maxhorz".to_owned(),
            WinState::Modal => "modal".to_owned(),
            WinState::Shaded => "shaded".to_owned(),
            WinState::SkipPager => "skippager".to_owned(),
            WinState::SkipTaskbar => "skiptaskbar".to_owned(),
            WinState::Other(_) => String::new(),
        }
    }
}

impl WinType {
    /// The name of the value in lower case.
    pub open spec fn name(self) -> Seq<char> {
        match self {
            WinType::Combo => "combo"@,
            WinType::Desktop => "desktop"@,
            WinType::Dialog => "dialog"@,
            WinType::DND => "dnd"@,
            WinType::Dock => "dock"@,
            WinType::DropDownMenu => "dropdownmenu"@,
            WinType::Menu => "menu"@,
            WinType::Normal => "normal"@,
            WinType::Notification => "notification"@,
            WinType::PopupMenu => "popupmenu"@,
            WinType::Splash => "splash"@,
            WinType::Toolbar => "toolbar"@,
            WinType::ToolTip => "tooltip"@,
            WinType::Utility => "utility"@,
            WinType::Other(_) => Seq::<char>::empty(),
        }
    }

    /// The name of the value in lower case.
    pub fn to_string(&self) -> (r: String)
        ensures
            r@ == self.name(),
    {
        match self {
            WinType::Combo => "combo".to_owned(),
            WinType::Desktop => "desktop".to_owned(),
            WinType::Dialog => "dialog".to_owned(),
            WinType::DND => "dnd".to_owned(),
            WinType::Dock => "dock".to_owned(),
            WinType::DropDownMenu => "dropdownmenu".to_owned(),
            WinType::Menu => "menu".to_owned(),
            WinType::Normal => "normal".to_owned(),
            WinType::Notification => "notification".to_owned(),
            WinType::PopupMenu => "popupmenu".to_owned(),
            WinType::Splash => "splash".to_owned(),
            WinType::Toolbar => "toolbar".to_owned(),
            WinType::ToolTip => "tooltip".to_owned(),
            WinType::Utility => "utility".to_owned(),
            WinType::Other(_) => String::new(),
        }
    }
}

/// The number that the protocol has for a window class.
pub open spec fn class_code(class: WinClass) -> u32 {
    match class {
        WinClass::CopyFromParent => 0,
        WinClass::InputOutput => 1,
        WinClass::InputOnly => 2,
    }
}

/// The number that the protocol has for a map state.
pub open spec fn map_code(map: WinMap) -> u32 {
    match map {
        WinMap::Unmapped => 0,
        WinMap::Unviewable => 1,
        WinMap::Viewable => 2,
    }
}

/// The window class that a number stands for, if any.
pub open spec fn class_of(val: u32) -> Option<WinClass> {
    if val == class_code(WinClass::CopyFromParent) {
        Some(WinClass::CopyFromParent)
    } else if val == class_code(WinClass::InputOnly) {
        Some(WinClass::InputOnly)
    } else if val == class_code(WinClass::InputOutput) {
        Some(WinClass::InputOutput)
    } else {
        None
    }
}

/// The map state that a number stands for, if any.
pub open spec fn map_of(val: u32) -> Option<WinMap> {
    if val == map_code(WinMap::Unmapped) {
        Some(WinMap::Unmapped)
    } else if val == map_code(WinMap::Unviewable) {
        Some(WinMap::Unviewable)
    } else if val == map_code(WinMap::Viewable) {
        Some(WinMap::Viewable)
    } else {
        None
    }
}

/// The constants of `WindowClass` of x11rb as numbers: `COPY_FROM_PARENT` is
/// 0, `INPUT_OUTPUT` is 1 and `INPUT_ONLY` is 2.
#[verifier::external_body]
fn window_class_code(class: WinClass) -> (r: u32)
    ensures
        r == class_code(class),
{
    match class {
        WinClass::CopyFromParent => x11rb::protocol::xproto::WindowClass::COPY_FROM_PARENT.into(),
        WinClass::InputOnly => x11rb::protocol::xproto::WindowClass::INPUT_ONLY.into(),
        WinClass::InputOutput => x11rb::protocol::xproto::WindowClass::INPUT_OUTPUT.into(),
    }
}

/// The constants of `MapState` of x11rb as numbers: `UNMAPPED` is 0,
/// `UNVIEWABLE` is 1 and `VIEWABLE` is 2.
#[verifier::external_body]
fn map_state_code(map: WinMap) -> (r: u32)
    ensures
        r == map_code(map),
{
    match map {
        WinMap::Unmapped => x11rb::protocol::xproto::MapState::UNMAPPED.into(),
        WinMap::Unviewable => x11rb::protocol::xproto::MapState::UNVIEWABLE.into(),
        WinMap::Viewable => x11rb::protocol::xproto::MapState::VIEWABLE.into(),
    }
}

impl WinClass {
    /// The window class that `val` stands for. Any other number is refused
    /// with the number itself.
    pub fn from(val: u32) -> (r: WindowManagerResult<WinClass>)
        ensures
            match class_of(val) {
                Some(class) => r == Ok::<WinClass, ErrorWrapper>(class),
                None => r == Err::<WinClass, ErrorWrapper>(
                    ErrorWrapper::WindowManager(WindowManagerError::InvalidWinClass(val)),
                ),
            },
    {
        if val == window_class_code(WinClass::CopyFromParent) {
            Ok(WinClass::CopyFromParent)
        } else if val == window_class_code(WinClass::InputOnly) {
            Ok(WinClass::InputOnly)
        } else if val == window_class_code(WinClass::InputOutput) {
            Ok(WinClass::InputOutput)
        } else {
            Err(ErrorWrapper::WindowManager(WindowManagerError::InvalidWinClass(val)))
        }
    }
}

impl WinMap {
    /// The map state that `val` stands for. Any other number is refused with
    /// the number itself.
    pub fn from(val: u32) -> (r: WindowManagerResult<WinMap>)
        ensures
            match map_of(val) {
                Some(map) => r == Ok::<WinMap, ErrorWrapper>(map),
                None => r == Err::<WinMap, ErrorWrapper>(
                    ErrorWrapper::WindowManager(WindowManagerError::InvalidWinMap(val)),
                ),
            },
    {
        if val == map_state_code(WinMap::Unmapped) {
            Ok(WinMap::Unmapped)
        } else if val == map_state_code(WinMap::Unviewable) {
            Ok(WinMap::Unviewable)
        } else if val == map_state_code(WinMap::Viewable) {
            Ok(WinMap::Viewable)
        } else {
            Err(ErrorWrapper::WindowManager(WindowManagerError::InvalidWinMap(val)))
        }
    }
}

/// A window class and a map state are found again from their numbers.
pub proof fn lemma_class_and_map_round_trip(class: WinClass, map: WinMap)
    ensures
        class_of(class_code(class)) == Some(class),
        map_of(map_code(map)) == Some(map),
{
}

/// The state that the atom `val` stands for under the cache `atoms`: the
/// first named state whose atom it is, else `Other` with the atom itself.
pub open spec fn state_of(atoms: AtomCollection, val: u32) -> WinState {
    if val == atoms._NET_WM_STATE_ABOVE {
        WinState::Above
    } else if val == atoms._NET_WM_STATE_BELOW {
        WinState::Below
    } else if val == atoms._NET_WM_STATE_DEMANDS_ATTENTION {
        WinState::DemandsAttention
    } else if val == atoms._NET_WM_STATE_FOCUSED {
        WinState::Focused
    } else if val == atoms._NET_WM_STATE_FULLSCREEN {
        WinState::Fullscreen
    } else if val == atoms._NET_WM_STATE_HIDDEN {
        WinState::Hidden
    } else if val == atoms._NET_WM_STATE_MAXIMIZED_VERT {
        WinState::MaxVert
    } else if val == atoms._NET_WM_STATE_MAXIMIZED_HORZ {
        WinState::MaxHorz
    } else if val == atoms._NET_WM_STATE_MODAL {
        WinState::Modal
    } else if val == atoms._NET_WM_STATE_SHADED {
        WinState::Shaded
    } else if val == atoms._NET_WM_STATE_SKIP_PAGER {
        WinState::SkipPager
    } else if val == atoms._NET_WM_STATE_SKIP_TASKBAR {
        WinState::SkipTaskbar
    } else {
        WinState::Other(val)
    }
}

/// The atom of a state under the cache `atoms`.
pub open spec fn state_atom(atoms: AtomCollection, state: WinState) -> u32 {
    match state {
        WinState::Above => atoms._NET_WM_STATE_ABOVE,
        WinState::Below => atoms._NET_WM_STATE_BELOW,
        WinState::DemandsAttention => atoms._NET_WM_STATE_DEMANDS_ATTENTION,
        WinState::Focused => atoms._NET_WM_STATE_FOCUSED,
        WinState::Fullscreen => atoms._NET_WM_STATE_FULLSCREEN,
        WinState::Hidden => atoms._NET_WM_STATE_HIDDEN,
        WinState::MaxVert => atoms._NET_WM_STATE_MAXIMIZED_VERT,
        WinState::MaxHorz => atoms._NET_WM_STATE_MAXIMIZED_HORZ,
        WinState::Modal => atoms._NET_WM_STATE_MODAL,
        WinState::Shaded => atoms._NET_WM_STATE_SHADED,
        WinState::SkipPager => atoms._NET_WM_STATE_SKIP_PAGER,
        WinState::SkipTaskbar => atoms._NET_WM_STATE_SKIP_TASKBAR,
        WinState::Other(val) => val,
    }
}

/// Whether `val` is the atom of one of the named states.
pub open spec fn is_state_atom(atoms: AtomCollection, val: u32) -> bool {
    val == atoms._NET_WM_STATE_ABOVE
        || val == atoms._NET_WM_STATE_BELOW
        || val == atoms._NET_WM_STATE_DEMANDS_ATTENTION
        || val == atoms._NET_WM_STATE_FOCUSED
        || val == atoms._NET_WM_STATE_FULLSCREEN
        || val == atoms._NET_WM_STATE_HIDDEN
        || val == atoms._NET_WM_STATE_MAXIMIZED_VERT
        || val == atoms._NET_WM_STATE_MAXIMIZED_HORZ
        || val == atoms._NET_WM_STATE_MODAL
        || val == atoms._NET_WM_STATE_SHADED
        || val == atoms._NET_WM_STATE_SKIP_PAGER
        || val == atoms._NET_WM_STATE_SKIP_TASKBAR
}

/// The window type that the atom `val` stands for under the cache `atoms`:
/// the first named type whose atom it is, else `Other` with the atom itself.
pub open spec fn type_of(atoms: AtomCollection, val: u32) -> WinType {
    if val == atoms._NET_WM_WINDOW_TYPE_COMBO {
        WinType::Combo
    } else if val == atoms._NET_WM_WINDOW_TYPE_DESKTOP {
        WinType::Desktop
    } else if val == atoms._NET_WM_WINDOW_TYPE_DIALOG {
        WinType::Dialog
    } else if val == atoms._NET_WM_WINDOW_TYPE_DND {
        WinType::DND
    } else if val == atoms._NET_WM_WINDOW_TYPE_DOCK {
        WinType::Dock
    } else if val == atoms._NET_WM_WINDOW_TYPE_DROPDOWN_MENU {
        WinType::DropDownMenu
    } else if val == atoms._NET_WM_WINDOW_TYPE_MENU {
        WinType::Menu
    } else if val == atoms._NET_WM_WINDOW_TYPE_NORMAL {
        WinType::Normal
    } else if val == atoms._NET_WM_WINDOW_TYPE_NOTIFICATION {
        WinType::Notification
    } else if val == atoms._NET_WM_WINDOW_TYPE_POPUP_MENU {
        WinType::PopupMenu
    } else if val == atoms._NET_WM_WINDOW_TYPE_SPLASH {
        WinType::Splash
    } else if val == atoms._NET_WM_WINDOW_TYPE_TOOLBAR {
        WinType::Toolbar
    } else if val == atoms._NET_WM_WINDOW_TYPE_TOOLTIP {
        WinType::ToolTip
    } else if val == atoms._NET_WM_WINDOW_TYPE_UTILITY {
        WinType::Utility
    } else {
        WinType::Other(val)
    }
}

/// The atom of a window type under the cache `atoms`.
pub open spec fn type_atom(atoms: AtomCollection, kind: WinType) -> u32 {
    match kind {
        WinType::Combo => atoms._NET_WM_WINDOW_TYPE_COMBO,
        WinType::Desktop => atoms._NET_WM_WINDOW_TYPE_DESKTOP,
        WinType::Dialog => atoms._NET_WM_WINDOW_TYPE_DIALOG,
        WinType::DND => atoms._NET_WM_WINDOW_TYPE_DND,
        WinType::Dock => atoms._NET_WM_WINDOW_TYPE_DOCK,
        WinType::DropDownMenu => atoms._NET_WM_WINDOW_TYPE_DROPDOWN_MENU,
        WinType::Menu => atoms._NET_WM_WINDOW_TYPE_MENU,
        WinType::Normal => atoms._NET_WM_WINDOW_TYPE_NORMAL,
        WinType::Notification => atoms._NET_WM_WINDOW_TYPE_NOTIFICATION,
        WinType::PopupMenu => atoms._NET_WM_WINDOW_TYPE_POPUP_MENU,
        WinType::Splash => atoms._NET_WM_WINDOW_TYPE_SPLASH,
        WinType::Toolbar => atoms._NET_WM_WINDOW_TYPE_TOOLBAR,
        WinType::ToolTip => atoms._NET_WM_WINDOW_TYPE_TOOLTIP,
        WinType::Utility => atoms._NET_WM_WINDOW_TYPE_UTILITY,
        WinType::Other(val) => val,
    }
}

/// Whether `val` is the atom of one of the named window types.
pub open spec fn is_type_atom(atoms: AtomCollection, val: u32) -> bool {
    val == atoms._NET_WM_WINDOW_TYPE_COMBO
        || val == atoms._NET_WM_WINDOW_TYPE_DESKTOP
        || val == atoms._NET_WM_WINDOW_TYPE_DIALOG
        || val == atoms._NET_WM_WINDOW_TYPE_DND
        || val == atoms._NET_WM_WINDOW_TYPE_DOCK
        || val == atoms._NET_WM_WINDOW_TYPE_DROPDOWN_MENU
        || val == atoms._NET_WM_WINDOW_TYPE_MENU
        || val == atoms._NET_WM_WINDOW_TYPE_NORMAL
        || val == atoms._NET_WM_WINDOW_TYPE_NOTIFICATION
        || val == atoms._NET_WM_WINDOW_TYPE_POPUP_MENU
        || val == atoms._NET_WM_WINDOW_TYPE_SPLASH
        || val == atoms._NET_WM_WINDOW_TYPE_TOOLBAR
        || val == atoms._NET_WM_WINDOW_TYPE_TOOLTIP
        || val == atoms._NET_WM_WINDOW_TYPE_UTILITY
}

impl WinState {
    /// The state that the atom `val` stands for.
    pub fn from(atoms: &AtomCollection, val: u32) -> (r: WinState)
        ensures
            r == state_of(*atoms, val),
            state_atom(*atoms, r) == val,
            !is_state_atom(*atoms, val) ==> r == WinState::Other(val),
    {
        if val == atoms._NET_WM_STATE_ABOVE {
            WinState::Above
        } else if val == atoms._NET_WM_STATE_BELOW {
            WinState::Below
        } else if val == atoms._NET_WM_STATE_DEMANDS_ATTENTION {
            WinState::DemandsAttention
        } else if val == atoms._NET_WM_STATE_FOCUSED {
            WinState::Focused
        } else if val == atoms._NET_WM_STATE_FULLSCREEN {
            WinState::Fullscreen
        } else if val == atoms._NET_WM_STATE_HIDDEN {
            WinState::Hidden
        } else if val == atoms._NET_WM_STATE_MAXIMIZED_VERT {
            WinState::MaxVert
        } else if val == atoms._NET_WM_STATE_MAXIMIZED_HORZ {
            WinState::MaxHorz
        } else if val == atoms._NET_WM_STATE_MODAL {
            WinState::Modal
        } else if val == atoms._NET_WM_STATE_SHADED {
            WinState::Shaded
        } else if val == atoms._NET_WM_STATE_SKIP_PAGER {
            WinState::SkipPager
        } else if val == atoms._NET_WM_STATE_SKIP_TASKBAR {
            WinState::SkipTaskbar
        } else {
            WinState::Other(val)
        }
    }

    /// The atom that this state was decoded from.
    pub fn raw_value(&self, atoms: &AtomCollection) -> (r: u32)
        ensures
            r == state_atom(*atoms, *self),
    {
        match self {
            WinState::Above => atoms._NET_WM_STATE_ABOVE,
            WinState::Below => atoms._NET_WM_STATE_BELOW,
            WinState::DemandsAttention => atoms._NET_WM_STATE_DEMANDS_ATTENTION,
            WinState::Focused => atoms._NET_WM_STATE_FOCUSED,
            WinState::Fullscreen => atoms._NET_WM_STATE_FULLSCREEN,
            WinState::Hidden => atoms._NET_WM_STATE_HIDDEN,
            WinState::MaxVert => atoms._NET_WM_STATE_MAXIMIZED_VERT,
            WinState::MaxHorz => atoms._NET_WM_STATE_MAXIMIZED_HORZ,
            WinState::Modal => atoms._NET_WM_STATE_MODAL,
            WinState::Shaded => atoms._NET_WM_STATE_SHADED,
            WinState::SkipPager => atoms._NET_WM_STATE_SKIP_PAGER,
            WinState::SkipTaskbar => atoms._NET_WM_STATE_SKIP_TASKBAR,
            WinState::Other(val) => *val,
        }
    }
}

impl WinType {
    /// The window type that the atom `val` stands for.
    pub fn from(atoms: &AtomCollection, val: u32) -> (r: WinType)
        ensures
            r == type_of(*atoms, val),
            type_atom(*atoms, r) == val,
            !is_type_atom(*atoms, val) ==> r == WinType::Other(val),
    {
        if val == atoms._NET_WM_WINDOW_TYPE_COMBO {
            WinType::Combo
        } else if val == atoms._NET_WM_WINDOW_TYPE_DESKTOP {
            WinType::Desktop
        } else if val == atoms._NET_WM_WINDOW_TYPE_DIALOG {
            WinType::Dialog
        } else if val == atoms._NET_WM_WINDOW_TYPE_DND {
            WinType::DND
        } else if val == atoms._NET_WM_WINDOW_TYPE_DOCK {
            WinType::Dock
        } else if val == atoms._NET_WM_WINDOW_TYPE_DROPDOWN_MENU {
            WinType::DropDownMenu
        } else if val == atoms._NET_WM_WINDOW_TYPE_MENU {
            WinType::Menu
        } else if val == atoms._NET_WM_WINDOW_TYPE_NORMAL {
            WinType::Normal
        } else if val == atoms._NET_WM_WINDOW_TYPE_NOTIFICATION {
            WinType::Notification
        } else if val == atoms._NET_WM_WINDOW_TYPE_POPUP_MENU {
            WinType::PopupMenu
        } else if val == atoms._NET_WM_WINDOW_TYPE_SPLASH {
            WinType::Splash
        } else if val == atoms._NET_WM_WINDOW_TYPE_TOOLBAR {
            WinType::Toolbar
        } else if val == atoms._NET_WM_WINDOW_TYPE_TOOLTIP {
            WinType::ToolTip
        } else if val == atoms._NET_WM_WINDOW_TYPE_UTILITY {
            WinType::Utility
        } else {
            WinType::Other(val)
        }
    }

    /// The atom that this window type was decoded from.
    pub fn raw_value(&self, atoms: &AtomCollection) -> (r: u32)
        ensures
            r == type_atom(*atoms, *self),
    {
        match self {
            WinType::Combo => atoms._NET_WM_WINDOW_TYPE_COMBO,
            WinType::Desktop => atoms._NET_WM_WINDOW_TYPE_DESKTOP,
            WinType::Dialog => atoms._NET_WM_WINDOW_TYPE_DIALOG,
            WinType::DND => atoms._NET_WM_WINDOW_TYPE_DND,
            WinType::Dock => atoms._NET_WM_WINDOW_TYPE_DOCK,
            WinType::DropDownMenu => atoms._NET_WM_WINDOW_TYPE_DROPDOWN_MENU,
            WinType::Menu => atoms._NET_WM_WINDOW_TYPE_MENU,
            WinType::Normal => atoms._NET_WM_WINDOW_TYPE_NORMAL,
            WinType::Notification => atoms._NET_WM_WINDOW_TYPE_NOTIFICATION,
            WinType::PopupMenu => atoms._NET_WM_WINDOW_TYPE_POPUP_MENU,
            WinType::Splash => atoms._NET_WM_WINDOW_TYPE_SPLASH,
            WinType::Toolbar => atoms._NET_WM_WINDOW_TYPE_TOOLBAR,
            WinType::ToolTip => atoms._NET_WM_WINDOW_TYPE_TOOLTIP,
            WinType::Utility => atoms._NET_WM_WINDOW_TYPE_UTILITY,
            WinType::Other(val) => *val,
        }
    }
}

/// Decoding an atom loses nothing: the atom of the decoded state or window
/// type is the atom that was decoded, and an atom that names none of them
/// comes back as `Other` with the atom itself.
pub proof fn lemma_decoding_keeps_the_atom(atoms: AtomCollection, val: u32)
    ensures
        state_atom(atoms, state_of(atoms, val)) == val,
        type_atom(atoms, type_of(atoms, val)) == val,
        !is_state_atom(atoms, val) ==> state_of(atoms, val) == WinState::Other(val),
        !is_type_atom(atoms, val) ==> type_of(atoms, val) == WinType::Other(val),
{
}

} // verus!
