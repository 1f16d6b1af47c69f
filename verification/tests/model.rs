use libewmh::atoms::{atom_name, AtomCollection, ATOM_COUNT};
use libewmh::{
    ErrorWrapper, WinClass, WinGravity, WinMap, WinPosition, WinShape, WinState, WinType,
    WindowManagerError,
};
use x11rb::protocol::xproto::{MapState, WindowClass};

fn atoms() -> AtomCollection {
    let ids: Vec<u32> = (0..ATOM_COUNT as u32).map(|i| 300 + i).collect();
    AtomCollection::from_ids(&ids).unwrap()
}

#[test]
fn test_errors() {
    let e = WindowManagerError::PropertyNotFound("_NET_WORKAREA".to_string());
    assert_eq!(e.to_string(), "property _NET_WORKAREA was not found");
    assert_eq!(ErrorWrapper::from(e).to_string(), "property _NET_WORKAREA was not found");
}

#[test]
fn every_error_has_its_message() {
    assert_eq!(WindowManagerError::DesktopWinNotFound.to_string(), "desktop window was not found");
    assert_eq!(WindowManagerError::InvalidAtom("x".to_string()).to_string(), "invalid atom was given: x");
    assert_eq!(WindowManagerError::InvalidWinGravity(7).to_string(), "invalid gravity was given: 7");
    assert_eq!(WindowManagerError::InvalidWinPosition("up".to_string()).to_string(), "invalid position was given: up");
    assert_eq!(WindowManagerError::InvalidWinShape("big".to_string()).to_string(), "invalid shape was given: big");
    assert_eq!(WindowManagerError::InvalidWinClass(30).to_string(), "invalid class was given: 30");
    assert_eq!(WindowManagerError::InvalidWinMap(105).to_string(), "invalid map was given: 105");
    assert_eq!(WindowManagerError::InvalidWinState(0).to_string(), "invalid state was given: 0");
    assert_eq!(WindowManagerError::InvalidWinType(u32::MAX).to_string(), "invalid type was given: 4294967295");
    assert_eq!(WindowManagerError::TaskbarNotFound.to_string(), "taskbar not found");
    assert_eq!(WindowManagerError::TaskbarReservationNotFound.to_string(), "taskbar reservation not found");
}

#[test]
fn errors_of_the_layers_below_keep_their_text() {
    let bytes = vec![0xffu8, 0xfe];
    let e = std::str::from_utf8(&bytes).unwrap_err();
    assert_eq!(ErrorWrapper::from(e).to_string(), e.to_string());
    let e = x11rb::errors::ConnectionError::UnknownError;
    let text = e.to_string();
    assert_eq!(ErrorWrapper::from(e).to_string(), text);
    let e = x11rb::errors::ConnectError::UnknownError;
    let text = e.to_string();
    assert_eq!(ErrorWrapper::from(e).to_string(), text);
    let e = x11rb::errors::ReplyError::ConnectionError(x11rb::errors::ConnectionError::UnknownError);
    let text = e.to_string();
    assert_eq!(ErrorWrapper::from(e).to_string(), text);
}

#[test]
fn gravity_and_its_number() {
    assert_eq!(WinGravity::from(5), WinGravity::Center);
    assert_eq!(WinGravity::from(0), WinGravity::Unset);
    assert_eq!(WinGravity::from(6), WinGravity::Unset);
    assert_eq!(u32::from(WinGravity::Center), 5);
    assert_eq!(u32::from(WinGravity::Unset), 0);
    assert_eq!(WinGravity::Center.to_string(), "center");
    assert_eq!(WinGravity::Unset.to_string(), "none");
}

#[test]
fn positions_by_name() {
    assert_eq!(WinPosition::try_from("center").unwrap(), WinPosition::Center);
    assert_eq!(WinPosition::try_from("left").unwrap(), WinPosition::Left);
    assert_eq!(WinPosition::try_from("right").unwrap(), WinPosition::Right);
    assert_eq!(WinPosition::try_from("top").unwrap(), WinPosition::Top);
    assert_eq!(WinPosition::try_from("bottom").unwrap(), WinPosition::Bottom);
    assert_eq!(WinPosition::try_from("top-left").unwrap(), WinPosition::TopLeft);
    assert_eq!(WinPosition::try_from("top-right").unwrap(), WinPosition::TopRight);
    assert_eq!(WinPosition::try_from("bottom-left").unwrap(), WinPosition::BottomLeft);
    assert_eq!(WinPosition::try_from("bottom-right").unwrap(), WinPosition::BottomRight);
    assert_eq!(WinPosition::try_from("left-center").unwrap(), WinPosition::LeftCenter);
    assert_eq!(WinPosition::try_from("right-center").unwrap(), WinPosition::RightCenter);
    assert_eq!(WinPosition::try_from("top-center").unwrap(), WinPosition::TopCenter);
    assert_eq!(WinPosition::try_from("bottom-center").unwrap(), WinPosition::BottomCenter);
}

#[test]
fn names_are_read_in_any_case() {
    assert_eq!(WinPosition::try_from("Bottom-LEFT").unwrap(), WinPosition::BottomLeft);
    assert_eq!(WinShape::try_from("HalfW").unwrap(), WinShape::Halfw);
    assert_eq!(WinShape::try_from("UNMAX").unwrap(), WinShape::UnMax);
    assert!(WinShape::from_lowercase("HALFW", "HALFW").is_err());
}

#[test]
fn a_word_that_names_nothing_is_refused_as_given() {
    assert_eq!(
        WinPosition::try_from("Middle"),
        Err(WindowManagerError::InvalidWinPosition("Middle".to_string()))
    );
    assert_eq!(
        WinShape::try_from("Square"),
        Err(WindowManagerError::InvalidWinShape("Square".to_string()))
    );
    assert_eq!(
        WinShape::try_from(""),
        Err(WindowManagerError::InvalidWinShape("".to_string()))
    );
    assert_eq!(
        WinPosition::from_lowercase("topleft", "TopLeft"),
        Err(WindowManagerError::InvalidWinPosition("TopLeft".to_string()))
    );
}

#[test]
fn shapes_by_name() {
    assert_eq!(WinShape::try_from("grow").unwrap(), WinShape::Grow);
    assert_eq!(WinShape::try_from("max").unwrap(), WinShape::Max);
    assert_eq!(WinShape::try_from("halfw").unwrap(), WinShape::Halfw);
    assert_eq!(WinShape::try_from("halfh").unwrap(), WinShape::Halfh);
    assert_eq!(WinShape::try_from("small").unwrap(), WinShape::Small);
    assert_eq!(WinShape::try_from("medium").unwrap(), WinShape::Medium);
    assert_eq!(WinShape::try_from("large").unwrap(), WinShape::Large);
    assert_eq!(WinShape::try_from("shrink").unwrap(), WinShape::Shrink);
    assert_eq!(WinShape::try_from("unmax").unwrap(), WinShape::UnMax);
}

#[test]
fn values_render_in_lower_case() {
    assert_eq!(WinPosition::TopLeft.to_string(), "topleft");
    assert_eq!(WinPosition::BottomCenter.to_string(), "bottomcenter");
    assert_eq!(WinShape::UnMax.to_string(), "unmax");
    assert_eq!(WinShape::Halfw.to_string(), "halfw");
    assert_eq!(WinClass::CopyFromParent.to_string(), "copyfromparent");
    assert_eq!(WinMap::Unviewable.to_string(), "unviewable");
    assert_eq!(WinState::DemandsAttention.to_string(), "demandsattention");
    assert_eq!(WinState::Other(3).to_string(), "");
    assert_eq!(WinType::DropDownMenu.to_string(), "dropdownmenu");
    assert_eq!(WinType::DND.to_string(), "dnd");
    assert_eq!(WinType::Other(9).to_string(), "");
}

#[test]
fn window_classes_are_those_of_the_protocol() {
    assert_eq!(WinClass::from(0).unwrap(), WinClass::CopyFromParent);
    assert_eq!(WinClass::from(1).unwrap(), WinClass::InputOutput);
    assert_eq!(WinClass::from(2).unwrap(), WinClass::InputOnly);
    assert_eq!(WinClass::from(u32::from(WindowClass::INPUT_ONLY)).unwrap(), WinClass::InputOnly);
    assert_eq!(
        WinClass::from(u32::from(WindowClass::INPUT_OUTPUT)).unwrap(),
        WinClass::InputOutput
    );
    assert_eq!(
        WinClass::from(u32::from(WindowClass::COPY_FROM_PARENT)).unwrap(),
        WinClass::CopyFromParent
    );
    match WinClass::from(3) {
        Err(ErrorWrapper::WindowManager(WindowManagerError::InvalidWinClass(3))) => {}
        other => panic!("{:?}", other),
    }
}

#[test]
fn map_states_are_those_of_the_protocol() {
    assert_eq!(WinMap::from(0).unwrap(), WinMap::Unmapped);
    assert_eq!(WinMap::from(1).unwrap(), WinMap::Unviewable);
    assert_eq!(WinMap::from(2).unwrap(), WinMap::Viewable);
    assert_eq!(WinMap::from(u32::from(MapState::VIEWABLE)).unwrap(), WinMap::Viewable);
    assert_eq!(WinMap::from(u32::from(MapState::UNVIEWABLE)).unwrap(), WinMap::Unviewable);
    assert_eq!(WinMap::from(u32::from(MapState::UNMAPPED)).unwrap(), WinMap::Unmapped);
    match WinMap::from(77) {
        Err(ErrorWrapper::WindowManager(WindowManagerError::InvalidWinMap(77))) => {}
        other => panic!("{:?}", other),
    }
}

#[test]
fn states_by_atom() {
    let a = atoms();
    assert_eq!(WinState::from(&a, a._NET_WM_STATE_ABOVE), WinState::Above);
    assert_eq!(WinState::from(&a, a._NET_WM_STATE_BELOW), WinState::Below);
    assert_eq!(WinState::from(&a, a._NET_WM_STATE_DEMANDS_ATTENTION), WinState::DemandsAttention);
    assert_eq!(WinState::from(&a, a._NET_WM_STATE_FOCUSED), WinState::Focused);
    assert_eq!(WinState::from(&a, a._NET_WM_STATE_FULLSCREEN), WinState::Fullscreen);
    assert_eq!(WinState::from(&a, a._NET_WM_STATE_HIDDEN), WinState::Hidden);
    assert_eq!(WinState::from(&a, a._NET_WM_STATE_MAXIMIZED_VERT), WinState::MaxVert);
    assert_eq!(WinState::from(&a, a._NET_WM_STATE_MAXIMIZED_HORZ), WinState::MaxHorz);
    assert_eq!(WinState::from(&a, a._NET_WM_STATE_MODAL), WinState::Modal);
    assert_eq!(WinState::from(&a, a._NET_WM_STATE_SHADED), WinState::Shaded);
    assert_eq!(WinState::from(&a, a._NET_WM_STATE_SKIP_PAGER), WinState::SkipPager);
    assert_eq!(WinState::from(&a, a._NET_WM_STATE_SKIP_TASKBAR), WinState::SkipTaskbar);
}

#[test]
fn types_by_atom() {
    let a = atoms();
    assert_eq!(WinType::from(&a, a._NET_WM_WINDOW_TYPE_COMBO), WinType::Combo);
    assert_eq!(WinType::from(&a, a._NET_WM_WINDOW_TYPE_DESKTOP), WinType::Desktop);
    assert_eq!(WinType::from(&a, a._NET_WM_WINDOW_TYPE_DIALOG), WinType::Dialog);
    assert_eq!(WinType::from(&a, a._NET_WM_WINDOW_TYPE_DND), WinType::DND);
    assert_eq!(WinType::from(&a, a._NET_WM_WINDOW_TYPE_DOCK), WinType::Dock);
    assert_eq!(WinType::from(&a, a._NET_WM_WINDOW_TYPE_DROPDOWN_MENU), WinType::DropDownMenu);
    assert_eq!(WinType::from(&a, a._NET_WM_WINDOW_TYPE_MENU), WinType::Menu);
    assert_eq!(WinType::from(&a, a._NET_WM_WINDOW_TYPE_NORMAL), WinType::Normal);
    assert_eq!(WinType::from(&a, a._NET_WM_WINDOW_TYPE_NOTIFICATION), WinType::Notification);
    assert_eq!(WinType::from(&a, a._NET_WM_WINDOW_TYPE_POPUP_MENU), WinType::PopupMenu);
    assert_eq!(WinType::from(&a, a._NET_WM_WINDOW_TYPE_SPLASH), WinType::Splash);
    assert_eq!(WinType::from(&a, a._NET_WM_WINDOW_TYPE_TOOLBAR), WinType::Toolbar);
    assert_eq!(WinType::from(&a, a._NET_WM_WINDOW_TYPE_TOOLTIP), WinType::ToolTip);
    assert_eq!(WinType::from(&a, a._NET_WM_WINDOW_TYPE_UTILITY), WinType::Utility);
}

#[test]
fn an_atom_without_a_name_is_kept() {
    let a = atoms();
    for raw in [0u32, 1, 299, 1000, u32::MAX] {
        assert_eq!(WinState::from(&a, raw), WinState::Other(raw));
        assert_eq!(WinType::from(&a, raw), WinType::Other(raw));
        assert_eq!(WinState::from(&a, raw).raw_value(&a), raw);
        assert_eq!(WinType::from(&a, raw).raw_value(&a), raw);
    }
    assert_eq!(WinState::from(&a, a._NET_WM_WINDOW_TYPE_MENU), WinState::Other(a._NET_WM_WINDOW_TYPE_MENU));
}

#[test]
fn decoding_keeps_the_atom() {
    let a = atoms();
    for raw in 290u32..350 {
        assert_eq!(WinState::from(&a, raw).raw_value(&a), raw);
        assert_eq!(WinType::from(&a, raw).raw_value(&a), raw);
    }
}

#[test]
fn the_cache_follows_the_list_of_names() {
    assert_eq!(atom_name(0), Some("_NET_ACTIVE_WINDOW"));
    assert_eq!(atom_name(ATOM_COUNT - 1), Some("UTF8_STRING"));
    assert_eq!(atom_name(ATOM_COUNT), None);
    let a = atoms();
    assert_eq!(a._NET_ACTIVE_WINDOW, 300);
    assert_eq!(a.UTF8_STRING, 300 + ATOM_COUNT as u32 - 1);
    let ids = a.ids();
    assert_eq!(ids.len(), ATOM_COUNT);
    for (i, id) in ids.iter().enumerate() {
        assert_eq!(*id, 300 + i as u32);
    }
    let mut seen = std::collections::HashSet::new();
    for i in 0..ATOM_COUNT {
        assert!(seen.insert(atom_name(i).unwrap()));
    }
    assert_eq!(atom_name(10), Some("_NET_WM_STATE"));
    assert_eq!(a._NET_WM_STATE, 310);
}

#[test]
fn a_cache_needs_every_identifier() {
    assert!(AtomCollection::from_ids(&vec![1, 2, 3]).is_none());
    assert!(AtomCollection::from_ids(&vec![]).is_none());
    assert!(AtomCollection::from_ids(&vec![7; ATOM_COUNT + 1]).is_none());
    assert!(AtomCollection::from_ids(&vec![7; ATOM_COUNT]).is_some());
}
