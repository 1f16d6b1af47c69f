use libewmh::atoms::{AtomCollection, ATOM_COUNT};
use libewmh::event::{ClientMessage, Step};
use libewmh::window::{add_borders, move_win, shape_win};
use libewmh::{
    ErrorWrapper, GetPropertyResult, PropertyReply, WinOpt, WinPosition, WinShape, WinState,
    WinType, WindowDetails, WindowManager, WindowManagerError,
};

const ROOT: u32 = 77;

fn atoms() -> AtomCollection {
    let ids: Vec<u32> = (0..ATOM_COUNT as u32).map(|i| 300 + i).collect();
    AtomCollection::from_ids(&ids).unwrap()
}

fn reply32(values: &[u32]) -> GetPropertyResult {
    let mut value = Vec::new();
    for v in values {
        value.extend_from_slice(&v.to_ne_bytes());
    }
    GetPropertyResult { boxed: Ok(PropertyReply { format: 32, type_: 6, value }) }
}

fn session() -> WindowManager {
    WindowManager::connect(0, ROOT, 1920, 1080, atoms(), reply32(&[]), reply32(&[0, 0, 1000, 800]))
        .unwrap()
}

fn deliver(event: ClientMessage) -> Vec<Step> {
    let send = Step::Send { propagate: false, destination: ROOT, event_mask: 0x18_0000, event };
    if event.type_ == atoms()._NET_MOVERESIZE_WINDOW {
        vec![send, Step::Flush, Step::Sleep { millis: 50 }, send, Step::Flush]
    } else {
        vec![send, Step::Flush]
    }
}

fn state(win: u32, action: u32) -> Vec<Step> {
    let a = atoms();
    deliver(ClientMessage {
        format: 32,
        window: win,
        type_: a._NET_WM_STATE,
        data: [action, a._NET_WM_STATE_MAXIMIZED_HORZ, a._NET_WM_STATE_MAXIMIZED_VERT, 0, 0],
    })
}

fn request(win: u32, data: [u32; 5]) -> Vec<Step> {
    deliver(ClientMessage { format: 32, window: win, type_: atoms()._NET_MOVERESIZE_WINDOW, data })
}

const BORDERS: (u32, u32, u32, u32) = (4, 6, 20, 10);
const GEOMETRY: (i32, i32, u32, u32) = (50, 60, 500, 400);

#[test]
fn nothing_asked_nothing_done() {
    let wm = session();
    let opts = WinOpt::new(None);
    assert!(!opts.any());
    assert_eq!(opts.place(&wm, 9, BORDERS, GEOMETRY), vec![]);
    assert_eq!(WinOpt::new(Some(3)).place(&wm, 9, BORDERS, GEOMETRY), vec![]);
}

#[test]
fn the_target_is_the_named_or_the_active_window() {
    assert_eq!(WinOpt::new(None).target(9), 9);
    assert_eq!(WinOpt::new(Some(3)).target(9), 3);
}

#[test]
fn an_explicit_size() {
    let wm = session();
    let opts = WinOpt::new(None).size(640, 480);
    assert!(opts.any());
    assert_eq!(opts.place(&wm, 9, BORDERS, GEOMETRY), request(9, [0xc00, 0, 0, 640, 480]));
}

#[test]
fn an_explicit_location() {
    let wm = session();
    let opts = WinOpt::new(Some(3)).location(0, 25);
    assert!(opts.any());
    assert_eq!(opts.place(&wm, 9, BORDERS, GEOMETRY), request(3, [0x300, 0, 25, 0, 0]));
}

#[test]
fn an_explicit_size_goes_before_a_shape() {
    let wm = session();
    let a = WinOpt::new(None).size(640, 480).shape(WinShape::Large);
    assert_eq!(a.place(&wm, 9, BORDERS, GEOMETRY), request(9, [0xc00, 0, 0, 640, 480]));
    let b = WinOpt::new(None).shape(WinShape::Large).size(640, 480);
    assert_eq!(b.place(&wm, 9, BORDERS, GEOMETRY), request(9, [0xc00, 0, 0, 640, 480]));
}

#[test]
fn an_explicit_location_goes_before_a_position() {
    let wm = session();
    let a = WinOpt::new(None).location(1, 2).pos(WinPosition::Right);
    assert_eq!(a.place(&wm, 9, BORDERS, GEOMETRY), request(9, [0x300, 1, 2, 0, 0]));
    let b = WinOpt::new(None).pos(WinPosition::Right).location(1, 2);
    assert_eq!(b.place(&wm, 9, BORDERS, GEOMETRY), request(9, [0x300, 1, 2, 0, 0]));
}

#[test]
fn the_last_preset_counts() {
    let wm = session();
    let a = WinOpt::new(None).shape(WinShape::Small).shape(WinShape::Halfw);
    let mut expected = state(9, 0);
    expected.extend(request(9, [0xc05, 0, 0, 495, 770]));
    assert_eq!(a.place(&wm, 9, BORDERS, GEOMETRY), expected);
}

#[test]
fn a_shape_alone_is_anchored_at_the_center() {
    let wm = session();
    let opts = WinOpt::new(None).shape(WinShape::Small);
    let mut expected = state(9, 0);
    expected.extend(request(9, [0xc05, 0, 0, 495, 385]));
    assert_eq!(opts.place(&wm, 9, BORDERS, GEOMETRY), expected);
}

#[test]
fn maximizing_is_left_to_the_window_manager() {
    let wm = session();
    let mut expected = state(9, 1);
    expected.extend(request(9, [0, 0, 0, 0, 0]));
    assert_eq!(WinOpt::new(None).shape(WinShape::Max).place(&wm, 9, BORDERS, GEOMETRY), expected);
    let mut expected = state(9, 0);
    expected.extend(request(9, [0, 0, 0, 0, 0]));
    assert_eq!(WinOpt::new(None).shape(WinShape::UnMax).place(&wm, 9, BORDERS, GEOMETRY), expected);
    let mut expected = state(9, 0);
    expected.extend(request(9, [0, 0, 0, 0, 0]));
    assert_eq!(WinOpt::new(None).shape(WinShape::Square).place(&wm, 9, BORDERS, GEOMETRY), expected);
}

#[test]
fn a_position_alone_moves_along_its_axes() {
    let wm = session();
    let opts = WinOpt::new(None).pos(WinPosition::Right);
    let mut expected = state(9, 0);
    expected.extend(request(9, [0x100, 490, 0, 0, 0]));
    assert_eq!(opts.place(&wm, 9, BORDERS, GEOMETRY), expected);
    let opts = WinOpt::new(None).pos(WinPosition::Bottom);
    let mut expected = state(9, 0);
    expected.extend(request(9, [0x200, 0, 370, 0, 0]));
    assert_eq!(opts.place(&wm, 9, BORDERS, GEOMETRY), expected);
}

#[test]
fn a_shape_with_a_position_has_no_gravity() {
    let wm = session();
    let opts = WinOpt::new(Some(3)).shape(WinShape::Small).pos(WinPosition::BottomRight);
    let mut expected = state(3, 0);
    expected.extend(state(3, 0));
    expected.extend(request(3, [0xf00, 495, 385, 495, 385]));
    assert_eq!(opts.place(&wm, 9, BORDERS, GEOMETRY), expected);
}

#[test]
fn a_shape_with_a_location_has_no_gravity() {
    let wm = session();
    let opts = WinOpt::new(None).shape(WinShape::Halfh).location(7, 8);
    let mut expected = state(9, 0);
    expected.extend(request(9, [0xf00, 7, 8, 990, 385]));
    assert_eq!(opts.place(&wm, 9, BORDERS, GEOMETRY), expected);
}

#[test]
fn a_size_with_a_position_is_placed_by_the_new_size() {
    let wm = session();
    let opts = WinOpt::new(None).size(200, 100).pos(WinPosition::Center);
    let mut expected = state(9, 0);
    expected.extend(request(9, [0xf00, 395, 335, 200, 100]));
    assert_eq!(opts.place(&wm, 9, BORDERS, GEOMETRY), expected);
}

#[test]
fn shaping_and_moving_on_their_own() {
    let wm = session();
    let (steps, target) = shape_win(&wm, 9, 500, 400, 10, 30, WinShape::Grow);
    assert_eq!(steps, state(9, 0));
    assert_eq!(target, (Some(5), Some(504), Some(403)));
    let (steps, target) = shape_win(&wm, 9, 500, 400, 10, 30, WinShape::Max);
    assert_eq!(steps, state(9, 1));
    assert_eq!(target, (None, None, None));
    let (steps, target) = shape_win(&wm, 9, 500, 400, 10, 30, WinShape::Square);
    assert_eq!(steps, state(9, 0));
    assert_eq!(target, (Some(0), None, None));
    let (steps, place) = move_win(&wm, 9, 500, 400, 10, 30, WinPosition::TopCenter);
    assert_eq!(steps, state(9, 0));
    assert_eq!(place, (Some(245), Some(0)));
}

#[test]
fn border_sums_stop_at_the_largest_value() {
    assert_eq!(add_borders(4, 6), 10);
    assert_eq!(add_borders(u32::MAX, 1), u32::MAX);
    let wm = session();
    let opts = WinOpt::new(None).pos(WinPosition::Right);
    let steps = opts.place(&wm, 9, (u32::MAX, 5, 0, 0), GEOMETRY);
    let mut expected = state(9, 0);
    expected.extend(request(9, [0x100, 0, 0, 0, 0]));
    assert_eq!(steps, expected);
}

fn gone<T>() -> Result<T, ErrorWrapper> {
    Err(ErrorWrapper::WindowManager(WindowManagerError::PropertyNotFound("gone".to_string())))
}

#[test]
fn a_window_that_answers_nothing_is_still_listed() {
    let d = WindowDetails::resolve(
        0x1234, gone(), gone(), gone(), gone(), gone(), gone(), gone(), gone(),
    );
    assert_eq!(d.id, 0x1234);
    assert_eq!(d.pid, -1);
    assert_eq!(d.desktop, -1);
    assert_eq!(d.typ, WinType::Other(0));
    assert_eq!(d.states, vec![WinState::Other(0)]);
    assert_eq!(d.geometry, (0, 0, 0, 0));
    assert_eq!(d.borders, (0, 0, 0, 0));
    assert_eq!(d.class, "");
    assert_eq!(d.name, "");
}

#[test]
fn a_window_that_answers_is_listed_with_its_details() {
    let d = WindowDetails::resolve(
        7,
        Ok(4321),
        Ok(2),
        Ok(WinType::Normal),
        Ok(vec![WinState::Focused, WinState::Other(9)]),
        Ok((10, -20, 640, 480)),
        Ok((1, 2, 3, 4)),
        Ok("XTerm".to_string()),
        Ok("shell".to_string()),
    );
    assert_eq!(d.id, 7);
    assert_eq!(d.pid, 4321);
    assert_eq!(d.desktop, 2);
    assert_eq!(d.typ, WinType::Normal);
    assert_eq!(d.states, vec![WinState::Focused, WinState::Other(9)]);
    assert_eq!(d.geometry, (10, -20, 640, 480));
    assert_eq!(d.borders, (1, 2, 3, 4));
    assert_eq!(d.class, "XTerm");
    assert_eq!(d.name, "shell");
}

#[test]
fn each_detail_fails_on_its_own() {
    let d = WindowDetails::resolve(
        7,
        gone(),
        Ok(2),
        gone(),
        Ok(vec![]),
        gone(),
        Ok((1, 2, 3, 4)),
        gone(),
        Ok("shell".to_string()),
    );
    assert_eq!(d.pid, -1);
    assert_eq!(d.desktop, 2);
    assert_eq!(d.typ, WinType::Other(0));
    assert_eq!(d.states, vec![]);
    assert_eq!(d.geometry, (0, 0, 0, 0));
    assert_eq!(d.borders, (1, 2, 3, 4));
    assert_eq!(d.class, "");
    assert_eq!(d.name, "shell");
}
