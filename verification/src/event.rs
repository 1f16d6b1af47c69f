//! Client messages: what a request to the window manager looks like on the
//! wire and in which steps it is delivered.
//!
//! Nothing is sent from here. A request becomes a list of `Step`s, which the
//! owner of the connection carries out in order and gives up at the first
//! failure of the transport.

use vstd::prelude::*;

verus! {

pub type MoveResizeWindowFlags = u32;

/// Set in the flags of a move/resize request when it carries an x coordinate.
pub const MOVE_RESIZE_WINDOW_X: MoveResizeWindowFlags = 0x100;

/// Set in the flags of a move/resize request when it carries a y coordinate.
pub const MOVE_RESIZE_WINDOW_Y: MoveResizeWindowFlags = 0x200;

/// Set in the flags of a move/resize request when it carries a width.
pub const MOVE_RESIZE_WINDOW_WIDTH: MoveResizeWindowFlags = 0x400;

/// Set in the flags of a move/resize request when it carries a height.
pub const MOVE_RESIZE_WINDOW_HEIGHT: MoveResizeWindowFlags = 0x800;

pub type WindowStateAction = u32;

pub const WINDOW_STATE_ACTION_REMOVE: WindowStateAction = 0;

pub const WINDOW_STATE_ACTION_ADD: WindowStateAction = 1;

/// The event mask under which every client message is sent: substructure
/// notify together with substructure redirect.
pub const SUBSTRUCTURE_MASK: u32 = 0x18_0000;

/// How long the second delivery of a move/resize request waits, in
/// milliseconds.
pub const REDELIVERY_DELAY_MS: u64 = 50;

/// A client message with five 32-bit words of data.
#[derive(Debug, Clone, Copy, PartialEq, Eq)]
pub struct ClientMessage {
    pub format: u8,
    pub window: u32,
    pub type_: u32,
    pub data: [u32; 5],
}

/// One thing for the owner of the connection to do.
#[derive(Debug, Clone, Copy, PartialEq, Eq)]
pub enum Step {
    /// Send `event` to the window `destination` under `event_mask`.
    Send { propagate: bool, destination: u32, event_mask: u32, event: ClientMessage },
    /// Write out everything that was sent so far.
    Flush,
    /// Wait for `millis` milliseconds.
    Sleep { millis: u64 },
}

/// The flags of a move/resize request: the gravity, or zero where there is
/// none, with one bit set for each of the four values that the request
/// carries.
pub open spec fn move_resize_flags(
    gravity: Option<u32>,
    x: bool,
    y: bool,
    w: bool,
    h: bool,
) -> u32 {
    let f0: u32 = match gravity {
        Some(g) => g,
        None => 0u32,
    };
    let f1: u32 = if x {
        f0 | MOVE_RESIZE_WINDOW_X
    } else {
        f0
    };
    let f2: u32 = if y {
        f1 | MOVE_RESIZE_WINDOW_Y
    } else {
        f1
    };
    let f3: u32 = if w {
        f2 | MOVE_RESIZE_WINDOW_WIDTH
    } else {
        f2
    };
    if h {
        f3 | MOVE_RESIZE_WINDOW_HEIGHT
    } else {
        f3
    }
}

/// A value of a move/resize request as it is sent: zero where it is absent.
pub open spec fn sent(value: Option<u32>) -> u32 {
    match value {
        Some(v) => v,
        None => 0u32,
    }
}

/// The five words of a move/resize request.
pub open spec fn move_resize_data(
    gravity: Option<u32>,
    x: Option<u32>,
    y: Option<u32>,
    w: Option<u32>,
    h: Option<u32>,
) -> [u32; 5] {
    [
        move_resize_flags(gravity, x is Some, y is Some, w is Some, h is Some),
        sent(x),
        sent(y),
        sent(w),
        sent(h),
    ]
}

/// The steps that deliver `event` through the root window `root`: it is sent
/// and flushed, and a move/resize request, whose type is `move_resize`, is
/// sent and flushed once more after a pause.
pub open spec fn delivery(root: u32, move_resize: u32, event: ClientMessage) -> Seq<Step> {
    let send = Step::Send {
        propagate: false,
        destination: root,
        event_mask: SUBSTRUCTURE_MASK,
        event,
    };
    if event.type_ == move_resize {
        seq![send, Step::Flush, Step::Sleep { millis: REDELIVERY_DELAY_MS }, send, Step::Flush]
    } else {
        seq![send, Step::Flush]
    }
}

/// The union of `EventMask::SUBSTRUCTURE_REDIRECT` and
/// `EventMask::SUBSTRUCTURE_NOTIFY` of x11rb as a number: bits 20 and 19.
#[verifier::external_body]
fn substructure_mask() -> (r: u32)
    ensures
        r == SUBSTRUCTURE_MASK,
{
    u32::from(
        x11rb::protocol::xproto::EventMask::SUBSTRUCTURE_REDIRECT
            | x11rb::protocol::xproto::EventMask::SUBSTRUCTURE_NOTIFY,
    )
}

impl ClientMessage {
    /// A client message for `window` of the type `type_`.
    pub fn new(format: u8, window: u32, type_: u32, data: [u32; 5]) -> (r: ClientMessage)
        ensures
            r == (ClientMessage { format, window, type_, data }),
    {
        ClientMessage { format, window, type_, data }
    }
}

/// Computes `move_resize_flags`.
pub fn flags(gravity: Option<u32>, x: bool, y: bool, w: bool, h: bool) -> (r:
    MoveResizeWindowFlags)
    ensures
        r == move_resize_flags(gravity, x, y, w, h),
{
    let mut flags: u32 = match gravity {
        Some(g) => g,
        None => 0,
    };
    if x {
        flags = flags | MOVE_RESIZE_WINDOW_X;
    }
    if y {
        flags = flags | MOVE_RESIZE_WINDOW_Y;
    }
    if w {
        flags = flags | MOVE_RESIZE_WINDOW_WIDTH;
    }
    if h {
        flags = flags | MOVE_RESIZE_WINDOW_HEIGHT;
    }
    flags
}

/// Computes `delivery`.
pub fn deliver(root: u32, move_resize: u32, event: ClientMessage) -> (r: Vec<Step>)
    ensures
        r@ == delivery(root, move_resize, event),
{
    let send = Step::Send {
        propagate: false,
        destination: root,
        event_mask: substructure_mask(),
        event,
    };
    let mut steps: Vec<Step> = Vec::new();
    steps.push(send);
    steps.push(Step::Flush);
    if event.type_ == move_resize {
        steps.push(Step::Sleep { millis: REDELIVERY_DELAY_MS });
        steps.push(send);
        steps.push(Step::Flush);
    }
    assert(steps@ =~= delivery(root, move_resize, event));
    steps
}

/// With a gravity that fits the low byte, the flags hold exactly that gravity
/// in the low byte, and each of the four bits above it is set if and only if
/// the request carries the value that the bit stands for.
pub proof fn lemma_flags_tell_what_is_sent(gravity: Option<u32>, x: bool, y: bool, w: bool, h: bool)
    requires
        gravity matches Some(g) ==> g <= 0xff,
    ensures
        move_resize_flags(gravity, x, y, w, h) & 0xff == sent(gravity),
        (move_resize_flags(gravity, x, y, w, h) & MOVE_RESIZE_WINDOW_X != 0) == x,
        (move_resize_flags(gravity, x, y, w, h) & MOVE_RESIZE_WINDOW_Y != 0) == y,
        (move_resize_flags(gravity, x, y, w, h) & MOVE_RESIZE_WINDOW_WIDTH != 0) == w,
        (move_resize_flags(gravity, x, y, w, h) & MOVE_RESIZE_WINDOW_HEIGHT != 0) == h,
        move_resize_flags(gravity, x, y, w, h) <= 0xfff,
{
    let g: u32 = sent(gravity);
    let bx: u32 = if x { 0x100 } else { 0 };
    let by: u32 = if y { 0x200 } else { 0 };
    let bw: u32 = if w { 0x400 } else { 0 };
    let bh: u32 = if h { 0x800 } else { 0 };
    let f = move_resize_flags(gravity, x, y, w, h);
    assert(forall|a: u32| #[trigger] (a | 0u32) == a) by (bit_vector);
    assert(f == (((g | bx) | by) | bw) | bh);
    assert((((g | bx) | by) | bw) | bh <= 0xfff && ((((g | bx) | by) | bw) | bh) & 0xff == g
        && ((((g | bx) | by) | bw) | bh) & 0x100 == bx && ((((g | bx) | by) | bw) | bh) & 0x200
        == by && ((((g | bx) | by) | bw) | bh) & 0x400 == bw && ((((g | bx) | by) | bw) | bh)
        & 0x800 == bh) by (bit_vector)
        requires
            g <= 0xff,
            bx == 0x100 || bx == 0,
            by == 0x200 || by == 0,
            bw == 0x400 || bw == 0,
            bh == 0x800 || bh == 0,
    ;
}

} // verus!
