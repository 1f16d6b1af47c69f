//! Windows and what is asked of them: the list of a window's details, and the
//! request to size and place a window.

use vstd::prelude::*;
use crate::error::WindowManagerResult;
use crate::event::{Step, WINDOW_STATE_ACTION_ADD, WINDOW_STATE_ACTION_REMOVE};
use crate::layout::{capped, position, position_target, shape_gravity, shape_size, shape_target};
use crate::model::{gravity_code, WinGravity, WinPosition, WinShape, WinState, WinType};
use crate::wm::{Session, WindowManager};

verus! {

/// A window, known by its id alone. The window may be gone by the time it is
/// asked about.
#[derive(Debug, Clone, Copy, PartialEq, Eq, Structural)]
pub struct Window {
    pub id: u32,
}

/// What is known of one window of a list. A detail that could not be read
/// holds a value that stands for its absence, so that one window that fails
/// to answer does not end the list.
#[derive(Debug)]
pub struct WindowDetails {
    pub id: u32,
    /// The id of the owning process, or -1.
    pub pid: i32,
    /// The desktop of the window, or -1.
    pub desktop: i32,
    /// The type of the window, or `Other(0)`.
    pub typ: WinType,
    /// The states of the window, or `Other(0)` alone.
    pub states: Vec<WinState>,
    /// The place and size of the window, or zeros.
    pub geometry: (i32, i32, u32, u32),
    /// The widths of the frame of the window, or zeros.
    pub borders: (u32, u32, u32, u32),
    /// The class name of the window, or the empty text.
    pub class: String,
    /// The title of the window, or the empty text.
    pub name: String,
}

/// The size that a placement asks for.
#[derive(Debug, Clone, Copy, PartialEq, Eq, Structural)]
pub enum Sizing {
    Unset,
    /// A width and a height.
    Explicit(u32, u32),
    Named(WinShape),
}

/// The place that a placement asks for.
#[derive(Debug, Clone, Copy, PartialEq, Eq, Structural)]
pub enum Placing {
    Unset,
    /// An x and a y coordinate.
    Explicit(u32, u32),
    Named(WinPosition),
}

/// The request to size and place one window. An explicit size goes before a
/// shape and an explicit location before a position: setting the explicit
/// one replaces the preset, and setting a preset over an explicit one does
/// nothing.
#[derive(Debug)]
pub struct WinOpt {
    win: Option<u32>,
    size: Sizing,
    place: Placing,
}

/// What a `WinOpt` holds.
pub struct Placement {
    /// The window to place, or `None` for the active window.
    pub win: Option<u32>,
    pub size: Sizing,
    pub place: Placing,
}

impl View for WinOpt {
    type V = Placement;

    closed spec fn view(&self) -> Placement {
        Placement { win: self.win, size: self.size, place: self.place }
    }
}

/// `a + b`, stopped at the largest 32-bit value.
pub open spec fn sum(a: u32, b: u32) -> u32 {
    capped(a + b) as u32
}

/// The number of an optional gravity.
pub open spec fn code_of(gravity: Option<WinGravity>) -> Option<u32> {
    match gravity {
        Some(g) => Some(gravity_code(g)),
        None => None,
    }
}

/// The first and second of an optional pair.
pub open spec fn halves(size: Option<(u32, u32)>) -> (Option<u32>, Option<u32>) {
    match size {
        Some((w, h)) => (Some(w), Some(h)),
        None => (None, None),
    }
}

/// The steps that go before the sizing of a window to a shape: the window is
/// maximized for `Max`, and for every other shape its maximized states are
/// taken off.
pub open spec fn shape_steps(wm: Session, win: u32, shape: WinShape) -> Seq<Step> {
    if shape == WinShape::Max {
        wm.delivery(wm.state_change(win, WINDOW_STATE_ACTION_ADD))
    } else {
        wm.delivery(wm.state_change(win, WINDOW_STATE_ACTION_REMOVE))
    }
}

impl Placement {
    /// Whether anything is asked for.
    pub open spec fn any(self) -> bool {
        self.size != Sizing::Unset || self.place != Placing::Unset
    }

    /// The window that is placed when `active_win` is the active window.
    pub open spec fn target(self, active_win: u32) -> u32 {
        match self.win {
            Some(win) => win,
            None => active_win,
        }
    }

    /// The gravity, width and height of the move/resize request for a window
    /// of the size `w` by `h`. A gravity is used only where no place is asked
    /// for.
    pub open spec fn sized(self, wm: Session, w: u32, h: u32, bw: u32, bh: u32) -> (
        Option<u32>,
        Option<u32>,
        Option<u32>,
    ) {
        match self.size {
            Sizing::Named(shape) => {
                let size = halves(shape_size(shape, w, h, bw, bh, wm.work_width, wm.work_height));
                if self.place != Placing::Unset {
                    (None, size.0, size.1)
                } else {
                    (code_of(shape_gravity(shape)), size.0, size.1)
                }
            },
            Sizing::Explicit(width, height) => (None, Some(width), Some(height)),
            Sizing::Unset => (None, None, None),
        }
    }

    /// The x and y of the move/resize request for a window that will have the
    /// size `w` by `h`.
    pub open spec fn located(self, wm: Session, w: u32, h: u32, bw: u32, bh: u32) -> (
        Option<u32>,
        Option<u32>,
    ) {
        match self.place {
            Placing::Named(pos) => position_target(pos, w, h, bw, bh, wm.work_width, wm.work_height),
            Placing::Explicit(x, y) => (Some(x), Some(y)),
            Placing::Unset => (None, None),
        }
    }

    /// Every step of the placement, in order: what goes before the sizing to
    /// a shape, what goes before the move to a position, and one move/resize
    /// request if anything is asked for at all.
    pub open spec fn steps(
        self,
        wm: Session,
        active_win: u32,
        borders: (u32, u32, u32, u32),
        w: u32,
        h: u32,
    ) -> Seq<Step> {
        let win = self.target(active_win);
        let bw = sum(borders.0, borders.1);
        let bh = sum(borders.2, borders.3);
        let size = self.sized(wm, w, h, bw, bh);
        let width = match size.1 {
            Some(v) => v,
            None => w,
        };
        let height = match size.2 {
            Some(v) => v,
            None => h,
        };
        let place = self.located(wm, width, height, bw, bh);
        let before_size = match self.size {
            Sizing::Named(shape) => shape_steps(wm, win, shape),
            _ => Seq::<Step>::empty(),
        };
        let before_place = match self.place {
            Placing::Named(_) => wm.delivery(wm.state_change(win, WINDOW_STATE_ACTION_REMOVE)),
            _ => Seq::<Step>::empty(),
        };
        let request = if self.any() {
            wm.delivery(wm.move_resize(win, size.0, place.0, place.1, size.1, size.2))
        } else {
            Seq::<Step>::empty()
        };
        before_size + before_place + request
    }
}

/// Computes `sum`.
pub fn add_borders(a: u32, b: u32) -> (r: u32)
    ensures
        r == sum(a, b),
{
    a.saturating_add(b)
}

/// The steps that go before the sizing of the window `win` to `shape`, and
/// the gravity, width and height that the shape asks for on a window of `w`
/// by `h` pixels whose frame adds `bw` and `bh`.
pub fn shape_win(
    wm: &WindowManager,
    win: u32,
    w: u32,
    h: u32,
    bw: u32,
    bh: u32,
    shape: WinShape,
) -> (r: (Vec<Step>, (Option<u32>, Option<u32>, Option<u32>)))
    ensures
        r.0@ == shape_steps(wm@, win, shape),
        r.1.0 == code_of(shape_gravity(shape)),
        (r.1.1, r.1.2) == halves(
            shape_size(shape, w, h, bw, bh, wm@.work_width, wm@.work_height),
        ),
{
    let steps = match shape {
        WinShape::Max => wm.maximize_win(win),
        _ => wm.unmaximize_win(win),
    };
    let target = shape_target(shape, w, h, bw, bh, wm.work_width(), wm.work_height());
    let gravity: Option<u32> = match target.0 {
        Some(g) => Some(u32::from(g)),
        None => None,
    };
    (steps, (gravity, target.1, target.2))
}

/// The steps that go before the move of the window `win` to `pos`, and the
/// coordinates that the position asks for on a window of `w` by `h` pixels
/// whose frame adds `bw` and `bh`.
pub fn move_win(
    wm: &WindowManager,
    win: u32,
    w: u32,
    h: u32,
    bw: u32,
    bh: u32,
    pos: WinPosition,
) -> (r: (Vec<Step>, (Option<u32>, Option<u32>)))
    ensures
        r.0@ == wm@.delivery(wm@.state_change(win, WINDOW_STATE_ACTION_REMOVE)),
        r.1 == position_target(pos, w, h, bw, bh, wm@.work_width, wm@.work_height),
{
    let steps = wm.unmaximize_win(win);
    (steps, position(pos, w, h, bw, bh, wm.work_width(), wm.work_height()))
}

impl WinOpt {
    /// A placement of the window `win`, or of the active window where `win`
    /// is `None`, that asks for nothing yet.
    pub fn new(win: Option<u32>) -> (r: WinOpt)
        ensures
            r@ == (Placement { win, size: Sizing::Unset, place: Placing::Unset }),
    {
        WinOpt { win, size: Sizing::Unset, place: Placing::Unset }
    }

    /// Asks for the width `w` and the height `h`, in place of any shape.
    pub fn size(self, w: u32, h: u32) -> (r: WinOpt)
        ensures
            r@ == (Placement { size: Sizing::Explicit(w, h), ..self@ }),
    {
        WinOpt { win: self.win, size: Sizing::Explicit(w, h), place: self.place }
    }

    /// Asks for the location `x`, `y`, in place of any position.
    pub fn location(self, x: u32, y: u32) -> (r: WinOpt)
        ensures
            r@ == (Placement { place: Placing::Explicit(x, y), ..self@ }),
    {
        WinOpt { win: self.win, size: self.size, place: Placing::Explicit(x, y) }
    }

    /// Asks for `shape`, unless a width and height are asked for already.
    pub fn shape(self, shape: WinShape) -> (r: WinOpt)
        ensures
            r@ == if self@.size is Explicit {
                self@
            } else {
                Placement { size: Sizing::Named(shape), ..self@ }
            },
    {
        match self.size {
            Sizing::Explicit(_, _) => self,
            _ => WinOpt { win: self.win, size: Sizing::Named(shape), place: self.place },
        }
    }

    /// Asks for `pos`, unless a location is asked for already.
    pub fn pos(self, pos: WinPosition) -> (r: WinOpt)
        ensures
            r@ == if self@.place is Explicit {
                self@
            } else {
                Placement { place: Placing::Named(pos), ..self@ }
            },
    {
        match self.place {
            Placing::Explicit(_, _) => self,
            _ => WinOpt { win: self.win, size: self.size, place: Placing::Named(pos) },
        }
    }

    /// Whether anything is asked for.
    pub fn any(&self) -> (r: bool)
        ensures
            r == self@.any(),
    {
        let sized = match self.size {
            Sizing::Unset => false,
            _ => true,
        };
        let placed = match self.place {
            Placing::Unset => false,
            _ => true,
        };
        sized || placed
    }

    /// The window to place: the one that was named, else the active window.
    /// Its frame and its geometry are what `place` needs next.
    pub fn target(&self, active_win: u32) -> (r: u32)
        ensures
            r == self@.target(active_win),
    {
        match self.win {
            Some(win) => win,
            None => active_win,
        }
    }

    /// The steps that carry out the placement in the session `wm`, where
    /// `active_win` is the active window and `borders` and `geometry` are the
    /// frame and the geometry of the window to place.
    pub fn place(
        self,
        wm: &WindowManager,
        active_win: u32,
        borders: (u32, u32, u32, u32),
        geometry: (i32, i32, u32, u32),
    ) -> (r: Vec<Step>)
        ensures
            r@ == self@.steps(wm@, active_win, borders, geometry.2, geometry.3),
    {
        let execute = self.any();
        let win = self.target(active_win);
        let bw = add_borders(borders.0, borders.1);
        let bh = add_borders(borders.2, borders.3);
        let w = geometry.2;
        let h = geometry.3;
        let mut steps: Vec<Step> = Vec::new();
        let positioned = match self.place {
            Placing::Unset => false,
            _ => true,
        };

        let (gravity, sw, sh) = match self.size {
            Sizing::Named(shape) => {
                let (mut before, (gravity, sw, sh)) = shape_win(wm, win, w, h, bw, bh, shape);
                steps.append(&mut before);
                if positioned {
                    (None, sw, sh)
                } else {
                    (gravity, sw, sh)
                }
            },
            Sizing::Explicit(width, height) => (None, Some(width), Some(height)),
            Sizing::Unset => (None, None, None),
        };

        let (x, y) = match self.place {
            Placing::Named(pos) => {
                let (mut before, place) = move_win(
                    wm,
                    win,
                    sw.unwrap_or(w),
                    sh.unwrap_or(h),
                    bw,
                    bh,
                    pos,
                );
                steps.append(&mut before);
                place
            },
            Placing::Explicit(x, y) => (Some(x), Some(y)),
            Placing::Unset => (None, None),
        };

        if execute {
            let mut request = wm.move_resize_win(win, gravity, x, y, sw, sh);
            steps.append(&mut request);
        }
        assert(steps@ =~= self@.steps(wm@, active_win, borders, geometry.2, geometry.3));
        steps
    }
}

impl WindowDetails {
    /// The details of the window `id` from the outcomes of the reads of each
    /// of them. The window is listed whatever failed: each detail that failed
    /// to resolve holds the value that stands for its absence.
    pub fn resolve(
        id: u32,
        pid: WindowManagerResult<i32>,
        desktop: WindowManagerResult<i32>,
        typ: WindowManagerResult<WinType>,
        states: WindowManagerResult<Vec<WinState>>,
        geometry: WindowManagerResult<(i32, i32, u32, u32)>,
        borders: WindowManagerResult<(u32, u32, u32, u32)>,
        class: WindowManagerResult<String>,
        name: WindowManagerResult<String>,
    ) -> (r: WindowDetails)
        ensures
            r.id == id,
            r.pid == match pid {
                Ok(v) => v,
                Err(_) => -1i32,
            },
            r.desktop == match desktop {
                Ok(v) => v,
                Err(_) => -1i32,
            },
            r.typ == match typ {
                Ok(v) => v,
                Err(_) => WinType::Other(0),
            },
            r.states@ == match states {
                Ok(v) => v@,
                Err(_) => seq![WinState::Other(0)],
            },
            r.geometry == match geometry {
                Ok(v) => v,
                Err(_) => (0i32, 0i32, 0u32, 0u32),
            },
            r.borders == match borders {
                Ok(v) => v,
                Err(_) => (0u32, 0u32, 0u32, 0u32),
            },
            r.class@ == match class {
                Ok(v) => v@,
                Err(_) => Seq::<char>::empty(),
            },
            r.name@ == match name {
                Ok(v) => v@,
                Err(_) => Seq::<char>::empty(),
            },
    {
        let states = match states {
            Ok(v) => v,
            Err(_) => {
                let mut v: Vec<WinState> = Vec::new();
                v.push(WinState::Other(0));
                assert(v@ =~= seq![WinState::Other(0)]);
                v
            },
        };
        WindowDetails {
            id,
            pid: match pid {
                Ok(v) => v,
                Err(_) => -1,
            },
            desktop: match desktop {
                Ok(v) => v,
                Err(_) => -1,
            },
            typ: match typ {
                Ok(v) => v,
                Err(_) => WinType::Other(0),
            },
            states,
            geometry: match geometry {
                Ok(v) => v,
                Err(_) => (0, 0, 0, 0),
            },
            borders: match borders {
                Ok(v) => v,
                Err(_) => (0, 0, 0, 0),
            },
            class: match class {
                Ok(v) => v,
                Err(_) => String::new(),
            },
            name: match name {
                Ok(v) => v,
                Err(_) => String::new(),
            },
        }
    }
}

} // verus!
