//! Layout arithmetic: the size that a shape preset asks for and the place that
//! a position preset asks for.
//!
//! All sizes are in pixels and exclude the decoration that the window manager
//! puts around a window; `border` is the combined inset of the two sides of one
//! axis. Differences stop at zero and results stop at the largest 32-bit value.

use vstd::prelude::*;
use crate::model::{WinGravity, WinPosition, WinShape};

verus! {

/// The smallest content size, in pixels, that shrinking leaves.
pub const SHRINK_FLOOR: u32 = 100;

/// `a - b`, or zero where `b` is the larger.
pub open spec fn minus(a: int, b: int) -> int {
    if a > b {
        a - b
    } else {
        0
    }
}

/// `a`, or the largest 32-bit value where `a` is above it.
pub open spec fn capped(a: int) -> int {
    if a > u32::MAX {
        u32::MAX as int
    } else {
        a
    }
}

/// The part of one axis of the work area that a window's content can fill.
pub open spec fn usable(work: u32, border: u32) -> u32 {
    minus(work as int, border as int) as u32
}

/// One step of growth along one axis: the content grows by a hundredth,
/// rounded down, and the result stops at the usable extent.
pub open spec fn grown(size: u32, border: u32, work: u32) -> u32 {
    let next = minus(size as int, border as int) * 101 / 100 + border;
    if next >= usable(work, border) {
        usable(work, border)
    } else {
        next as u32
    }
}

/// One step of shrinking along one axis: the content shrinks by a hundredth,
/// rounded down, but not below `SHRINK_FLOOR`; the border is added afterwards.
pub open spec fn shrunk(size: u32, border: u32) -> u32 {
    let next = minus(size as int, border as int) * 99 / 100;
    capped((if next < 100 { 100 } else { next }) + border) as u32
}

/// Three quarters of `extent`, rounded down.
pub open spec fn three_quarters(extent: u32) -> u32 {
    (extent * 3 / 4) as u32
}

/// Four thirds of `extent`, rounded down.
pub open spec fn four_thirds(extent: u32) -> u32 {
    capped(extent * 4 / 3) as u32
}

/// The width and height that `shape` asks for, or `None` where it leaves the
/// size as it is.
pub open spec fn shape_size(
    shape: WinShape,
    w: u32,
    h: u32,
    bw: u32,
    bh: u32,
    work_width: u32,
    work_height: u32,
) -> Option<(u32, u32)> {
    let fw = usable(work_width, bw);
    let fh = usable(work_height, bh);
    match shape {
        WinShape::Max | WinShape::UnMax | WinShape::Square => None,
        WinShape::Grow => Some((grown(w, bw, work_width), grown(h, bh, work_height))),
        WinShape::Halfw => Some((fw / 2, fh)),
        WinShape::Halfh => Some((fw, fh / 2)),
        WinShape::Small => Some((fw / 2, fh / 2)),
        WinShape::Medium => if work_height < work_width {
            Some((fh, three_quarters(fh)))
        } else {
            Some((three_quarters(fw), fw))
        },
        WinShape::Large => if work_height < work_width {
            Some((four_thirds(fh), fh))
        } else {
            Some((fw, four_thirds(fw)))
        },
        WinShape::Shrink => Some((shrunk(w, bw), shrunk(h, bh))),
    }
}

/// The gravity that goes with `shape`: none at all for the two presets that
/// are left to the window manager, the centre for every preset that sets a
/// size, and no anchor for the rest.
pub open spec fn shape_gravity(shape: WinShape) -> Option<WinGravity> {
    match shape {
        WinShape::Max | WinShape::UnMax => None,
        WinShape::Square => Some(WinGravity::Unset),
        _ => Some(WinGravity::Center),
    }
}

/// Where a window is put along one axis so that it sits in the middle.
pub open spec fn centered(work: u32, size: u32, border: u32) -> u32 {
    minus(work as int / 2, (size + border) / 2) as u32
}

/// Where a window is put along one axis so that it touches the far edge.
pub open spec fn far_edge(work: u32, size: u32, border: u32) -> u32 {
    minus(work as int, size + border) as u32
}

/// The coordinates that `pos` asks for. `None` leaves the window where it is
/// along that axis.
pub open spec fn position_target(
    pos: WinPosition,
    w: u32,
    h: u32,
    bw: u32,
    bh: u32,
    work_width: u32,
    work_height: u32,
) -> (Option<u32>, Option<u32>) {
    let cx = centered(work_width, w, bw);
    let cy = centered(work_height, h, bh);
    let lx = far_edge(work_width, w, bw);
    let ty = far_edge(work_height, h, bh);
    match pos {
        WinPosition::Center => (Some(cx), Some(cy)),
        WinPosition::Left => (Some(0u32), None),
        WinPosition::Right => (Some(lx), None),
        WinPosition::Top => (None, Some(0u32)),
        WinPosition::Bottom => (None, Some(ty)),
        WinPosition::TopLeft => (Some(0u32), Some(0u32)),
        WinPosition::TopRight => (Some(lx), Some(0u32)),
        WinPosition::BottomLeft => (Some(0u32), Some(ty)),
        WinPosition::BottomRight => (Some(lx), Some(ty)),
        WinPosition::LeftCenter => (Some(0u32), Some(cy)),
        WinPosition::RightCenter => (Some(lx), Some(cy)),
        WinPosition::TopCenter => (Some(cx), Some(0u32)),
        WinPosition::BottomCenter => (Some(cx), Some(ty)),
    }
}

/// Computes `usable`.
pub fn usable_extent(work: u32, border: u32) -> (r: u32)
    ensures
        r == usable(work, border),
{
    work.saturating_sub(border)
}

/// Computes `grown`.
pub fn grow(size: u32, border: u32, work: u32) -> (r: u32)
    ensures
        r == grown(size, border, work),
        r <= usable(work, border),
{
    let full: u32 = usable_extent(work, border);
    let content: u64 = size.saturating_sub(border) as u64;
    let next: u64 = content * 101 / 100 + border as u64;
    if next >= full as u64 {
        full
    } else {
        next as u32
    }
}

/// Computes `shrunk`.
pub fn shrink(size: u32, border: u32) -> (r: u32)
    ensures
        r == shrunk(size, border),
{
    let content: u64 = size.saturating_sub(border) as u64;
    let scaled: u64 = content * 99 / 100;
    let kept: u64 = if scaled < SHRINK_FLOOR as u64 {
        SHRINK_FLOOR as u64
    } else {
        scaled
    };
    let next: u64 = kept + border as u64;
    if next > u32::MAX as u64 {
        u32::MAX
    } else {
        next as u32
    }
}

/// The size that `shape` asks for on a window of `w` by `h` pixels, on a work
/// area of `work_width` by `work_height`.
pub fn shape_target(
    shape: WinShape,
    w: u32,
    h: u32,
    bw: u32,
    bh: u32,
    work_width: u32,
    work_height: u32,
) -> (r: (Option<WinGravity>, Option<u32>, Option<u32>))
    ensures
        r.0 == shape_gravity(shape),
        match shape_size(shape, w, h, bw, bh, work_width, work_height) {
            Some((width, height)) => r.1 == Some(width) && r.2 == Some(height),
            None => r.1 is None && r.2 is None,
        },
{
    let fw: u32 = usable_extent(work_width, bw);
    let fh: u32 = usable_extent(work_height, bh);
    match shape {
        WinShape::Max | WinShape::UnMax => (None, None, None),
        WinShape::Square => (Some(WinGravity::Unset), None, None),
        WinShape::Grow => (
            Some(WinGravity::Center),
            Some(grow(w, bw, work_width)),
            Some(grow(h, bh, work_height)),
        ),
        WinShape::Halfw => (Some(WinGravity::Center), Some(fw / 2), Some(fh)),
        WinShape::Halfh => (Some(WinGravity::Center), Some(fw), Some(fh / 2)),
        WinShape::Small => (Some(WinGravity::Center), Some(fw / 2), Some(fh / 2)),
        WinShape::Medium => {
            if work_height < work_width {
                (Some(WinGravity::Center), Some(fh), Some(three_quarters_of(fh)))
            } else {
                (Some(WinGravity::Center), Some(three_quarters_of(fw)), Some(fw))
            }
        },
        WinShape::Large => {
            if work_height < work_width {
                (Some(WinGravity::Center), Some(four_thirds_of(fh)), Some(fh))
            } else {
                (Some(WinGravity::Center), Some(fw), Some(four_thirds_of(fw)))
            }
        },
        WinShape::Shrink => (Some(WinGravity::Center), Some(shrink(w, bw)), Some(shrink(h, bh))),
    }
}

/// Computes `three_quarters`.
pub fn three_quarters_of(extent: u32) -> (r: u32)
    ensures
        r == three_quarters(extent),
{
    (extent as u64 * 3 / 4) as u32
}

/// Computes `four_thirds`.
pub fn four_thirds_of(extent: u32) -> (r: u32)
    ensures
        r == four_thirds(extent),
{
    let scaled: u64 = extent as u64 * 4 / 3;
    if scaled > u32::MAX as u64 {
        u32::MAX
    } else {
        scaled as u32
    }
}

/// The coordinates that `pos` asks for on a window of `w` by `h` pixels.
pub fn position(
    pos: WinPosition,
    w: u32,
    h: u32,
    bw: u32,
    bh: u32,
    work_width: u32,
    work_height: u32,
) -> (r: (Option<u32>, Option<u32>))
    ensures
        r == position_target(pos, w, h, bw, bh, work_width, work_height),
{
    let cx: u32 = center(work_width, w, bw);
    let cy: u32 = center(work_height, h, bh);
    let lx: u32 = edge(work_width, w, bw);
    let ty: u32 = edge(work_height, h, bh);
    match pos {
        WinPosition::Center => (Some(cx), Some(cy)),
        WinPosition::Left => (Some(0), None),
        WinPosition::Right => (Some(lx), None),
        WinPosition::Top => (None, Some(0)),
        WinPosition::Bottom => (None, Some(ty)),
        WinPosition::TopLeft => (Some(0), Some(0)),
        WinPosition::TopRight => (Some(lx), Some(0)),
        WinPosition::BottomLeft => (Some(0), Some(ty)),
        WinPosition::BottomRight => (Some(lx), Some(ty)),
        WinPosition::LeftCenter => (Some(0), Some(cy)),
        WinPosition::RightCenter => (Some(lx), Some(cy)),
        WinPosition::TopCenter => (Some(cx), Some(0)),
        WinPosition::BottomCenter => (Some(cx), Some(ty)),
    }
}

/// Computes `centered`.
pub fn center(work: u32, size: u32, border: u32) -> (r: u32)
    ensures
        r == centered(work, size, border),
{
    let half_frame: u64 = (size as u64 + border as u64) / 2;
    let half_work: u64 = work as u64 / 2;
    if half_frame >= half_work {
        0
    } else {
        (half_work - half_frame) as u32
    }
}

/// Computes `far_edge`.
pub fn edge(work: u32, size: u32, border: u32) -> (r: u32)
    ensures
        r == far_edge(work, size, border),
{
    let frame: u64 = size as u64 + border as u64;
    if frame >= work as u64 {
        0
    } else {
        (work as u64 - frame) as u32
    }
}

/// The size after `n` steps of growth along one axis.
pub open spec fn grown_times(size: u32, border: u32, work: u32, n: nat) -> u32
    decreases n,
{
    if n == 0 {
        size
    } else {
        grown_times(grown(size, border, work), border, work, (n - 1) as nat)
    }
}

/// The width and height of a window after `shape` was applied to it.
pub open spec fn shaped(
    shape: WinShape,
    w: u32,
    h: u32,
    bw: u32,
    bh: u32,
    work_width: u32,
    work_height: u32,
) -> (u32, u32) {
    match shape_size(shape, w, h, bw, bh, work_width, work_height) {
        Some(size) => size,
        None => (w, h),
    }
}

/// A preset other than growing and shrinking asks for the same size whatever
/// size the window has, so applying it a second time changes nothing.
pub proof fn lemma_shape_is_idempotent(
    shape: WinShape,
    w: u32,
    h: u32,
    other_w: u32,
    other_h: u32,
    bw: u32,
    bh: u32,
    work_width: u32,
    work_height: u32,
)
    requires
        shape != WinShape::Grow,
        shape != WinShape::Shrink,
    ensures
        shape_size(shape, w, h, bw, bh, work_width, work_height) == shape_size(
            shape,
            other_w,
            other_h,
            bw,
            bh,
            work_width,
            work_height,
        ),
        ({
            let once = shaped(shape, w, h, bw, bh, work_width, work_height);
            shaped(shape, once.0, once.1, bw, bh, work_width, work_height) == once
        }),
{
}

/// Growth never passes the usable extent, never makes a window that is below
/// it smaller, and leaves a window that fills it as it is.
pub proof fn lemma_grow_is_bounded(size: u32, border: u32, work: u32)
    ensures
        grown(size, border, work) <= usable(work, border),
        size <= usable(work, border) && border <= size ==> size <= grown(size, border, work),
        grown(usable(work, border), border, work) == usable(work, border),
{
}

/// Repeated growth ends at exactly the usable extent. This holds of every
/// window whose content is at least a hundred pixels wide, and of a smaller one
/// where a single step already reaches the usable extent: the hundredth of a
/// smaller content rounds down to nothing.
pub proof fn lemma_grow_reaches_full(size: u32, border: u32, work: u32)
    requires
        minus(size as int, border as int) >= 100 || minus(size as int, border as int) + border
            >= usable(work, border),
    ensures
        exists|n: nat| #[trigger] grown_times(size, border, work, n) == usable(work, border),
    decreases usable(work, border) - size,
{
    let full = usable(work, border);
    let next = grown(size, border, work);
    if next == full {
        assert(grown_times(full, border, work, 0) == full);
        assert(grown_times(size, border, work, 1) == full);
    } else {
        assert(minus(size as int, border as int) >= 100);
        assert(next > size);
        assert(minus(next as int, border as int) >= 100);
        lemma_grow_reaches_full(next, border, work);
        let n = choose|n: nat| #[trigger] grown_times(next, border, work, n) == full;
        assert(grown_times(size, border, work, n + 1) == full);
    }
}

/// Once repeated growth has reached the usable extent, further steps keep it.
pub proof fn lemma_grow_stays_full(size: u32, border: u32, work: u32, n: nat, m: nat)
    requires
        n <= m,
        grown_times(size, border, work, n) == usable(work, border),
    ensures
        grown_times(size, border, work, m) == usable(work, border),
    decreases m,
{
    let full = usable(work, border);
    if n == 0 {
        lemma_full_stays(border, work, m);
    } else {
        lemma_grow_stays_full(
            grown(size, border, work),
            border,
            work,
            (n - 1) as nat,
            (m - 1) as nat,
        );
    }
}

proof fn lemma_full_stays(border: u32, work: u32, m: nat)
    ensures
        grown_times(usable(work, border), border, work, m) == usable(work, border),
    decreases m,
{
    if m > 0 {
        lemma_grow_is_bounded(usable(work, border), border, work);
        lemma_full_stays(border, work, (m - 1) as nat);
    }
}

/// Shrinking leaves at least `SHRINK_FLOOR` pixels of content, and a content of
/// at most a hundred and one pixels ends at exactly that floor.
pub proof fn lemma_shrink_floor(size: u32, border: u32)
    ensures
        shrunk(size, border) == u32::MAX || shrunk(size, border) >= SHRINK_FLOOR + border,
        minus(size as int, border as int) <= 101 ==> shrunk(size, border) == capped(
            SHRINK_FLOOR + border,
        ),
        SHRINK_FLOOR + border <= size ==> shrunk(size, border) <= size,
{
}

} // verus!
