//! Integer geometry for layout rectangles and viewports, and the clamping
//! rule applied to sticky nodes inside scrolled regions.
//!
//! A sticky node keeps its solved extent, but on each pinned axis its start
//! coordinate is pulled into the visible viewport range. The pull never moves
//! the node before its own solved start, so a pinned header never scrolls
//! ahead of its own row or column.

use vstd::prelude::*;

verus! {

use vstd::math::{min, max};

/// An axis-aligned rectangle in layout coordinates.
///
/// `x`/`y` are the top-left corner; `w`/`h` are non-negative extents.
#[derive(Clone, Copy, PartialEq, Eq, Structural, Debug)]
pub struct Rect {
    pub x: i32,
    pub y: i32,
    pub w: i32,
    pub h: i32,
}

impl Rect {
    /// A rectangle is well formed when its extents are non-negative and its
    /// far corner still fits in the coordinate type.
    pub open spec fn well_formed(self) -> bool {
        &&& 0 <= self.w
        &&& 0 <= self.h
        &&& self.x + self.w <= i32::MAX
        &&& self.y + self.h <= i32::MAX
    }
}

/// Which axes of a node are pinned inside its scrollable ancestor.
///
/// Both default to `false`: an ordinary node scrolls with its siblings.
#[derive(Clone, Copy, PartialEq, Eq, Structural, Debug)]
pub struct StickyAxes {
    pub x: bool,
    pub y: bool,
}

impl Default for StickyAxes {
    /// Nodes are not pinned unless asked for.
    fn default() -> (r: Self)
        ensures
            !r.x,
            !r.y,
    {
        StickyAxes { x: false, y: false }
    }
}

impl StickyAxes {
    /// True when at least one axis is pinned.
    pub open spec fn any(self) -> bool {
        self.x || self.y
    }

    /// True when both axes are pinned (the corner-cell case).
    pub open spec fn both(self) -> bool {
        self.x && self.y
    }
}

/// Where a pinned start coordinate lands: pulled into the viewport span
/// `[v, v + vlen - len]`, but never moved before the node's own start `s`.
pub open spec fn clamp_axis_spec(s: int, len: int, v: int, vlen: int) -> int {
    min(max(s, v), max(s, v + vlen - len))
}

/// The clamped coordinate never lies before the node's own solved start.
pub proof fn lemma_clamp_axis_no_overshoot(s: int, len: int, v: int, vlen: int)
    ensures
        clamp_axis_spec(s, len, v, vlen) >= s,
{
}

/// Clamping a coordinate that was already clamped against the same viewport
/// changes nothing.
pub proof fn lemma_clamp_axis_idempotent(s: int, len: int, v: int, vlen: int)
    ensures
        clamp_axis_spec(clamp_axis_spec(s, len, v, vlen), len, v, vlen)
            == clamp_axis_spec(s, len, v, vlen),
{
}

/// Clamp one start coordinate of a pinned node into the viewport span on
/// that axis.
pub fn sticky_clamp_axis(s: i32, len: i32, v: i32, vlen: i32) -> (r: i32)
    requires
        0 <= len,
        0 <= vlen,
        v + vlen <= i32::MAX,
    ensures
        r == clamp_axis_spec(s as int, len as int, v as int, vlen as int),
{
    let s64: i64 = s as i64;
    let hi_raw: i64 = v as i64 + vlen as i64 - len as i64;
    let lo: i64 = if s64 > v as i64 { s64 } else { v as i64 };
    let hi: i64 = if s64 > hi_raw { s64 } else { hi_raw };
    let r64: i64 = if lo < hi { lo } else { hi };
    r64 as i32
}

/// The rectangle painted for a sticky node: the solved rectangle with each
/// pinned axis clamped into the viewport, the other axis left untouched.
pub open spec fn sticky_clamp_spec(rect: Rect, viewport: Rect, axes: StickyAxes) -> Rect {
    Rect {
        x: if axes.x {
            clamp_axis_spec(rect.x as int, rect.w as int, viewport.x as int, viewport.w as int) as i32
        } else {
            rect.x
        },
        y: if axes.y {
            clamp_axis_spec(rect.y as int, rect.h as int, viewport.y as int, viewport.h as int) as i32
        } else {
            rect.y
        },
        w: rect.w,
        h: rect.h,
    }
}

/// The clamped coordinate stays inside the `i32` range whenever the inputs
/// are `i32` values, so the casts in `sticky_clamp_spec` do not truncate.
pub proof fn lemma_clamp_axis_in_range(s: int, len: int, v: int, vlen: int)
    requires
        i32::MIN <= s <= i32::MAX,
        i32::MIN <= v <= i32::MAX,
    ensures
        i32::MIN <= clamp_axis_spec(s, len, v, vlen) <= i32::MAX,
{
}

/// Compute the paint rectangle of a sticky node from its solved rectangle,
/// the scroll viewport, and the node's pinned axes.
pub fn sticky_clamp(rect: Rect, viewport: Rect, axes: StickyAxes) -> (r: Rect)
    requires
        rect.well_formed(),
        viewport.well_formed(),
    ensures
        r == sticky_clamp_spec(rect, viewport, axes),
        r.w == rect.w,
        r.h == rect.h,
        !axes.x ==> r.x == rect.x,
        !axes.y ==> r.y == rect.y,
{
    proof {
        lemma_clamp_axis_in_range(
            rect.x as int, rect.w as int, viewport.x as int, viewport.w as int);
        lemma_clamp_axis_in_range(
            rect.y as int, rect.h as int, viewport.y as int, viewport.h as int);
    }
    let x = if axes.x {
        sticky_clamp_axis(rect.x, rect.w, viewport.x, viewport.w)
    } else {
        rect.x
    };
    let y = if axes.y {
        sticky_clamp_axis(rect.y, rect.h, viewport.y, viewport.h)
    } else {
        rect.y
    };
    Rect { x, y, w: rect.w, h: rect.h }
}

/// Clamping a sticky rectangle is idempotent: once a rectangle has been
/// clamped against a viewport, clamping it again against the same viewport
/// returns it unchanged.
pub proof fn lemma_sticky_clamp_idempotent(rect: Rect, viewport: Rect, axes: StickyAxes)
    requires
        rect.well_formed(),
        viewport.well_formed(),
    ensures
        sticky_clamp_spec(sticky_clamp_spec(rect, viewport, axes), viewport, axes)
            == sticky_clamp_spec(rect, viewport, axes),
{
    lemma_clamp_axis_in_range(
        rect.x as int, rect.w as int, viewport.x as int, viewport.w as int);
    lemma_clamp_axis_in_range(
        rect.y as int, rect.h as int, viewport.y as int, viewport.h as int);
    lemma_clamp_axis_idempotent(
        rect.x as int, rect.w as int, viewport.x as int, viewport.w as int);
    lemma_clamp_axis_idempotent(
        rect.y as int, rect.h as int, viewport.y as int, viewport.h as int);
}

} // verus!
