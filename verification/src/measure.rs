//! The measurement bridge: intrinsic sizes reported by native widgets, and
//! the per-widget corrections applied to what a probe reports.
//!
//! Only the native widget knows how to size itself, so each leaf's content
//! is executed once inside a throwaway probe; the plain numbers read back
//! here are the only place that knowledge crosses into the solver's
//! vocabulary.

use vstd::prelude::*;

verus! {

/// A non-negative size in layout coordinates.
#[derive(Clone, Copy, PartialEq, Eq, Structural, Debug)]
pub struct Size {
    pub w: u32,
    pub h: u32,
}

/// A leaf's self-reported footprint, independent of any layout constraint.
#[derive(Clone, Copy, PartialEq, Eq, Structural, Debug)]
pub struct IntrinsicSize {
    /// Smallest footprint the widget can draw itself in.
    pub min: Size,
    /// Largest footprint the widget would use.
    pub max: Size,
    /// The footprint the widget prefers.
    pub preferred: Size,
}

impl IntrinsicSize {
    /// The fallback for leaves that cannot be measured: fully
    /// constraint-driven, zero everywhere.
    pub fn zero() -> (r: IntrinsicSize)
        ensures
            r == IntrinsicSize::zero_spec(),
    {
        IntrinsicSize {
            min: Size { w: 0, h: 0 },
            max: Size { w: 0, h: 0 },
            preferred: Size { w: 0, h: 0 },
        }
    }

    /// The all-zero intrinsic size.
    pub open spec fn zero_spec() -> IntrinsicSize {
        IntrinsicSize {
            min: Size { w: 0, h: 0 },
            max: Size { w: 0, h: 0 },
            preferred: Size { w: 0, h: 0 },
        }
    }
}

/// What one probe of a leaf's content reports back, before the per-widget
/// corrections below are applied.
#[derive(Clone, Copy, PartialEq, Eq, Structural, Debug)]
pub struct TuiContainerResponse<T> {
    /// Whatever the probed content returned.
    pub inner: T,
    /// Smallest footprint the content drew itself in.
    pub min_size: Size,
    /// Largest footprint the content would use.
    pub max_size: Size,
    /// The content's self-reported intrinsic size, if it reports one.
    pub intrinsic_size: Option<Size>,
    /// Whether the content wants unbounded width.
    pub infinite_x: bool,
    /// Whether the content wants unbounded height.
    pub infinite_y: bool,
}

/// The correction most widgets need: none. Hands the probe's report back
/// unchanged.
pub fn identity_transform<T>(value: TuiContainerResponse<T>) -> (r: TuiContainerResponse<T>)
    ensures
        r == value,
{
    value
}

/// Correction for text labels: a label's self-reported intrinsic height
/// ignores wrapping, so it is raised to the height the label actually drew
/// itself at. A label that reports no intrinsic size is left alone.
pub fn fix_label_response<T>(value: TuiContainerResponse<T>) -> (r: TuiContainerResponse<T>)
    ensures
        r.intrinsic_size == (match value.intrinsic_size {
            Some(sz) => Some(
                Size {
                    w: sz.w,
                    h: if sz.h >= value.min_size.h {
                        sz.h
                    } else {
                        value.min_size.h
                    },
                },
            ),
            None => None::<Size>,
        }),
        r.inner == value.inner,
        r.min_size == value.min_size,
        r.max_size == value.max_size,
        r.infinite_x == value.infinite_x,
        r.infinite_y == value.infinite_y,
{
    let intrinsic_size = match value.intrinsic_size {
        Some(sz) => Some(
            Size {
                w: sz.w,
                h: if sz.h >= value.min_size.h {
                    sz.h
                } else {
                    value.min_size.h
                },
            },
        ),
        None => None,
    };
    TuiContainerResponse { intrinsic_size, ..value }
}

/// Correction for progress bars: the bar itself has a fixed natural
/// footprint, so the reported intrinsic size is capped at it component by
/// component (or replaced by it when nothing was reported), and the bar is
/// declared to grow without bound horizontally but not vertically.
pub fn fix_progress_bar_response<T>(value: TuiContainerResponse<T>, natural: Size) -> (r:
    TuiContainerResponse<T>)
    ensures
        r.intrinsic_size == Some(
            (match value.intrinsic_size {
                Some(sz) => Size {
                    w: if sz.w <= natural.w {
                        sz.w
                    } else {
                        natural.w
                    },
                    h: if sz.h <= natural.h {
                        sz.h
                    } else {
                        natural.h
                    },
                },
                None => natural,
            }),
        ),
        r.infinite_x,
        !r.infinite_y,
        r.inner == value.inner,
        r.min_size == value.min_size,
        r.max_size == value.max_size,
{
    let intrinsic_size = match value.intrinsic_size {
        Some(sz) => Size {
            w: if sz.w <= natural.w {
                sz.w
            } else {
                natural.w
            },
            h: if sz.h <= natural.h {
                sz.h
            } else {
                natural.h
            },
        },
        None => natural,
    };
    TuiContainerResponse {
        intrinsic_size: Some(intrinsic_size),
        infinite_x: true,
        infinite_y: false,
        ..value
    }
}

/// Correction for buttons: a button may grow in both dimensions, so its
/// upper size bound is collapsed onto its minimum and unbounded growth is
/// switched off on both axes.
pub fn fix_button_response<T>(value: TuiContainerResponse<T>) -> (r: TuiContainerResponse<T>)
    ensures
        r.max_size == value.min_size,
        !r.infinite_x,
        !r.infinite_y,
        r.inner == value.inner,
        r.min_size == value.min_size,
        r.intrinsic_size == value.intrinsic_size,
{
    TuiContainerResponse {
        max_size: value.min_size,
        infinite_x: false,
        infinite_y: false,
        ..value
    }
}

} // verus!
