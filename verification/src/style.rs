//! Style constraints and style patches.
//!
//! A node's style is never overwritten whole. Combinator calls produce
//! patches, and a patch is merged field by field: a field the patch leaves
//! unset keeps its previous value, a field it sets wins over every earlier
//! writer. Patches therefore compose, and applying a composed patch equals
//! applying its parts in order.
//!
//! Values enter a patch through checked setters that reject anything outside
//! the representable range, so a malformed value is fatal to that one patch,
//! never to the rest of the frame.

use vstd::prelude::*;

verus! {

/// Constraint descriptor handed to the layout solver for one node.
#[derive(Clone, Copy, PartialEq, Eq, Structural, Debug)]
pub struct Style {
    /// Inner padding, same on all sides.
    pub padding: u32,
    /// Gap between children.
    pub gap: u32,
    /// Flex growth weight.
    pub flex_grow: u32,
    /// Explicit 1-based grid row line, if any.
    pub grid_row: Option<i32>,
    /// Explicit 1-based grid column line, if any.
    pub grid_column: Option<i32>,
    /// How many grid columns the node spans.
    pub grid_column_span: u32,
    /// Fixed width, if any.
    pub width: Option<u32>,
    /// Fixed height, if any.
    pub height: Option<u32>,
}

impl Default for Style {
    /// The unconstrained style: no padding, no gap, no growth, automatic
    /// grid placement spanning one column, content-driven size.
    fn default() -> (r: Self)
        ensures
            r == Style::default_spec(),
    {
        Style {
            padding: 0,
            gap: 0,
            flex_grow: 0,
            grid_row: None,
            grid_column: None,
            grid_column_span: 1,
            width: None,
            height: None,
        }
    }
}

impl Style {
    /// The style a node starts from before any patch is merged in.
    pub open spec fn default_spec() -> Style {
        Style {
            padding: 0,
            gap: 0,
            flex_grow: 0,
            grid_row: None,
            grid_column: None,
            grid_column_span: 1,
            width: None,
            height: None,
        }
    }
}

/// A partial style: every field is optional, and only the set fields are
/// written when the patch is merged into a node's style.
#[derive(Clone, Copy, PartialEq, Eq, Structural, Debug)]
pub struct StylePatch {
    pub padding: Option<u32>,
    pub gap: Option<u32>,
    pub flex_grow: Option<u32>,
    pub grid_row: Option<i32>,
    pub grid_column: Option<i32>,
    pub grid_column_span: Option<u32>,
    pub width: Option<u32>,
    pub height: Option<u32>,
}

/// Error of the checked patch setters.
#[derive(Clone, Copy, PartialEq, Eq, Structural, Debug)]
pub enum StyleError {
    /// The value lies outside the range the style field can represent.
    OutOfRange,
}

/// The style that results from merging `patch` into `style`: set fields of
/// the patch win, unset fields keep the previous value.
pub open spec fn apply_patch_spec(patch: StylePatch, style: Style) -> Style {
    Style {
        padding: if patch.padding is Some { patch.padding->0 } else { style.padding },
        gap: if patch.gap is Some { patch.gap->0 } else { style.gap },
        flex_grow: if patch.flex_grow is Some { patch.flex_grow->0 } else { style.flex_grow },
        grid_row: if patch.grid_row is Some { patch.grid_row } else { style.grid_row },
        grid_column: if patch.grid_column is Some { patch.grid_column } else { style.grid_column },
        grid_column_span: if patch.grid_column_span is Some {
            patch.grid_column_span->0
        } else {
            style.grid_column_span
        },
        width: if patch.width is Some { patch.width } else { style.width },
        height: if patch.height is Some { patch.height } else { style.height },
    }
}

/// The single patch equivalent to merging `first` and then `second`:
/// `second`'s set fields win, `first` fills the rest.
pub open spec fn then_spec(first: StylePatch, second: StylePatch) -> StylePatch {
    StylePatch {
        padding: if second.padding is Some { second.padding } else { first.padding },
        gap: if second.gap is Some { second.gap } else { first.gap },
        flex_grow: if second.flex_grow is Some { second.flex_grow } else { first.flex_grow },
        grid_row: if second.grid_row is Some { second.grid_row } else { first.grid_row },
        grid_column: if second.grid_column is Some {
            second.grid_column
        } else {
            first.grid_column
        },
        grid_column_span: if second.grid_column_span is Some {
            second.grid_column_span
        } else {
            first.grid_column_span
        },
        width: if second.width is Some { second.width } else { first.width },
        height: if second.height is Some { second.height } else { first.height },
    }
}

impl StylePatch {
    /// The patch that writes nothing.
    pub fn empty() -> (r: Self)
        ensures
            r == StylePatch::empty_spec(),
    {
        StylePatch {
            padding: None,
            gap: None,
            flex_grow: None,
            grid_row: None,
            grid_column: None,
            grid_column_span: None,
            width: None,
            height: None,
        }
    }

    /// The patch with no set field.
    pub open spec fn empty_spec() -> StylePatch {
        StylePatch {
            padding: None,
            gap: None,
            flex_grow: None,
            grid_row: None,
            grid_column: None,
            grid_column_span: None,
            width: None,
            height: None,
        }
    }

    /// Merge this patch into a style; set fields win, the rest keep the
    /// style's previous values.
    pub fn apply(self, style: Style) -> (r: Style)
        ensures
            r == apply_patch_spec(self, style),
    {
        Style {
            padding: match self.padding {
                Some(v) => v,
                None => style.padding,
            },
            gap: match self.gap {
                Some(v) => v,
                None => style.gap,
            },
            flex_grow: match self.flex_grow {
                Some(v) => v,
                None => style.flex_grow,
            },
            grid_row: match self.grid_row {
                Some(v) => Some(v),
                None => style.grid_row,
            },
            grid_column: match self.grid_column {
                Some(v) => Some(v),
                None => style.grid_column,
            },
            grid_column_span: match self.grid_column_span {
                Some(v) => v,
                None => style.grid_column_span,
            },
            width: match self.width {
                Some(v) => Some(v),
                None => style.width,
            },
            height: match self.height {
                Some(v) => Some(v),
                None => style.height,
            },
        }
    }

    /// Combine two patches into one; the later patch's set fields win.
    pub fn then(self, second: StylePatch) -> (r: StylePatch)
        ensures
            r == then_spec(self, second),
    {
        StylePatch {
            padding: match second.padding {
                Some(v) => Some(v),
                None => self.padding,
            },
            gap: match second.gap {
                Some(v) => Some(v),
                None => self.gap,
            },
            flex_grow: match second.flex_grow {
                Some(v) => Some(v),
                None => self.flex_grow,
            },
            grid_row: match second.grid_row {
                Some(v) => Some(v),
                None => self.grid_row,
            },
            grid_column: match second.grid_column {
                Some(v) => Some(v),
                None => self.grid_column,
            },
            grid_column_span: match second.grid_column_span {
                Some(v) => Some(v),
                None => self.grid_column_span,
            },
            width: match second.width {
                Some(v) => Some(v),
                None => self.width,
            },
            height: match second.height {
                Some(v) => Some(v),
                None => self.height,
            },
        }
    }

    /// Set the padding, rejecting values outside the representable range.
    pub fn with_padding(self, v: i64) -> (r: Result<StylePatch, StyleError>)
        ensures
            0 <= v <= u32::MAX <==> r is Ok,
            r matches Ok(p) ==> p == (StylePatch { padding: Some(v as u32), ..self }),
            r matches Err(e) ==> e == StyleError::OutOfRange,
    {
        if 0 <= v && v <= u32::MAX as i64 {
            Ok(StylePatch { padding: Some(v as u32), ..self })
        } else {
            Err(StyleError::OutOfRange)
        }
    }

    /// Set the gap between children, rejecting out-of-range values.
    pub fn with_gap(self, v: i64) -> (r: Result<StylePatch, StyleError>)
        ensures
            0 <= v <= u32::MAX <==> r is Ok,
            r matches Ok(p) ==> p == (StylePatch { gap: Some(v as u32), ..self }),
            r matches Err(e) ==> e == StyleError::OutOfRange,
    {
        if 0 <= v && v <= u32::MAX as i64 {
            Ok(StylePatch { gap: Some(v as u32), ..self })
        } else {
            Err(StyleError::OutOfRange)
        }
    }

    /// Set the flex growth weight, rejecting out-of-range values.
    pub fn with_flex_grow(self, v: i64) -> (r: Result<StylePatch, StyleError>)
        ensures
            0 <= v <= u32::MAX <==> r is Ok,
            r matches Ok(p) ==> p == (StylePatch { flex_grow: Some(v as u32), ..self }),
            r matches Err(e) ==> e == StyleError::OutOfRange,
    {
        if 0 <= v && v <= u32::MAX as i64 {
            Ok(StylePatch { flex_grow: Some(v as u32), ..self })
        } else {
            Err(StyleError::OutOfRange)
        }
    }

    /// Place the node on an explicit grid row line.
    pub fn with_grid_row(self, v: i32) -> (r: StylePatch)
        ensures
            r == (StylePatch { grid_row: Some(v), ..self }),
    {
        StylePatch { grid_row: Some(v), ..self }
    }

    /// Place the node on an explicit grid column line.
    pub fn with_grid_column(self, v: i32) -> (r: StylePatch)
        ensures
            r == (StylePatch { grid_column: Some(v), ..self }),
    {
        StylePatch { grid_column: Some(v), ..self }
    }

    /// Let the node span the given number of grid columns; a span of zero is
    /// rejected.
    pub fn with_grid_column_span(self, v: i64) -> (r: Result<StylePatch, StyleError>)
        ensures
            1 <= v <= u32::MAX <==> r is Ok,
            r matches Ok(p) ==> p == (StylePatch { grid_column_span: Some(v as u32), ..self }),
            r matches Err(e) ==> e == StyleError::OutOfRange,
    {
        if 1 <= v && v <= u32::MAX as i64 {
            Ok(StylePatch { grid_column_span: Some(v as u32), ..self })
        } else {
            Err(StyleError::OutOfRange)
        }
    }

    /// Fix the node's width, rejecting out-of-range values.
    pub fn with_width(self, v: i64) -> (r: Result<StylePatch, StyleError>)
        ensures
            0 <= v <= u32::MAX <==> r is Ok,
            r matches Ok(p) ==> p == (StylePatch { width: Some(v as u32), ..self }),
            r matches Err(e) ==> e == StyleError::OutOfRange,
    {
        if 0 <= v && v <= u32::MAX as i64 {
            Ok(StylePatch { width: Some(v as u32), ..self })
        } else {
            Err(StyleError::OutOfRange)
        }
    }

    /// Fix the node's height, rejecting out-of-range values.
    pub fn with_height(self, v: i64) -> (r: Result<StylePatch, StyleError>)
        ensures
            0 <= v <= u32::MAX <==> r is Ok,
            r matches Ok(p) ==> p == (StylePatch { height: Some(v as u32), ..self }),
            r matches Err(e) ==> e == StyleError::OutOfRange,
    {
        if 0 <= v && v <= u32::MAX as i64 {
            Ok(StylePatch { height: Some(v as u32), ..self })
        } else {
            Err(StyleError::OutOfRange)
        }
    }
}

/// Merging a combined patch equals merging its parts in order: the later
/// writer of each field wins, so combinators compose.
pub proof fn lemma_patch_compose(first: StylePatch, second: StylePatch, style: Style)
    ensures
        apply_patch_spec(then_spec(first, second), style)
            == apply_patch_spec(second, apply_patch_spec(first, style)),
{
}

/// Merging the empty patch changes nothing.
pub proof fn lemma_patch_empty(style: Style)
    ensures
        apply_patch_spec(StylePatch::empty_spec(), style) == style,
{
}

} // verus!
