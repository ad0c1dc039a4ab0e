//! Row virtualization: materialize only the rows visible in the scroll
//! viewport, while keeping the scrollable extent — and with it the host's
//! scrollbar proportion — exactly what the full row count implies.
//!
//! The rows skipped before and after the visible window are each
//! represented to the solver as a single filler gap sized
//! `skipped rows × estimated row height`, so for every scroll offset
//! `header + window + before gap + after gap` adds up to the same constant
//! extent. Materialized rows get explicit keys derived from their logical
//! row index, never from call order, so a row scrolled away and back
//! regains the id — and with it the outside focus/drag/animation state —
//! it had before.

use vstd::prelude::*;

use crate::ids::{Discriminator, id_of_path};
use crate::tree::{Node, TreeBuilder};

verus! {

use vstd::arithmetic::mul::lemma_mul_inequality;
use vstd::math::min;

/// Row height assumed before any row has been measured.
pub const DEFAULT_ROW_HEIGHT: u64 = 24;

/// What the caller declares about the virtualized grid.
#[derive(Clone, Copy, PartialEq, Eq, Structural, Debug)]
pub struct VirtualGridRowHelperParams {
    /// Rows pinned above the window (not virtualized).
    pub header_row_count: u64,
    /// Total number of logical rows.
    pub row_count: u64,
}

/// Scroll state read from the scrollable ancestor this frame.
#[derive(Clone, Copy, PartialEq, Eq, Structural, Debug)]
pub struct ScrollState {
    /// Current vertical scroll offset past the header rows.
    pub offset: u64,
    /// Height of the visible viewport; zero until first measured.
    pub viewport_height: u64,
    /// Current estimate of one row's height; at least one.
    pub estimated_row_height: u64,
}

/// The contiguous slice of logical rows materialized this frame, plus the
/// two filler gaps standing in for everything that was skipped.
#[derive(Clone, Copy, PartialEq, Eq, Structural, Debug)]
pub struct VirtualWindow {
    /// First logical row inside the window.
    pub first_visible_row: u64,
    /// How many logical rows the window holds.
    pub visible_row_count: u64,
    /// Header rows materialized in front of the window.
    pub header_row_count: u64,
    /// The row-height estimate the window was computed with.
    pub estimated_row_height: u64,
    /// Height of the filler gap standing in for the skipped rows above.
    pub before_gap: u64,
    /// Height of the filler gap standing in for the skipped rows below.
    pub after_gap: u64,
}

/// First row of the window for a scroll offset: the row the offset lands
/// in, capped at the total row count.
pub open spec fn first_visible_spec(offset: u64, est: u64, row_count: u64) -> int {
    min(offset as int / est as int, row_count as int)
}

/// How many rows the window holds: as many as fit the viewport, capped at
/// the rows that remain.
pub open spec fn visible_count_spec(
    offset: u64,
    viewport_height: u64,
    est: u64,
    row_count: u64,
) -> int {
    min(
        viewport_height as int / est as int,
        row_count - first_visible_spec(offset, est, row_count),
    )
}

/// The window a scroll state selects.
pub open spec fn window_spec(params: VirtualGridRowHelperParams, scroll: ScrollState) -> VirtualWindow {
    let first = first_visible_spec(scroll.offset, scroll.estimated_row_height, params.row_count);
    let visible = visible_count_spec(
        scroll.offset,
        scroll.viewport_height,
        scroll.estimated_row_height,
        params.row_count,
    );
    VirtualWindow {
        first_visible_row: first as u64,
        visible_row_count: visible as u64,
        header_row_count: params.header_row_count,
        estimated_row_height: scroll.estimated_row_height,
        before_gap: (first * scroll.estimated_row_height) as u64,
        after_gap: ((params.row_count - first - visible) * scroll.estimated_row_height) as u64,
    }
}

/// Drives per-row emission for a virtualized grid.
pub struct VirtualGridRowHelper {}

/// Identity and placement of one materialized row.
#[derive(Clone, Copy, PartialEq, Eq, Structural, Debug)]
pub struct VirtRowInfo {
    /// The logical row index.
    pub idx: u64,
    /// One-based grid row line the row occupies this frame, counted after
    /// the header rows and the single before-gap filler row.
    pub grid_row: u64,
    /// Explicit identity key: the logical row index, so identity follows
    /// the row, not its position inside the sliding window.
    pub key: Discriminator,
}

impl VirtualGridRowHelper {
    /// Compute the visible row window and the two filler gaps for the
    /// current scroll state.
    ///
    /// A zero viewport height (not yet measured) or a zero row count are
    /// ordinary transient states and yield an empty window, leaving only
    /// the header rows to materialize.
    pub fn window(params: VirtualGridRowHelperParams, scroll: ScrollState) -> (w: VirtualWindow)
        requires
            scroll.estimated_row_height >= 1,
            (params.header_row_count + params.row_count) * scroll.estimated_row_height
                <= u64::MAX,
        ensures
            w == window_spec(params, scroll),
            w.first_visible_row + w.visible_row_count <= params.row_count,
    {
        let est = scroll.estimated_row_height;
        let by_offset = scroll.offset / est;
        let first = if by_offset < params.row_count {
            by_offset
        } else {
            params.row_count
        };
        let fit = scroll.viewport_height / est;
        let remaining = params.row_count - first;
        let visible = if fit < remaining {
            fit
        } else {
            remaining
        };
        let skipped_after = remaining - visible;
        proof {
            lemma_mul_inequality(first as int, params.row_count as int, est as int);
            lemma_mul_inequality(skipped_after as int, params.row_count as int, est as int);
            lemma_mul_inequality(
                params.row_count as int,
                (params.header_row_count + params.row_count) as int,
                est as int,
            );
        }
        let before_gap = first * est;
        let after_gap = skipped_after * est;
        VirtualWindow {
            first_visible_row: first,
            visible_row_count: visible,
            header_row_count: params.header_row_count,
            estimated_row_height: est,
            before_gap,
            after_gap,
        }
    }

    /// Identity and grid placement for every materialized row of the
    /// window, in logical order: row `first + j` sits on grid line
    /// `header rows + before-gap filler + j + 1` under its own logical key.
    pub fn rows(w: &VirtualWindow) -> (v: Vec<VirtRowInfo>)
        requires
            w.first_visible_row + w.visible_row_count <= u64::MAX,
            w.header_row_count + 2 + w.visible_row_count <= u64::MAX,
        ensures
            v@.len() == w.visible_row_count,
            forall|j: int|
                0 <= j < v@.len() ==> #[trigger] v@[j] == (VirtRowInfo {
                    idx: (w.first_visible_row + j) as u64,
                    grid_row: (w.header_row_count + 2 + j) as u64,
                    key: Discriminator::Key((w.first_visible_row + j) as u64),
                }),
    {
        let mut v: Vec<VirtRowInfo> = Vec::new();
        let mut j: u64 = 0;
        while j < w.visible_row_count
            invariant
                0 <= j <= w.visible_row_count,
                w.first_visible_row + w.visible_row_count <= u64::MAX,
                w.header_row_count + 2 + w.visible_row_count <= u64::MAX,
                v@.len() == j,
                forall|t: int|
                    0 <= t < v@.len() ==> #[trigger] v@[t] == (VirtRowInfo {
                        idx: (w.first_visible_row + t) as u64,
                        grid_row: (w.header_row_count + 2 + t) as u64,
                        key: Discriminator::Key((w.first_visible_row + t) as u64),
                    }),
            decreases w.visible_row_count - j,
        {
            let idx = w.first_visible_row + j;
            v.push(VirtRowInfo {
                idx,
                grid_row: w.header_row_count + 2 + j,
                key: Discriminator::Key(idx),
            });
            j = j + 1;
        }
        v
    }

    /// Materialize the window's rows as nodes of the tree under
    /// construction, one per visible logical row, attached in logical
    /// order under the innermost open node and each under the explicit key
    /// of its logical row index.
    ///
    /// Identity therefore follows the row, not the sliding window: a row
    /// scrolled away and back is declared under the same key below the
    /// same parent, so its id — the fingerprint of the parent's path
    /// extended by that key — is the same, and it regains whatever outside
    /// state was attached to it. Everything already in the tree is kept,
    /// apart from the parent's child counter growing by one per row.
    pub fn emit_rows(b: &mut TreeBuilder, w: &VirtualWindow) -> (handles: Vec<usize>)
        requires
            old(b).well_formed(),
            old(b).nodes@.len() + w.visible_row_count < usize::MAX,
            w.first_visible_row + w.visible_row_count <= u64::MAX,
        ensures
            final(b).well_formed(),
            final(b).open_nodes@ == old(b).open_nodes@,
            final(b).nodes@.len() == old(b).nodes@.len() + w.visible_row_count,
            handles@.len() == w.visible_row_count,
            forall|j: int|
                0 <= j < handles@.len() ==> #[trigger] handles@[j] == old(b).nodes@.len() + j,
            // each emitted node hangs under the old innermost open node,
            // keyed by its logical row index, with the id of that path
            forall|j: int|
                0 <= j < handles@.len() ==> ({
                    let parent = old(b).innermost_open();
                    let node = #[trigger] final(b).nodes@[handles@[j] as int];
                    let key = Discriminator::Key((w.first_visible_row + j) as u64);
                    &&& node.parent matches Some(p) && p == parent
                    &&& node.disc == key
                    &&& node.path@ == old(b).nodes@[parent].path@.push(key)
                    &&& node.id == id_of_path(old(b).nodes@[parent].path@.push(key))
                }),
            // everything already in the tree is kept, apart from the
            // parent's child counter growing by one per emitted row
            forall|i: int|
                0 <= i < old(b).nodes@.len() && i != old(b).innermost_open()
                    ==> #[trigger] final(b).nodes@[i] == old(b).nodes@[i],
            final(b).nodes@[old(b).innermost_open()] == (Node {
                child_count: (old(b).nodes@[old(b).innermost_open()].child_count
                    + w.visible_row_count) as u64,
                ..old(b).nodes@[old(b).innermost_open()]
            }),
    {
        let ghost base = b.nodes@.len();
        let ghost parent = old(b).innermost_open();
        proof {
            // the parent's counter grows by at most one node per row, and
            // counters are bounded by the node count, so no sum overflows
            crate::tree::lemma_count_le_len(old(b).nodes@, parent);
            assert(crate::tree::wf_node(old(b).nodes@, parent));
        }
        let mut handles: Vec<usize> = Vec::new();
        let mut j: u64 = 0;
        while j < w.visible_row_count
            invariant
                0 <= j <= w.visible_row_count,
                b.well_formed(),
                b.open_nodes@ == old(b).open_nodes@,
                old(b).well_formed(),
                base == old(b).nodes@.len(),
                parent == old(b).innermost_open(),
                0 <= parent < base,
                old(b).nodes@[parent].child_count + w.visible_row_count <= u64::MAX,
                base + w.visible_row_count < usize::MAX,
                w.first_visible_row + w.visible_row_count <= u64::MAX,
                b.nodes@.len() == base + j,
                handles@.len() == j,
                forall|t: int| 0 <= t < handles@.len() ==> #[trigger] handles@[t] == base + t,
                forall|t: int|
                    0 <= t < handles@.len() ==> ({
                        let node = #[trigger] b.nodes@[handles@[t] as int];
                        let key = Discriminator::Key((w.first_visible_row + t) as u64);
                        &&& node.parent matches Some(p) && p == parent
                        &&& node.disc == key
                        &&& node.path@ == old(b).nodes@[parent].path@.push(key)
                        &&& node.id == id_of_path(old(b).nodes@[parent].path@.push(key))
                    }),
                forall|i: int|
                    0 <= i < base && i != parent ==> #[trigger] b.nodes@[i] == old(b).nodes@[i],
                b.nodes@[parent] == (Node {
                    child_count: (old(b).nodes@[parent].child_count + j) as u64,
                    ..old(b).nodes@[parent]
                }),
            decreases w.visible_row_count - j,
        {
            let key = w.first_visible_row + j;
            let h = b.begin_node(Some(key));
            let closed = b.end_node(h);
            proof {
                assert(closed is Ok);
            }
            handles.push(h);
            j = j + 1;
        }
        handles
    }
}

/// Running estimate of the row height, updated from measured rows; before
/// anything has been measured it reports the fixed default.
#[derive(Clone, Copy, PartialEq, Eq, Structural, Debug)]
pub struct RowHeightEstimate {
    /// Sum of the heights of all rows measured so far.
    pub total_height: u64,
    /// How many rows have been measured so far.
    pub measured_rows: u64,
}

impl RowHeightEstimate {
    /// An estimate that has seen no measured row yet.
    pub fn new() -> (r: RowHeightEstimate)
        ensures
            r.total_height == 0,
            r.measured_rows == 0,
    {
        RowHeightEstimate { total_height: 0, measured_rows: 0 }
    }

    /// Record one measured row height; a sample that would overflow the
    /// running sums is ignored.
    pub fn record(&mut self, height: u64)
        ensures
            *final(self) == if old(self).total_height + height <= u64::MAX && old(
                self,
            ).measured_rows + 1 <= u64::MAX {
                (RowHeightEstimate {
                    total_height: (old(self).total_height + height) as u64,
                    measured_rows: (old(self).measured_rows + 1) as u64,
                })
            } else {
                *old(self)
            },
    {
        if height <= u64::MAX - self.total_height && self.measured_rows < u64::MAX {
            self.total_height = self.total_height + height;
            self.measured_rows = self.measured_rows + 1;
        }
    }

    /// The current estimate: the mean measured height, at least one; the
    /// fixed default while nothing has been measured.
    pub fn current(&self) -> (r: u64)
        ensures
            r == self.current_spec(),
            r >= 1,
    {
        if self.measured_rows == 0 {
            DEFAULT_ROW_HEIGHT
        } else {
            let mean = self.total_height / self.measured_rows;
            if mean == 0 {
                1
            } else {
                mean
            }
        }
    }

    /// The estimate `current` reports.
    pub open spec fn current_spec(&self) -> int {
        if self.measured_rows == 0 {
            DEFAULT_ROW_HEIGHT as int
        } else if self.total_height as int / self.measured_rows as int == 0 {
            1
        } else {
            self.total_height as int / self.measured_rows as int
        }
    }
}

/// Scroll-extent invariant: whatever the scroll offset, the extent the
/// host scrollbar sees — header rows plus materialized window plus the two
/// filler gaps — equals the constant extent implied by the total row
/// count, `(header rows + all rows) × estimated row height`.
pub proof fn lemma_scroll_extent_invariant(params: VirtualGridRowHelperParams, scroll: ScrollState)
    requires
        scroll.estimated_row_height >= 1,
        (params.header_row_count + params.row_count) * scroll.estimated_row_height <= u64::MAX,
    ensures
        ({
            let w = window_spec(params, scroll);
            w.header_row_count * w.estimated_row_height + w.visible_row_count
                * w.estimated_row_height + w.before_gap + w.after_gap == (
            params.header_row_count + params.row_count) * scroll.estimated_row_height
        }),
{
    let est = scroll.estimated_row_height as int;
    let first = first_visible_spec(scroll.offset, scroll.estimated_row_height, params.row_count);
    let visible = visible_count_spec(
        scroll.offset,
        scroll.viewport_height,
        scroll.estimated_row_height,
        params.row_count,
    );
    let skipped_after = params.row_count - first - visible;
    lemma_mul_inequality(first, params.row_count as int, est);
    lemma_mul_inequality(skipped_after, params.row_count as int, est);
    lemma_mul_inequality(
        params.row_count as int,
        (params.header_row_count + params.row_count) as int,
        est,
    );
    assert(params.header_row_count as int * est + visible * est + first * est + skipped_after
        * est == (params.header_row_count + params.row_count) as int * est) by (nonlinear_arith)
        requires
            first + visible + skipped_after == params.row_count,
    ;
}

} // verus!
