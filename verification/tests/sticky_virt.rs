use egui_taffy::geom::{Rect, StickyAxes, sticky_clamp};
use egui_taffy::ids::Discriminator;
use egui_taffy::tree::TreeBuilder;
use egui_taffy::virt::{
    DEFAULT_ROW_HEIGHT, RowHeightEstimate, ScrollState, VirtualGridRowHelper,
    VirtualGridRowHelperParams,
};

#[test]
fn sticky_clamp_is_idempotent() {
    let viewport = Rect { x: 50, y: 80, w: 300, h: 200 };
    let axes = StickyAxes { x: true, y: true };
    for rect in [
        Rect { x: 0, y: 0, w: 40, h: 20 },
        Rect { x: 500, y: 900, w: 40, h: 20 },
        Rect { x: 60, y: 90, w: 40, h: 20 },
        Rect { x: -200, y: -300, w: 400, h: 500 },
    ] {
        let once = sticky_clamp(rect, viewport, axes);
        let twice = sticky_clamp(once, viewport, axes);
        assert_eq!(once, twice);
    }
}

#[test]
fn sticky_x_only_leaves_y_untouched() {
    // A node pinned on x only, inside a region scrolled on both axes: the
    // x coordinate is clamped into the viewport, y keeps the solved value.
    let solved = Rect { x: 100, y: 200, w: 50, h: 20 };
    let viewport = Rect { x: 150, y: 300, w: 300, h: 400 };
    let axes = StickyAxes { x: true, y: false };
    let painted = sticky_clamp(solved, viewport, axes);
    assert_eq!(painted.x, 150); // pulled to the viewport's left edge
    assert_eq!(painted.y, 200); // unmodified solved y
    assert_eq!(painted.w, 50);
    assert_eq!(painted.h, 20);
}

#[test]
fn sticky_clamp_never_moves_before_own_start() {
    // The column starts to the right of the viewport edge: the pinned
    // header stays at its own column, it never scrolls ahead of it.
    let solved = Rect { x: 220, y: 10, w: 50, h: 20 };
    let viewport = Rect { x: 150, y: 0, w: 300, h: 400 };
    let painted = sticky_clamp(solved, viewport, StickyAxes { x: true, y: false });
    assert_eq!(painted.x, 220);
}

#[test]
fn virtualized_window_at_row_fifty_thousand() {
    // 100,000 logical rows, 2 header rows, viewport fits 10 rows,
    // scrolled to row 50,000.
    let est = DEFAULT_ROW_HEIGHT;
    let params = VirtualGridRowHelperParams { header_row_count: 2, row_count: 100_000 };
    let scroll = ScrollState {
        offset: 50_000 * est,
        viewport_height: 10 * est,
        estimated_row_height: est,
    };
    let w = VirtualGridRowHelper::window(params, scroll);
    assert_eq!(w.first_visible_row, 50_000);
    assert_eq!(w.visible_row_count, 10);
    assert_eq!(w.before_gap, 50_000 * est);
    assert_eq!(w.after_gap, 49_990 * est);
}

#[test]
fn scroll_extent_is_constant_across_offsets() {
    // header + window + before gap + after gap stays the extent implied by
    // the total row count, whatever the offset.
    let est = 17;
    let params = VirtualGridRowHelperParams { header_row_count: 3, row_count: 1_000 };
    let expected = (3 + 1_000) * est;
    for offset in [0, est - 1, 5 * est, 123 * est + 4, 999 * est, 5_000 * est] {
        let scroll = ScrollState { offset, viewport_height: 8 * est, estimated_row_height: est };
        let w = VirtualGridRowHelper::window(params, scroll);
        let extent = w.header_row_count * est + w.visible_row_count * est + w.before_gap
            + w.after_gap;
        assert_eq!(extent, expected);
    }
}

#[test]
fn zero_rows_yield_header_only_output() {
    let params = VirtualGridRowHelperParams { header_row_count: 2, row_count: 0 };
    let scroll = ScrollState { offset: 480, viewport_height: 240, estimated_row_height: 24 };
    let w = VirtualGridRowHelper::window(params, scroll);
    assert_eq!(w.visible_row_count, 0);
    assert_eq!(w.before_gap, 0);
    assert_eq!(w.after_gap, 0);
    assert!(VirtualGridRowHelper::rows(&w).is_empty());
}

#[test]
fn unmeasured_viewport_yields_empty_window() {
    let params = VirtualGridRowHelperParams { header_row_count: 1, row_count: 50 };
    let scroll = ScrollState { offset: 0, viewport_height: 0, estimated_row_height: 24 };
    let w = VirtualGridRowHelper::window(params, scroll);
    assert_eq!(w.visible_row_count, 0);
    assert_eq!(w.first_visible_row, 0);
    assert_eq!(w.after_gap, 50 * 24);
}

#[test]
fn scrolling_past_the_end_is_capped() {
    let params = VirtualGridRowHelperParams { header_row_count: 0, row_count: 10 };
    let scroll = ScrollState { offset: 1_000_000, viewport_height: 100, estimated_row_height: 20 };
    let w = VirtualGridRowHelper::window(params, scroll);
    assert_eq!(w.first_visible_row, 10);
    assert_eq!(w.visible_row_count, 0);
    assert_eq!(w.before_gap, 200);
    assert_eq!(w.after_gap, 0);
}

#[test]
fn rows_carry_logical_keys_and_grid_lines() {
    let params = VirtualGridRowHelperParams { header_row_count: 2, row_count: 100 };
    let scroll = ScrollState { offset: 40 * 10, viewport_height: 30, estimated_row_height: 10 };
    let w = VirtualGridRowHelper::window(params, scroll);
    let rows = VirtualGridRowHelper::rows(&w);
    assert_eq!(rows.len(), 3);
    assert_eq!(rows[0].idx, 40);
    assert_eq!(rows[0].key, Discriminator::Key(40));
    assert_eq!(rows[0].grid_row, 2 + 2); // headers, gap filler, then the row
    assert_eq!(rows[2].idx, 42);
    assert_eq!(rows[2].key, Discriminator::Key(42));
}

#[test]
fn row_reentering_window_regains_its_key() {
    let params = VirtualGridRowHelperParams { header_row_count: 0, row_count: 1000 };
    let est = 10;
    let at = |offset| {
        let w = VirtualGridRowHelper::window(
            params,
            ScrollState { offset, viewport_height: 50, estimated_row_height: est },
        );
        VirtualGridRowHelper::rows(&w)
    };
    let before = at(500 * est);
    let elsewhere = at(0);
    let back = at(500 * est);
    assert!(elsewhere.iter().all(|r| r.idx < 500));
    assert_eq!(before[0].key, Discriminator::Key(500));
    assert_eq!(before[0].key, back[0].key);
}

#[test]
fn emitted_rows_keep_their_identity_across_windows() {
    let params = VirtualGridRowHelperParams { header_row_count: 0, row_count: 1000 };
    let est = 10;
    // frame one: scrolled so rows 500.. are visible
    let mut b1 = TreeBuilder::new();
    let w1 = VirtualGridRowHelper::window(
        params,
        ScrollState { offset: 500 * est, viewport_height: 50, estimated_row_height: est },
    );
    let h1 = VirtualGridRowHelper::emit_rows(&mut b1, &w1);
    let f1 = b1.finish().unwrap();
    // frame two: scrolled two rows further; row 502 is still visible
    let mut b2 = TreeBuilder::new();
    let w2 = VirtualGridRowHelper::window(
        params,
        ScrollState { offset: 502 * est, viewport_height: 50, estimated_row_height: est },
    );
    let h2 = VirtualGridRowHelper::emit_rows(&mut b2, &w2);
    let f2 = b2.finish().unwrap();
    // row 502 was emitted at window position 2 in frame one and position 0
    // in frame two, yet its key — and with it its id — is the same
    assert_eq!(f1.nodes[h1[2]].disc, f2.nodes[h2[0]].disc);
    assert_eq!(f1.nodes[h1[2]].id, f2.nodes[h2[0]].id);
    // while different rows get different ids
    assert_ne!(f1.nodes[h1[0]].id, f1.nodes[h1[1]].id);
}

#[test]
fn row_height_estimate_defaults_then_tracks_mean() {
    let mut est = RowHeightEstimate::new();
    assert_eq!(est.current(), DEFAULT_ROW_HEIGHT);
    est.record(30);
    est.record(20);
    est.record(19);
    assert_eq!(est.current(), 23);
    let mut zero = RowHeightEstimate::new();
    zero.record(0);
    assert_eq!(zero.current(), 1); // estimate never collapses to zero
}
