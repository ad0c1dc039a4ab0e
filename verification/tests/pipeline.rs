use egui_taffy::frame::{
    FrameError, FramePhase, LayoutFrame, MAX_SUB_PASSES, SubPassBudget,
};
use egui_taffy::geom::{Rect, StickyAxes};
use egui_taffy::interact::{Interact, InteractOpaque, InteractTransparent, InteractiveWidget};
use egui_taffy::measure::{IntrinsicSize, Size, TuiContainerResponse};
use egui_taffy::style::{StyleError, StylePatch};
use egui_taffy::tree::TreeBuilder;

fn sz(w: u32, h: u32) -> Size {
    Size { w, h }
}

fn intrinsic(w: u32, h: u32) -> IntrinsicSize {
    IntrinsicSize { min: sz(w, h), max: sz(w, h), preferred: sz(w, h) }
}

/// root > [plain, sticky-x, corner (sticky both), sticky-y]
fn build_sticky_frame() -> LayoutFrame {
    let mut b = TreeBuilder::new();
    for axes in [
        None,
        Some(StickyAxes { x: true, y: false }),
        Some(StickyAxes { x: true, y: true }),
        Some(StickyAxes { x: false, y: true }),
    ] {
        let h = b.begin_node(None);
        if let Some(axes) = axes {
            b.set_sticky(h, axes).unwrap();
        }
        b.end_node(h).unwrap();
    }
    LayoutFrame::new(b.finish().unwrap())
}

#[test]
fn pipeline_runs_through_the_phases() {
    let mut frame = build_sticky_frame();
    assert_eq!(frame.phase, FramePhase::Building);
    frame.measure_leaf(1, intrinsic(10, 10)).unwrap();
    frame.finish_measurement().unwrap();
    assert_eq!(frame.phase, FramePhase::Measured);
    let rects: Vec<Rect> = (0..5).map(|i| Rect { x: 10 * i, y: 0, w: 10, h: 10 }).collect();
    frame.apply_solution(&rects).unwrap();
    assert_eq!(frame.phase, FramePhase::Solved);
    assert_eq!(frame.resolved_rect(2).unwrap(), Rect { x: 20, y: 0, w: 10, h: 10 });
    let viewport = Rect { x: 0, y: 0, w: 100, h: 100 };
    frame.paint_intents(viewport).unwrap();
    assert_eq!(frame.phase, FramePhase::Painted);
}

#[test]
fn paint_order_puts_sticky_on_top_and_corner_last() {
    let mut frame = build_sticky_frame();
    frame.finish_measurement().unwrap();
    let rects: Vec<Rect> = (0..5).map(|i| Rect { x: 10 * i, y: 0, w: 10, h: 10 }).collect();
    frame.apply_solution(&rects).unwrap();
    let viewport = Rect { x: 15, y: 5, w: 100, h: 100 };
    let plan = frame.paint_intents(viewport).unwrap();
    // normal pass: nodes 1..=4 in build order; then the one-axis sticky
    // nodes (2 and 4); the both-axes corner (3) paints last, so it is
    // never occluded by a row- or column-pinned neighbour.
    let order: Vec<usize> = plan.iter().map(|p| p.node).collect();
    assert_eq!(order, vec![1, 2, 3, 4, 2, 4, 3]);
    // the normal pass paints at the solved rectangles
    assert_eq!(plan[1].rect, Rect { x: 20, y: 0, w: 10, h: 10 });
    // the sticky repaints clamp only the pinned axes into the viewport
    assert_eq!(plan[4].rect, Rect { x: 20, y: 0, w: 10, h: 10 }); // x pinned, already visible
    assert_eq!(plan[5].rect, Rect { x: 40, y: 5, w: 10, h: 10 }); // y pinned, pulled down
    assert_eq!(plan[6].rect, Rect { x: 30, y: 5, w: 10, h: 10 }); // corner, both pinned
}

#[test]
fn measurement_is_cached_within_the_frame() {
    let mut frame = build_sticky_frame();
    let first = frame.measure_leaf(1, intrinsic(10, 10)).unwrap();
    let second = frame.measure_leaf(1, intrinsic(99, 99)).unwrap();
    assert_eq!(first, intrinsic(10, 10));
    assert_eq!(second, intrinsic(10, 10)); // the first probe's result stands
}

#[test]
fn unmeasured_leaves_default_to_zero() {
    let frame = build_sticky_frame();
    assert_eq!(frame.intrinsic_or_zero(2).unwrap(), intrinsic(0, 0));
}

#[test]
fn reading_rects_before_solving_is_rejected() {
    let frame = build_sticky_frame();
    assert_eq!(frame.resolved_rect(1), Err(FrameError::WrongPhase));
}

#[test]
fn wrong_solution_size_is_rejected_whole() {
    let mut frame = build_sticky_frame();
    frame.finish_measurement().unwrap();
    let rects: Vec<Rect> = (0..3).map(|i| Rect { x: i, y: 0, w: 1, h: 1 }).collect();
    assert_eq!(frame.apply_solution(&rects), Err(FrameError::WrongSolutionSize));
    assert_eq!(frame.phase, FramePhase::Measured);
}

#[test]
fn malformed_rect_rejects_the_whole_solution() {
    let mut frame = build_sticky_frame();
    frame.finish_measurement().unwrap();
    let mut rects: Vec<Rect> = (0..5).map(|i| Rect { x: i, y: 0, w: 1, h: 1 }).collect();
    rects[3] = Rect { x: 0, y: 0, w: -5, h: 1 };
    assert_eq!(frame.apply_solution(&rects), Err(FrameError::MalformedRect));
    assert_eq!(frame.resolved_rect(1), Err(FrameError::WrongPhase));
}

#[test]
fn measuring_after_the_build_phase_is_rejected() {
    let mut frame = build_sticky_frame();
    frame.finish_measurement().unwrap();
    assert_eq!(frame.measure_leaf(1, intrinsic(1, 1)), Err(FrameError::WrongPhase));
}

#[test]
fn sub_pass_budget_grants_exactly_three_passes() {
    let mut budget = SubPassBudget::new();
    let mut granted = 0;
    while budget.try_begin_pass() {
        granted += 1;
        assert!(granted <= 10, "budget must be bounded");
    }
    assert_eq!(granted, MAX_SUB_PASSES);
    assert!(!budget.try_begin_pass());
}

#[test]
fn style_patches_compose_with_last_writer_wins() {
    let a = StylePatch::empty().with_padding(8).unwrap().with_gap(4).unwrap();
    let b = StylePatch::empty().with_padding(2).unwrap().with_grid_row(3);
    let combined = a.then(b);
    let via_combined = combined.apply(egui_taffy::style::Style::default());
    let via_sequence = b.apply(a.apply(egui_taffy::style::Style::default()));
    assert_eq!(via_combined, via_sequence);
    assert_eq!(via_combined.padding, 2); // later writer wins
    assert_eq!(via_combined.gap, 4); // untouched fields survive
    assert_eq!(via_combined.grid_row, Some(3));
}

#[test]
fn negative_style_values_are_rejected_at_the_patch_boundary() {
    assert_eq!(StylePatch::empty().with_padding(-1), Err(StyleError::OutOfRange));
    assert_eq!(StylePatch::empty().with_gap(-20), Err(StyleError::OutOfRange));
    assert_eq!(StylePatch::empty().with_grid_column_span(0), Err(StyleError::OutOfRange));
    assert!(StylePatch::empty().with_padding(0).is_ok());
}

#[test]
fn style_patch_merges_into_node_styles() {
    let mut b = TreeBuilder::new();
    let h = b.begin_node(None);
    b.set_style(h, StylePatch::empty().with_padding(16).unwrap()).unwrap();
    b.set_style(h, StylePatch::empty().with_gap(2).unwrap()).unwrap();
    b.end_node(h).unwrap();
    let arena = b.finish().unwrap();
    assert_eq!(arena.nodes[h].style.padding, 16); // earlier writer survives
    assert_eq!(arena.nodes[h].style.gap, 2);
}

#[test]
fn label_fix_raises_intrinsic_height_to_drawn_height() {
    let probe = TuiContainerResponse {
        inner: (),
        min_size: sz(40, 30),
        max_size: sz(200, 60),
        intrinsic_size: Some(sz(120, 15)),
        infinite_x: false,
        infinite_y: false,
    };
    let fixed = egui_taffy::measure::fix_label_response(probe);
    assert_eq!(fixed.intrinsic_size, Some(sz(120, 30)));
    let unreported = TuiContainerResponse { intrinsic_size: None, ..probe };
    assert_eq!(egui_taffy::measure::fix_label_response(unreported).intrinsic_size, None);
}

#[test]
fn progress_bar_fix_caps_at_natural_size() {
    let probe = TuiContainerResponse {
        inner: (),
        min_size: sz(0, 0),
        max_size: sz(500, 40),
        intrinsic_size: Some(sz(500, 10)),
        infinite_x: false,
        infinite_y: true,
    };
    let fixed = egui_taffy::measure::fix_progress_bar_response(probe, sz(96, 20));
    assert_eq!(fixed.intrinsic_size, Some(sz(96, 10)));
    assert!(fixed.infinite_x);
    assert!(!fixed.infinite_y);
    let silent = TuiContainerResponse { intrinsic_size: None, ..probe };
    let fixed = egui_taffy::measure::fix_progress_bar_response(silent, sz(96, 20));
    assert_eq!(fixed.intrinsic_size, Some(sz(96, 20)));
}

#[test]
fn button_fix_pins_max_to_min() {
    let probe = TuiContainerResponse {
        inner: 5u32,
        min_size: sz(30, 12),
        max_size: sz(400, 300),
        intrinsic_size: None,
        infinite_x: true,
        infinite_y: true,
    };
    let fixed = egui_taffy::measure::fix_button_response(probe);
    assert_eq!(fixed.max_size, sz(30, 12));
    assert!(!fixed.infinite_x && !fixed.infinite_y);
    assert_eq!(fixed.inner, 5);
}

#[test]
fn identity_transform_changes_nothing() {
    let probe = TuiContainerResponse {
        inner: "x",
        min_size: sz(1, 2),
        max_size: sz(3, 4),
        intrinsic_size: Some(sz(5, 6)),
        infinite_x: true,
        infinite_y: false,
    };
    assert_eq!(egui_taffy::measure::identity_transform(probe), probe);
}

#[test]
fn interact_policies_match_their_roles() {
    let transparent = InteractTransparent::create();
    assert!(!transparent.hit_test && !transparent.expose_response);
    let opaque = InteractOpaque::create();
    assert!(opaque.hit_test && opaque.sense_click && opaque.sense_drag);
    assert!(!opaque.expose_response);
    let sensing = Interact::create();
    assert!(sensing.hit_test && sensing.sense_click && sensing.expose_response);
}
