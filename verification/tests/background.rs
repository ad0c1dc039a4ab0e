use egui::{Color32, CornerRadius};
use egui_taffy::bg::simple;
use egui_taffy::bg::{
    BackgroundError, BoxRef, PaintCommand, ResolvedBorder, TuiBackground, TuiBackgroundParams,
    TuiBackgroundValue, VisualsValues,
};
use egui_taffy::bg::BackgroundDraw;
use egui_taffy::bg::simple::TuiBuilderLogicWithBackground;
use egui_taffy::geom::Rect;
use egui_taffy::tree::TreeBuilder;

fn visuals() -> VisualsValues {
    VisualsValues {
        default_params: TuiBackgroundParams {
            background_color: TuiBackgroundValue::Custom(Color32::DARK_GRAY),
            corner_radius: TuiBackgroundValue::Custom(CornerRadius::same(2)),
            border: None,
        },
        background_color: Color32::GRAY,
        corner_radius: CornerRadius::same(4),
        border_color: Color32::LIGHT_GRAY,
        border_width: 1,
    }
}

fn response_visuals() -> VisualsValues {
    VisualsValues {
        default_params: TuiBackgroundParams {
            background_color: TuiBackgroundValue::Custom(Color32::BLACK),
            corner_radius: TuiBackgroundValue::Custom(CornerRadius::same(3)),
            border: None,
        },
        background_color: Color32::GREEN,
        corner_radius: CornerRadius::same(8),
        border_color: Color32::YELLOW,
        border_width: 5,
    }
}

const RECT: Rect = Rect { x: 10, y: 20, w: 100, h: 40 };

#[test]
fn custom_constant_wins_over_every_tier() {
    // All four tiers populated: a custom constant, a response-computed
    // value available, a style-computed value available, and a default
    // layer behind them. The custom value is what is drawn, for each of
    // the four attributes independently.
    let bg = TuiBackground::new()
        .with_default(TuiBackgroundValue::Custom(TuiBackgroundParams {
            background_color: TuiBackgroundValue::Custom(Color32::DARK_BLUE),
            corner_radius: TuiBackgroundValue::Custom(CornerRadius::same(9)),
            border: None,
        }))
        .with_background_color(Color32::WHITE)
        .with_border_color(Color32::RED)
        .with_border_width(7)
        .with_corner_radius(CornerRadius::same(12));
    let vis = visuals();
    let resp = response_visuals();
    let cmd = bg.try_draw(&vis, Some(&resp), RECT).unwrap();
    assert_eq!(
        cmd,
        PaintCommand::FillAndStroke {
            rect: RECT,
            corner_radius: Some(CornerRadius::same(12)),
            fill: Color32::WHITE,
            border: ResolvedBorder { color: Color32::RED, width: 7 },
        }
    );
}

#[test]
fn attributes_resolve_independently() {
    // An explicit fill beside a style-derived border width.
    let bg = TuiBackground::new()
        .with_background_color(Color32::BLACK)
        .with_border_color(Color32::RED)
        .with_border_width_by_visuals();
    let vis = visuals();
    let cmd = bg.try_draw(&vis, None, RECT).unwrap();
    assert_eq!(
        cmd,
        PaintCommand::FillAndStroke {
            rect: RECT,
            corner_radius: None,
            fill: Color32::BLACK,
            border: ResolvedBorder { color: Color32::RED, width: 1 },
        }
    );
}

#[test]
fn unset_attributes_fall_back_to_default_layer() {
    let bg = TuiBackground::new().with_default(TuiBackgroundValue::Visuals);
    let vis = visuals();
    // the default-layer getter yields DARK_GRAY fill and radius 2
    let cmd = bg.try_draw(&vis, None, RECT).unwrap();
    assert_eq!(
        cmd,
        PaintCommand::FillOnly {
            rect: RECT,
            corner_radius: Some(CornerRadius::same(2)),
            fill: Color32::DARK_GRAY,
        }
    );
}

#[test]
fn empty_background_paints_nothing() {
    let bg = TuiBackground::new();
    let vis = visuals();
    assert_eq!(bg.try_draw(&vis, None, RECT).unwrap(), PaintCommand::Nothing);
}

#[test]
fn border_needs_both_color_and_width_to_resolve() {
    // A border whose width resolves but whose color has no source at all
    // yields no stroke.
    let bg = TuiBackground {
        default: TuiBackgroundValue::Default,
        custom: TuiBackgroundParams {
            background_color: TuiBackgroundValue::Default,
            corner_radius: TuiBackgroundValue::Default,
            border: Some(egui_taffy::bg::TuiBackgroundBorder {
                color: TuiBackgroundValue::Default,
                width: TuiBackgroundValue::Custom(3),
            }),
        },
    };
    let vis = visuals();
    assert_eq!(bg.try_draw(&vis, None, RECT).unwrap(), PaintCommand::Nothing);
}

#[test]
fn response_computed_fill_without_response_is_rejected() {
    // A non-interactive draw of a descriptor with a response-computed fill
    // is a misuse and is rejected before any paint command exists.
    let bg = TuiBackground::new().with_background_color_by_response();
    let vis = visuals();
    assert_eq!(bg.try_draw(&vis, None, RECT), Err(BackgroundError::ResponseRequired));
    // with a response at hand the same descriptor draws
    let resp = response_visuals();
    assert_eq!(
        bg.try_draw(&vis, Some(&resp), RECT).unwrap(),
        PaintCommand::FillOnly { rect: RECT, corner_radius: None, fill: Color32::GREEN }
    );
}

#[test]
fn builder_keeps_border_width_when_color_changes() {
    let bg = TuiBackground::new().with_border_width(9).with_border_color(Color32::RED);
    let vis = visuals();
    let cmd = bg.try_draw(&vis, None, RECT).unwrap();
    assert_eq!(
        cmd,
        PaintCommand::StrokeOnly {
            rect: RECT,
            corner_radius: None,
            border: ResolvedBorder { color: Color32::RED, width: 9 },
        }
    );
}

#[test]
fn simple_background_draws_ambient_fill_by_default() {
    let bg = simple::TuiBackground::new();
    let vis = visuals();
    let cmd = bg.draw(&vis, RECT).unwrap();
    assert_eq!(
        cmd,
        PaintCommand::FillOnly {
            rect: RECT,
            corner_radius: Some(CornerRadius::same(4)),
            fill: Color32::GRAY,
        }
    );
}

#[test]
fn simple_background_with_border() {
    let bg = simple::TuiBackground::new()
        .with_background_color(Color32::LIGHT_GRAY)
        .with_border_color(Color32::WHITE)
        .with_border_width(20)
        .with_corner_radius(CornerRadius::same(40));
    let vis = visuals();
    let cmd = bg.draw(&vis, RECT).unwrap();
    assert_eq!(
        cmd,
        PaintCommand::FillAndStroke {
            rect: RECT,
            corner_radius: Some(CornerRadius::same(40)),
            fill: Color32::LIGHT_GRAY,
            border: ResolvedBorder { color: Color32::WHITE, width: 20 },
        }
    );
}

#[test]
fn simple_response_computed_without_response_is_rejected() {
    let bg = simple::TuiBackground::new().with_border().with_border_width_by_response();
    let vis = visuals();
    assert_eq!(bg.draw(&vis, RECT), Err(BackgroundError::ResponseRequired));
}

#[test]
fn simple_draw_with_response_uses_response_values() {
    let bg = simple::TuiBackground::new()
        .with_border()
        .with_border_color_by_response()
        .with_border_width_by_response();
    let vis = visuals();
    let resp = response_visuals();
    let cmd = bg.draw_with_response(&vis, &resp, RECT);
    assert_eq!(
        cmd,
        PaintCommand::FillAndStroke {
            rect: RECT,
            corner_radius: Some(CornerRadius::same(4)),
            fill: Color32::GRAY,
            border: ResolvedBorder { color: Color32::YELLOW, width: 5 },
        }
    );
}

#[test]
fn unit_background_draws_empty_background() {
    let vis = visuals();
    let resp = response_visuals();
    assert_eq!(().draw(&vis, None, RECT), Ok(PaintCommand::Nothing));
    assert_eq!(().draw(&vis, Some(&resp), RECT), Ok(PaintCommand::Nothing));
}

#[test]
fn trait_draw_matches_checked_draw() {
    let vis = visuals();
    let bg = TuiBackground::new().with_background_color(Color32::WHITE);
    assert_eq!(bg.draw(&vis, None, RECT), bg.try_draw(&vis, None, RECT));
    let needs = TuiBackground::new().with_background_color_by_response();
    assert_eq!(needs.draw(&vis, None, RECT), Err(BackgroundError::ResponseRequired));
}

#[test]
fn box_ref_hands_out_the_held_value() {
    let x: u64 = 41;
    let r: BoxRef<u64> = BoxRef::Ref(&x);
    assert_eq!(*r.func(), 41);
    let b: BoxRef<u64> = BoxRef::Box(Box::new(17));
    assert_eq!(*b.func(), 17);
}

#[test]
fn bg_builders_compose_on_tree() {
    let mut b = TreeBuilder::new();
    let bg = simple::TuiBackground::new().with_border();
    let (h1, interact1) = b.bg_add(None, &bg);
    // the call really opened a node: fresh handle, under the root, with
    // the call-order discriminator
    assert_eq!(h1, 1);
    assert_eq!(b.nodes[h1].parent, Some(0));
    assert_eq!(b.nodes[h1].disc, egui_taffy::ids::Discriminator::Ordinal(0));
    b.end_node(h1).unwrap();
    let (h2, interact2, border_style) = b.bg_clickable(Some(42), &bg);
    assert_eq!(h2, 2);
    assert_eq!(b.nodes[h2].disc, egui_taffy::ids::Discriminator::Key(42));
    b.end_node(h2).unwrap();
    assert!(!interact1.hit_test);
    assert!(interact2.hit_test && interact2.expose_response);
    assert!(border_style); // the bordered background asks for border styling
    let plain = simple::TuiBackground::new();
    let (h3, _, border_style3) = b.bg_clickable(None, &plain);
    b.end_node(h3).unwrap();
    assert!(!border_style3);
    b.finish().unwrap();
}
