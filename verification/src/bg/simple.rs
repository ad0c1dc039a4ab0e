//! Single-layer background drawing.
//!
//! The simpler of the two background helpers: one layer of attributes, a
//! fill that always resolves, an optional border, and no layered default
//! behind it. Attribute slots are tagged the same way as in the layered
//! helper — explicit constant, style-computed, or response-computed — and
//! the same rule holds: a response-computed attribute must never be
//! evaluated without an interaction response, so the non-interactive draw
//! entry rejects such a configuration before any paint intent exists.

use vstd::prelude::*;

use crate::bg::{
    BackgroundError, PaintCommand, ResolvedBorder, VisualsValues, command_corner_radius,
    command_fill, command_stroke,
};
use crate::geom::Rect;
use crate::interact::{Interact, InteractRequest, InteractTransparent, InteractiveWidget};
use crate::tree::{TreeBuilder, node_opened};

verus! {

/// One background attribute's source; unlike the layered helper there is
/// no unset state, so every attribute always resolves.
#[derive(Clone, Copy)]
pub enum TuiBackgroundValue<T> {
    /// An explicit constant.
    Custom(T),
    /// Computed from the host's ambient style.
    Visuals,
    /// Computed from the host's ambient style and the node's interaction
    /// response; legal only where a response exists.
    VisualsResponse,
}

/// Whether a slot demands an interaction response.
pub open spec fn value_uses_response<T>(v: TuiBackgroundValue<T>) -> bool {
    v is VisualsResponse
}

/// What one slot resolves to.
pub open spec fn resolve_value_spec<T>(
    v: TuiBackgroundValue<T>,
    visuals: T,
    response: Option<T>,
) -> T {
    match v {
        TuiBackgroundValue::Custom(x) => x,
        TuiBackgroundValue::Visuals => visuals,
        TuiBackgroundValue::VisualsResponse => response->0,
    }
}

/// Resolve one attribute slot.
fn resolve_value<T: Copy>(v: &TuiBackgroundValue<T>, visuals: T, response: Option<T>) -> (r: T)
    requires
        *v is VisualsResponse ==> response is Some,
    ensures
        r == resolve_value_spec(*v, visuals, response),
{
    match v {
        TuiBackgroundValue::Custom(x) => *x,
        TuiBackgroundValue::Visuals => visuals,
        TuiBackgroundValue::VisualsResponse => match response {
            Some(x) => x,
            None => visuals,
        },
    }
}

/// Border attributes of a background.
#[derive(Clone, Copy)]
pub struct TuiBackgroundBorder {
    /// Border color source.
    pub color: TuiBackgroundValue<egui::Color32>,
    /// Border width source (layout units).
    pub width: TuiBackgroundValue<u32>,
}

impl Default for TuiBackgroundBorder {
    /// The default border takes both color and width from the ambient
    /// style's widget stroke.
    fn default() -> (r: Self)
        ensures
            r.color is Visuals,
            r.width is Visuals,
    {
        TuiBackgroundBorder {
            color: TuiBackgroundValue::Visuals,
            width: TuiBackgroundValue::Visuals,
        }
    }
}

/// Helper to draw background fills and borders.
#[derive(Clone, Copy)]
pub struct TuiBackground {
    /// Fill color source.
    pub background_color: TuiBackgroundValue<egui::Color32>,
    /// Corner radius source.
    pub corner_radius: TuiBackgroundValue<egui::CornerRadius>,
    /// Border, if one is configured.
    pub border: Option<TuiBackgroundBorder>,
}

impl Default for TuiBackground {
    /// Fill and corner radius from the ambient style, no border.
    fn default() -> (r: Self)
        ensures
            r.background_color is Visuals,
            r.corner_radius is Visuals,
            r.border is None,
    {
        TuiBackground {
            background_color: TuiBackgroundValue::Visuals,
            corner_radius: TuiBackgroundValue::Visuals,
            border: None,
        }
    }
}

/// What a background resolves to: the fill always resolves, the border
/// only where one is configured.
pub open spec fn resolved_spec(
    bg: TuiBackground,
    visuals: VisualsValues,
    response: Option<VisualsValues>,
) -> (egui::Color32, Option<ResolvedBorder>, egui::CornerRadius) {
    let fill = resolve_value_spec(
        bg.background_color,
        visuals.background_color,
        match response {
            Some(rv) => Some(rv.background_color),
            None => None,
        },
    );
    let stroke = match bg.border {
        Some(b) => Some(
            ResolvedBorder {
                color: resolve_value_spec(
                    b.color,
                    visuals.border_color,
                    match response {
                        Some(rv) => Some(rv.border_color),
                        None => None,
                    },
                ),
                width: resolve_value_spec(
                    b.width,
                    visuals.border_width,
                    match response {
                        Some(rv) => Some(rv.border_width),
                        None => None,
                    },
                ),
            },
        ),
        None => None,
    };
    let corner_radius = resolve_value_spec(
        bg.corner_radius,
        visuals.corner_radius,
        match response {
            Some(rv) => Some(rv.corner_radius),
            None => None,
        },
    );
    (fill, stroke, corner_radius)
}

/// The paint command a draw of this background produces at `rect`: always
/// a fill, with the border stroked inside it where one is configured.
pub open spec fn draw_spec(
    bg: TuiBackground,
    visuals: VisualsValues,
    response: Option<VisualsValues>,
    rect: Rect,
) -> PaintCommand {
    let (fill, stroke, corner_radius) = resolved_spec(bg, visuals, response);
    match stroke {
        Some(border) => PaintCommand::FillAndStroke {
            rect,
            corner_radius: Some(corner_radius),
            fill,
            border,
        },
        None => PaintCommand::FillOnly { rect, corner_radius: Some(corner_radius), fill },
    }
}

impl TuiBackground {
    /// Creates a new instance drawing a default background only.
    pub fn new() -> (r: Self)
        ensures
            r.background_color is Visuals,
            r.corner_radius is Visuals,
            r.border is None,
    {
        Default::default()
    }

    /// Draws background with the given fill color.
    pub fn with_background_color(self, background_color: egui::Color32) -> (r: Self)
        ensures
            r.background_color == TuiBackgroundValue::Custom(background_color),
            r.corner_radius == self.corner_radius,
            r.border == self.border,
    {
        TuiBackground { background_color: TuiBackgroundValue::Custom(background_color), ..self }
    }

    /// Draws the fill color the ambient style defines.
    pub fn with_background_color_by_visuals(self) -> (r: Self)
        ensures
            r.background_color is Visuals,
            r.corner_radius == self.corner_radius,
            r.border == self.border,
    {
        TuiBackground { background_color: TuiBackgroundValue::Visuals, ..self }
    }

    /// Draws a fill color depending on the interaction response.
    pub fn with_background_color_by_response(self) -> (r: Self)
        ensures
            r.background_color is VisualsResponse,
            r.corner_radius == self.corner_radius,
            r.border == self.border,
    {
        TuiBackground { background_color: TuiBackgroundValue::VisualsResponse, ..self }
    }

    /// The border width configured so far, or the default border's width.
    pub open spec fn border_width_or_default_spec(self) -> TuiBackgroundValue<u32> {
        match self.border {
            Some(b) => b.width,
            None => TuiBackgroundValue::Visuals,
        }
    }

    /// The border color configured so far, or the default border's color.
    pub open spec fn border_color_or_default_spec(self) -> TuiBackgroundValue<egui::Color32> {
        match self.border {
            Some(b) => b.color,
            None => TuiBackgroundValue::Visuals,
        }
    }

    /// Draws the default border.
    pub fn with_border(self) -> (r: Self)
        ensures
            r.border matches Some(b) && b.color is Visuals && b.width is Visuals,
            r.background_color == self.background_color,
            r.corner_radius == self.corner_radius,
    {
        TuiBackground { border: Some(TuiBackgroundBorder::default()), ..self }
    }

    /// Draws a border with the given color, keeping any configured width.
    pub fn with_border_color(self, color: egui::Color32) -> (r: Self)
        ensures
            r.border matches Some(b) && b.color == TuiBackgroundValue::Custom(color) && b.width
                == self.border_width_or_default_spec(),
            r.background_color == self.background_color,
            r.corner_radius == self.corner_radius,
    {
        let width = match self.border {
            Some(b) => b.width,
            None => TuiBackgroundBorder::default().width,
        };
        TuiBackground {
            border: Some(TuiBackgroundBorder { color: TuiBackgroundValue::Custom(color), width }),
            ..self
        }
    }

    /// Draws a border colored by the ambient style, keeping any configured
    /// width.
    pub fn with_border_color_by_visuals(self) -> (r: Self)
        ensures
            r.border matches Some(b) && b.color is Visuals && b.width
                == self.border_width_or_default_spec(),
            r.background_color == self.background_color,
            r.corner_radius == self.corner_radius,
    {
        let width = match self.border {
            Some(b) => b.width,
            None => TuiBackgroundBorder::default().width,
        };
        TuiBackground {
            border: Some(TuiBackgroundBorder { color: TuiBackgroundValue::Visuals, width }),
            ..self
        }
    }

    /// Draws a border whose color depends on the interaction response,
    /// keeping any configured width.
    pub fn with_border_color_by_response(self) -> (r: Self)
        ensures
            r.border matches Some(b) && b.color is VisualsResponse && b.width
                == self.border_width_or_default_spec(),
            r.background_color == self.background_color,
            r.corner_radius == self.corner_radius,
    {
        let width = match self.border {
            Some(b) => b.width,
            None => TuiBackgroundBorder::default().width,
        };
        TuiBackground {
            border: Some(TuiBackgroundBorder { color: TuiBackgroundValue::VisualsResponse, width }),
            ..self
        }
    }

    /// Draws a border with the given width, keeping any configured color.
    pub fn with_border_width(self, width: u32) -> (r: Self)
        ensures
            r.border matches Some(b) && b.width == TuiBackgroundValue::Custom(width) && b.color
                == self.border_color_or_default_spec(),
            r.background_color == self.background_color,
            r.corner_radius == self.corner_radius,
    {
        let color = match self.border {
            Some(b) => b.color,
            None => TuiBackgroundBorder::default().color,
        };
        TuiBackground {
            border: Some(TuiBackgroundBorder { color, width: TuiBackgroundValue::Custom(width) }),
            ..self
        }
    }

    /// Draws a border sized by the ambient style, keeping any configured
    /// color.
    pub fn with_border_width_by_visuals(self) -> (r: Self)
        ensures
            r.border matches Some(b) && b.width is Visuals && b.color
                == self.border_color_or_default_spec(),
            r.background_color == self.background_color,
            r.corner_radius == self.corner_radius,
    {
        let color = match self.border {
            Some(b) => b.color,
            None => TuiBackgroundBorder::default().color,
        };
        TuiBackground {
            border: Some(TuiBackgroundBorder { color, width: TuiBackgroundValue::Visuals }),
            ..self
        }
    }

    /// Draws a border whose width depends on the interaction response,
    /// keeping any configured color.
    pub fn with_border_width_by_response(self) -> (r: Self)
        ensures
            r.border matches Some(b) && b.width is VisualsResponse && b.color
                == self.border_color_or_default_spec(),
            r.background_color == self.background_color,
            r.corner_radius == self.corner_radius,
    {
        let color = match self.border {
            Some(b) => b.color,
            None => TuiBackgroundBorder::default().color,
        };
        TuiBackground {
            border: Some(TuiBackgroundBorder { color, width: TuiBackgroundValue::VisualsResponse }),
            ..self
        }
    }

    /// Draws corners rounded by the given radius.
    pub fn with_corner_radius(self, radius: egui::CornerRadius) -> (r: Self)
        ensures
            r.corner_radius == TuiBackgroundValue::Custom(radius),
            r.background_color == self.background_color,
            r.border == self.border,
    {
        TuiBackground { corner_radius: TuiBackgroundValue::Custom(radius), ..self }
    }

    /// Draws corners rounded as the ambient style defines.
    pub fn with_corner_radius_by_visuals(self) -> (r: Self)
        ensures
            r.corner_radius is Visuals,
            r.background_color == self.background_color,
            r.border == self.border,
    {
        TuiBackground { corner_radius: TuiBackgroundValue::Visuals, ..self }
    }

    /// Draws corners whose rounding depends on the interaction response.
    pub fn with_corner_radius_by_response(self) -> (r: Self)
        ensures
            r.corner_radius is VisualsResponse,
            r.background_color == self.background_color,
            r.border == self.border,
    {
        TuiBackground { corner_radius: TuiBackgroundValue::VisualsResponse, ..self }
    }

    /// Whether a border has been configured.
    pub fn has_border(&self) -> (r: bool)
        ensures
            r == (self.border is Some),
    {
        self.border.is_some()
    }

    /// Whether any attribute demands an interaction response.
    pub open spec fn uses_response_spec(self) -> bool {
        ||| value_uses_response(self.background_color)
        ||| value_uses_response(self.corner_radius)
        ||| (self.border matches Some(b) && (value_uses_response(b.color) || value_uses_response(
            b.width,
        )))
    }

    /// Whether any attribute demands an interaction response.
    pub fn uses_response(&self) -> (r: bool)
        ensures
            r == self.uses_response_spec(),
    {
        let bg = matches!(self.background_color, TuiBackgroundValue::VisualsResponse);
        let radius = matches!(self.corner_radius, TuiBackgroundValue::VisualsResponse);
        let border = match &self.border {
            Some(b) => matches!(b.color, TuiBackgroundValue::VisualsResponse) || matches!(
                b.width,
                TuiBackgroundValue::VisualsResponse,
            ),
            None => false,
        };
        bg || radius || border
    }

    /// Non-interactive draw: resolve against the ambient style only.
    ///
    /// A response-computed attribute is illegal here — no response will
    /// ever exist — so such a configuration is rejected before any paint
    /// command is produced.
    pub fn draw(&self, visuals: &VisualsValues, rect: Rect) -> (r: Result<
        PaintCommand,
        BackgroundError,
    >)
        ensures
            r is Ok <==> !self.uses_response_spec(),
            r matches Ok(cmd) ==> cmd == draw_spec(*self, *visuals, None, rect),
            r matches Err(e) ==> e == BackgroundError::ResponseRequired,
    {
        if self.uses_response() {
            return Err(BackgroundError::ResponseRequired);
        }
        Ok(self.draw_internal(visuals, None, rect))
    }

    /// Interactive draw: the host has hit-tested the node's rectangle and
    /// sampled the response-dependent style values.
    pub fn draw_with_response(
        &self,
        visuals: &VisualsValues,
        response: &VisualsValues,
        rect: Rect,
    ) -> (r: PaintCommand)
        ensures
            r == draw_spec(*self, *visuals, Some(*response), rect),
    {
        self.draw_internal(visuals, Some(response), rect)
    }

    /// Shared resolution and command assembly.
    fn draw_internal(
        &self,
        visuals: &VisualsValues,
        response: Option<&VisualsValues>,
        rect: Rect,
    ) -> (r: PaintCommand)
        requires
            self.uses_response_spec() ==> response is Some,
        ensures
            r == draw_spec(
                *self,
                *visuals,
                match response {
                    Some(rv) => Some(*rv),
                    None => None::<VisualsValues>,
                },
            rect),
    {
        let response_vals: Option<VisualsValues> = match response {
            Some(rv) => Some(*rv),
            None => None,
        };
        let fill = resolve_value(
            &self.background_color,
            visuals.background_color,
            match response_vals {
                Some(rv) => Some(rv.background_color),
                None => None,
            },
        );
        let stroke = match &self.border {
            Some(b) => Some(
                ResolvedBorder {
                    color: resolve_value(
                        &b.color,
                        visuals.border_color,
                        match response_vals {
                            Some(rv) => Some(rv.border_color),
                            None => None,
                        },
                    ),
                    width: resolve_value(
                        &b.width,
                        visuals.border_width,
                        match response_vals {
                            Some(rv) => Some(rv.border_width),
                            None => None,
                        },
                    ),
                },
            ),
            None => None,
        };
        let corner_radius = resolve_value(
            &self.corner_radius,
            visuals.corner_radius,
            match response_vals {
                Some(rv) => Some(rv.corner_radius),
                None => None,
            },
        );
        match stroke {
            Some(border) => PaintCommand::FillAndStroke {
                rect,
                corner_radius: Some(corner_radius),
                fill,
                border,
            },
            None => PaintCommand::FillOnly { rect, corner_radius: Some(corner_radius), fill },
        }
    }
}

/// Background precedence for the single-layer helper: an explicit
/// constant always wins. For every attribute whose slot holds `Custom(v)`,
/// the attribute the drawn paint command carries is `v`, whatever the
/// ambient style or the response values would have supplied, each
/// attribute independently.
pub proof fn lemma_custom_wins(
    bg: TuiBackground,
    visuals: VisualsValues,
    response: Option<VisualsValues>,
    rect: Rect,
)
    ensures
        ({
            let cmd = draw_spec(bg, visuals, response, rect);
            &&& (bg.background_color matches TuiBackgroundValue::Custom(c) ==> command_fill(cmd)
                == Some(c))
            &&& (bg.border matches Some(b) ==> b.color matches TuiBackgroundValue::Custom(c)
                ==> b.width matches TuiBackgroundValue::Custom(w) ==> command_stroke(cmd) == Some(
                ResolvedBorder { color: c, width: w },
            ))
            &&& (bg.corner_radius matches TuiBackgroundValue::Custom(cr)
                ==> command_corner_radius(cmd) == Some(cr))
        }),
{
}

/// Logic that adds background-drawing child nodes to a tree under
/// construction. The background itself is painted by the host once the
/// solver has fixed the node's rectangle; what is decided here is the
/// node's identity, its interaction policy, and whether the host's border
/// styling is propagated into the child.
pub trait TuiBuilderLogicWithBackground {
    /// Open a child node that draws the given background and is not
    /// hit-tested. The returned handle names the opened node; the caller
    /// closes it after declaring its content.
    fn bg_add(&mut self, key: Option<u64>, bg: &TuiBackground) -> (r: (usize, InteractRequest))
        requires
            old(self).bg_builder_ready(),
        ensures
            final(self).bg_builder_wf(),
            final(self).bg_node_opened(old(self), r.0, key),
            r.1 == InteractTransparent::policy(),
    ;

    /// Open a child node that draws the given background and is clickable;
    /// a background with a border also asks for the host's border styling
    /// inside the child.
    fn bg_clickable(&mut self, key: Option<u64>, bg: &TuiBackground) -> (r: (
        usize,
        InteractRequest,
        bool,
    ))
        requires
            old(self).bg_builder_ready(),
        ensures
            final(self).bg_builder_wf(),
            final(self).bg_node_opened(old(self), r.0, key),
            r.1 == Interact::policy(),
            r.2 == (bg.border is Some),
    ;

    /// Whether the builder can accept another child node.
    spec fn bg_builder_ready(&self) -> bool;

    /// Whether the builder is still in a coherent state.
    spec fn bg_builder_wf(&self) -> bool;

    /// Whether exactly one node was opened on top of the state `prev`,
    /// under handle `h` and with the identity that `key` selects.
    spec fn bg_node_opened(&self, prev: &Self, h: usize, key: Option<u64>) -> bool;
}

impl TuiBuilderLogicWithBackground for TreeBuilder {
    open spec fn bg_builder_ready(&self) -> bool {
        self.well_formed() && self.nodes@.len() < usize::MAX
    }

    open spec fn bg_builder_wf(&self) -> bool {
        self.well_formed()
    }

    open spec fn bg_node_opened(&self, prev: &Self, h: usize, key: Option<u64>) -> bool {
        node_opened(*prev, *self, h, key)
    }

    fn bg_add(&mut self, key: Option<u64>, bg: &TuiBackground) -> (r: (usize, InteractRequest)) {
        let h = self.begin_node(key);
        (h, InteractTransparent::create())
    }

    fn bg_clickable(&mut self, key: Option<u64>, bg: &TuiBackground) -> (r: (
        usize,
        InteractRequest,
        bool,
    )) {
        let h = self.begin_node(key);
        (h, Interact::create(), bg.has_border())
    }
}

} // verus!
