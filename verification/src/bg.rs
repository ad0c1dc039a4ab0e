//! Layered background drawing: fills, borders and corner rounding resolved
//! from a stack of per-attribute value sources.
//!
//! Each of the four attributes — fill color, border color, border width,
//! corner radius — is an independently tagged value: left at its default,
//! fixed to an explicit constant, computed from the host's ambient style,
//! or computed from ambient style plus the node's interaction response.
//! Resolution is per attribute with the precedence
//! constant > response-computed > style-computed > layered default, and a
//! response-computed value is never evaluated without a response at hand:
//! configuring one on a non-interactive draw is a misuse and is rejected
//! before any paint intent is produced.
//!
//! The host's style getters run outside this crate; their results arrive
//! here as plain sampled values, and what leaves is a paint command that
//! the host replays with its own painter.

use vstd::prelude::*;

use crate::geom::Rect;

pub mod simple;

verus! {

/// Declares `egui::Color32` — a premultiplied RGBA color — to the
/// verifier. The resolver only stores and hands back such values; nothing
/// is assumed about their contents, and no method of the type is called
/// from verified code.
#[verifier::external_type_specification]
#[verifier::external_body]
pub struct ExColor32(egui::Color32);

/// Declares `egui::CornerRadius` — per-corner rounding amounts, four
/// public `u8` fields — to the verifier. As with colors, values are only
/// carried through.
#[verifier::external_type_specification]
pub struct ExCornerRadius(egui::CornerRadius);

/// A value that is either borrowed or owned.
pub enum BoxRef<'a, T> {
    /// A borrowed value.
    Ref(&'a T),
    /// An owned, boxed value.
    Box(std::boxed::Box<T>),
}

impl<'a, T> BoxRef<'a, T> {
    /// The value held, whichever way it is held.
    pub open spec fn value_spec(&self) -> T {
        match self {
            BoxRef::Ref(a) => **a,
            BoxRef::Box(b) => **b,
        }
    }

    /// Borrow the held value.
    pub fn func(&self) -> (r: &T)
        ensures
            *r == self.value_spec(),
    {
        match self {
            BoxRef::Ref(a) => a,
            BoxRef::Box(b) => &**b,
        }
    }
}

/// One background attribute's source.
#[derive(Clone, Copy)]
pub enum TuiBackgroundValue<T> {
    /// Nothing configured: fall back to the layered default.
    Default,
    /// An explicit constant; wins over every computed source.
    Custom(T),
    /// Computed from the host's ambient style.
    Visuals,
    /// Computed from the host's ambient style and the node's interaction
    /// response; legal only where a response exists.
    VisualsResponse,
}

impl<T> Default for TuiBackgroundValue<T> {
    /// Attributes start unconfigured.
    fn default() -> (r: Self)
        ensures
            r is Default,
    {
        TuiBackgroundValue::Default
    }
}

/// Border attributes of a background.
#[derive(Clone, Copy)]
pub struct TuiBackgroundBorder {
    /// Border color source.
    pub color: TuiBackgroundValue<egui::Color32>,
    /// Border width source (layout units).
    pub width: TuiBackgroundValue<u32>,
}

impl Default for TuiBackgroundBorder {
    /// The default border takes both color and width from the ambient
    /// style's widget stroke.
    fn default() -> (r: Self)
        ensures
            r.color is Visuals,
            r.width is Visuals,
    {
        TuiBackgroundBorder {
            color: TuiBackgroundValue::Visuals,
            width: TuiBackgroundValue::Visuals,
        }
    }
}

/// The full attribute set one background layer configures.
#[derive(Clone, Copy)]
pub struct TuiBackgroundParams {
    /// Fill color source.
    pub background_color: TuiBackgroundValue<egui::Color32>,
    /// Corner radius source.
    pub corner_radius: TuiBackgroundValue<egui::CornerRadius>,
    /// Border, if one is configured.
    pub border: Option<TuiBackgroundBorder>,
}

impl Default for TuiBackgroundParams {
    /// A layer that configures nothing.
    fn default() -> (r: Self)
        ensures
            r.background_color is Default,
            r.corner_radius is Default,
            r.border is None,
    {
        TuiBackgroundParams {
            background_color: TuiBackgroundValue::Default,
            corner_radius: TuiBackgroundValue::Default,
            border: None,
        }
    }
}

/// Helper to draw background fills and borders: a custom layer over an
/// optional default layer, each attribute resolved independently.
#[derive(Clone, Copy)]
pub struct TuiBackground {
    /// The layer consulted where the custom layer leaves an attribute at
    /// its default.
    pub default: TuiBackgroundValue<TuiBackgroundParams>,
    /// The attributes configured by the builder calls.
    pub custom: TuiBackgroundParams,
}

impl Default for TuiBackground {
    /// No default layer and nothing configured.
    fn default() -> (r: Self)
        ensures
            r.default is Default,
            r.custom.background_color is Default,
            r.custom.corner_radius is Default,
            r.custom.border is None,
    {
        TuiBackground {
            default: TuiBackgroundValue::Default,
            custom: TuiBackgroundParams {
                background_color: TuiBackgroundValue::Default,
                corner_radius: TuiBackgroundValue::Default,
                border: None,
            },
        }
    }
}

/// The values the host's ambient style getters produce for one draw call,
/// sampled outside this crate and handed in as plain values.
#[derive(Clone, Copy)]
pub struct VisualsValues {
    /// What the default-layer getter yields (typically: panel fill as the
    /// fill constant, the widget corner radius, no border).
    pub default_params: TuiBackgroundParams,
    /// Style-computed fill color (e.g. the panel fill).
    pub background_color: egui::Color32,
    /// Style-computed corner radius.
    pub corner_radius: egui::CornerRadius,
    /// Style-computed border color (the widget background stroke).
    pub border_color: egui::Color32,
    /// Style-computed border width (the widget background stroke).
    pub border_width: u32,
}

/// Error of the checked draw entry points.
#[derive(Clone, Copy, PartialEq, Eq, Structural, Debug)]
pub enum BackgroundError {
    /// A response-computed attribute was configured, but the draw call has
    /// no interaction response.
    ResponseRequired,
}

/// Whether an attribute slot demands an interaction response.
pub open spec fn value_uses_response<T>(v: TuiBackgroundValue<T>) -> bool {
    v is VisualsResponse
}

/// Whether a border demands an interaction response.
pub open spec fn border_uses_response(b: TuiBackgroundBorder) -> bool {
    value_uses_response(b.color) || value_uses_response(b.width)
}

/// Whether a layer demands an interaction response.
pub open spec fn params_use_response(p: TuiBackgroundParams) -> bool {
    ||| value_uses_response(p.background_color)
    ||| value_uses_response(p.corner_radius)
    ||| (p.border matches Some(b) && border_uses_response(b))
}

/// What one slot resolves to: its constant, the sampled style value, the
/// sampled response value, or nothing (fall through to the next layer).
pub open spec fn resolve_value_spec<T>(
    v: TuiBackgroundValue<T>,
    visuals: T,
    response: Option<T>,
) -> Option<T> {
    match v {
        TuiBackgroundValue::Default => None,
        TuiBackgroundValue::Custom(x) => Some(x),
        TuiBackgroundValue::Visuals => Some(visuals),
        TuiBackgroundValue::VisualsResponse => Some(response->0),
    }
}

/// A slot resolved with a second-layer fallback behind it.
pub open spec fn resolve_or_fallback_spec<T>(
    v: TuiBackgroundValue<T>,
    fallback: Option<TuiBackgroundValue<T>>,
    visuals: T,
    response: Option<T>,
) -> Option<T> {
    match resolve_value_spec(v, visuals, response) {
        Some(x) => Some(x),
        None => match fallback {
            Some(f) => resolve_value_spec(f, visuals, response),
            None => None,
        },
    }
}

/// Resolve one attribute slot.
fn resolve_value<T: Copy>(v: TuiBackgroundValue<T>, visuals: T, response: Option<T>) -> (r:
    Option<T>)
    requires
        v is VisualsResponse ==> response is Some,
    ensures
        r == resolve_value_spec(v, visuals, response),
{
    match v {
        TuiBackgroundValue::Default => None,
        TuiBackgroundValue::Custom(x) => Some(x),
        TuiBackgroundValue::Visuals => Some(visuals),
        TuiBackgroundValue::VisualsResponse => match response {
            Some(x) => Some(x),
            None => None,
        },
    }
}

/// Resolve one attribute slot with its fallback.
fn resolve_or_fallback<T: Copy>(
    v: TuiBackgroundValue<T>,
    fallback: Option<TuiBackgroundValue<T>>,
    visuals: T,
    response: Option<T>,
) -> (r: Option<T>)
    requires
        v is VisualsResponse ==> response is Some,
        (fallback matches Some(f) && f is VisualsResponse) ==> response is Some,
    ensures
        r == resolve_or_fallback_spec(v, fallback, visuals, response),
{
    match resolve_value(v, visuals, response) {
        Some(x) => Some(x),
        None => match fallback {
            Some(f) => resolve_value(f, visuals, response),
            None => None,
        },
    }
}

/// A fully resolved border.
#[derive(Clone, Copy, PartialEq, Debug)]
pub struct ResolvedBorder {
    /// Border color.
    pub color: egui::Color32,
    /// Border width in layout units.
    pub width: u32,
}

/// The four attributes after resolution.
#[derive(Clone, Copy, PartialEq, Debug)]
pub struct ResolvedBackground {
    /// Fill color, if any layer produced one.
    pub fill: Option<egui::Color32>,
    /// Border, if both its color and width resolved.
    pub stroke: Option<ResolvedBorder>,
    /// Corner radius; `None` leaves the host's zero default.
    pub corner_radius: Option<egui::CornerRadius>,
}

/// One paint command for the host painter, mirroring the four ways a
/// background can end up: nothing, fill only, border only, or both.
#[derive(Clone, Copy, PartialEq, Debug)]
pub enum PaintCommand {
    /// Nothing to paint.
    Nothing,
    /// Paint a filled rectangle.
    FillOnly { rect: Rect, corner_radius: Option<egui::CornerRadius>, fill: egui::Color32 },
    /// Paint only a border, stroked inside the rectangle.
    StrokeOnly { rect: Rect, corner_radius: Option<egui::CornerRadius>, border: ResolvedBorder },
    /// Paint a filled rectangle with a border stroked inside it.
    FillAndStroke {
        rect: Rect,
        corner_radius: Option<egui::CornerRadius>,
        fill: egui::Color32,
        border: ResolvedBorder,
    },
}

/// The command a resolution outcome turns into at a given rectangle.
pub open spec fn paint_command_spec(resolved: ResolvedBackground, rect: Rect) -> PaintCommand {
    match (resolved.fill, resolved.stroke) {
        (None, None) => PaintCommand::Nothing,
        (None, Some(border)) => PaintCommand::StrokeOnly {
            rect,
            corner_radius: resolved.corner_radius,
            border,
        },
        (Some(fill), None) => PaintCommand::FillOnly {
            rect,
            corner_radius: resolved.corner_radius,
            fill,
        },
        (Some(fill), Some(border)) => PaintCommand::FillAndStroke {
            rect,
            corner_radius: resolved.corner_radius,
            fill,
            border,
        },
    }
}

/// Turn a resolution outcome into the paint command for a rectangle.
pub fn paint_command(resolved: ResolvedBackground, rect: Rect) -> (r: PaintCommand)
    ensures
        r == paint_command_spec(resolved, rect),
{
    match (resolved.fill, resolved.stroke) {
        (None, None) => PaintCommand::Nothing,
        (None, Some(border)) => PaintCommand::StrokeOnly {
            rect,
            corner_radius: resolved.corner_radius,
            border,
        },
        (Some(fill), None) => PaintCommand::FillOnly {
            rect,
            corner_radius: resolved.corner_radius,
            fill,
        },
        (Some(fill), Some(border)) => PaintCommand::FillAndStroke {
            rect,
            corner_radius: resolved.corner_radius,
            fill,
            border,
        },
    }
}

/// What the whole background resolves to: the custom layer first, then the
/// default layer, per attribute; a border is drawn when both its color and
/// its width resolve somewhere in the stack.
pub open spec fn resolved_background_spec(
    bg: TuiBackground,
    visuals: VisualsValues,
    response: Option<VisualsValues>,
) -> ResolvedBackground {
    let base = resolve_value_spec(
        bg.default,
        visuals.default_params,
        match response {
            Some(rv) => Some(rv.default_params),
            None => None,
        },
    );
    let fallback_background_color = match base {
        Some(p) => Some(p.background_color),
        None => None,
    };
    let fallback_corner_radius = match base {
        Some(p) => Some(p.corner_radius),
        None => None,
    };
    let fallback_border = match base {
        Some(p) => p.border,
        None => None,
    };
    let fill = resolve_or_fallback_spec(
        bg.custom.background_color,
        fallback_background_color,
        visuals.background_color,
        match response {
            Some(rv) => Some(rv.background_color),
            None => None,
        },
    );
    let border = match bg.custom.border {
        Some(b) => b,
        None => TuiBackgroundBorder {
            color: TuiBackgroundValue::Default,
            width: TuiBackgroundValue::Default,
        },
    };
    let fallback_color = match fallback_border {
        Some(b) => Some(b.color),
        None => None,
    };
    let fallback_width = match fallback_border {
        Some(b) => Some(b.width),
        None => None,
    };
    let color = resolve_or_fallback_spec(
        border.color,
        fallback_color,
        visuals.border_color,
        match response {
            Some(rv) => Some(rv.border_color),
            None => None,
        },
    );
    let width = resolve_or_fallback_spec(
        border.width,
        fallback_width,
        visuals.border_width,
        match response {
            Some(rv) => Some(rv.border_width),
            None => None,
        },
    );
    let stroke = match (color, width) {
        (Some(c), Some(w)) => Some(ResolvedBorder { color: c, width: w }),
        (Some(c), None) => None,
        (None, Some(w)) => None,
        (None, None) => None,
    };
    let corner_radius = resolve_or_fallback_spec(
        bg.custom.corner_radius,
        fallback_corner_radius,
        visuals.corner_radius,
        match response {
            Some(rv) => Some(rv.corner_radius),
            None => None,
        },
    );
    ResolvedBackground { fill, stroke, corner_radius }
}

impl TuiBackground {
    /// Creates a new instance drawing a default background only.
    pub fn new() -> (r: Self)
        ensures
            r.default is Default,
            r.custom.background_color is Default,
            r.custom.corner_radius is Default,
            r.custom.border is None,
    {
        Default::default()
    }

    /// Install the default layer consulted where the custom layer is
    /// silent.
    pub fn with_default(self, default: TuiBackgroundValue<TuiBackgroundParams>) -> (r: Self)
        ensures
            r.default == default,
            r.custom == self.custom,
    {
        TuiBackground { default, ..self }
    }

    /// Draws background with the given fill color.
    pub fn with_background_color(self, background_color: egui::Color32) -> (r: Self)
        ensures
            r.custom.background_color == TuiBackgroundValue::Custom(background_color),
            r.custom.corner_radius == self.custom.corner_radius,
            r.custom.border == self.custom.border,
            r.default == self.default,
    {
        TuiBackground {
            custom: TuiBackgroundParams {
                background_color: TuiBackgroundValue::Custom(background_color),
                ..self.custom
            },
            ..self
        }
    }

    /// Draws the fill color the ambient style defines.
    pub fn with_background_color_by_visuals(self) -> (r: Self)
        ensures
            r.custom.background_color is Visuals,
            r.custom.corner_radius == self.custom.corner_radius,
            r.custom.border == self.custom.border,
            r.default == self.default,
    {
        TuiBackground {
            custom: TuiBackgroundParams {
                background_color: TuiBackgroundValue::Visuals,
                ..self.custom
            },
            ..self
        }
    }

    /// Draws a fill color depending on the interaction response.
    pub fn with_background_color_by_response(self) -> (r: Self)
        ensures
            r.custom.background_color is VisualsResponse,
            r.custom.corner_radius == self.custom.corner_radius,
            r.custom.border == self.custom.border,
            r.default == self.default,
    {
        TuiBackground {
            custom: TuiBackgroundParams {
                background_color: TuiBackgroundValue::VisualsResponse,
                ..self.custom
            },
            ..self
        }
    }

    /// Draws the default border, colored and sized by the ambient style.
    pub fn with_border(self) -> (r: Self)
        ensures
            r.custom.border matches Some(b) && b.color is Visuals && b.width is Visuals,
            r.custom.background_color == self.custom.background_color,
            r.custom.corner_radius == self.custom.corner_radius,
            r.default == self.default,
    {
        TuiBackground {
            custom: TuiBackgroundParams {
                border: Some(TuiBackgroundBorder::default()),
                ..self.custom
            },
            ..self
        }
    }

    /// The border as configured so far, or the default border.
    fn border_or_default(&self) -> (r: TuiBackgroundBorder)
        ensures
            r == self.border_or_default_spec(),
    {
        match self.custom.border {
            Some(b) => b,
            None => TuiBackgroundBorder::default(),
        }
    }

    /// The border the next border builder call starts from.
    pub open spec fn border_or_default_spec(&self) -> TuiBackgroundBorder {
        match self.custom.border {
            Some(b) => b,
            None => TuiBackgroundBorder {
                color: TuiBackgroundValue::Visuals,
                width: TuiBackgroundValue::Visuals,
            },
        }
    }

    /// Draws a border with the given color, keeping any configured width.
    pub fn with_border_color(self, color: egui::Color32) -> (r: Self)
        ensures
            r.custom.border matches Some(b) && b.color == TuiBackgroundValue::Custom(color)
                && b.width == self.border_or_default_spec().width,
            r.custom.background_color == self.custom.background_color,
            r.custom.corner_radius == self.custom.corner_radius,
            r.default == self.default,
    {
        let border = TuiBackgroundBorder {
            color: TuiBackgroundValue::Custom(color),
            width: self.border_or_default().width,
        };
        TuiBackground {
            custom: TuiBackgroundParams { border: Some(border), ..self.custom },
            ..self
        }
    }

    /// Draws a border colored by the ambient style, keeping any configured
    /// width.
    pub fn with_border_color_by_visuals(self) -> (r: Self)
        ensures
            r.custom.border matches Some(b) && b.color is Visuals && b.width
                == self.border_or_default_spec().width,
            r.custom.background_color == self.custom.background_color,
            r.custom.corner_radius == self.custom.corner_radius,
            r.default == self.default,
    {
        let border = TuiBackgroundBorder {
            color: TuiBackgroundValue::Visuals,
            width: self.border_or_default().width,
        };
        TuiBackground {
            custom: TuiBackgroundParams { border: Some(border), ..self.custom },
            ..self
        }
    }

    /// Draws a border whose color depends on the interaction response,
    /// keeping any configured width.
    pub fn with_border_color_by_response(self) -> (r: Self)
        ensures
            r.custom.border matches Some(b) && b.color is VisualsResponse && b.width
                == self.border_or_default_spec().width,
            r.custom.background_color == self.custom.background_color,
            r.custom.corner_radius == self.custom.corner_radius,
            r.default == self.default,
    {
        let border = TuiBackgroundBorder {
            color: TuiBackgroundValue::VisualsResponse,
            width: self.border_or_default().width,
        };
        TuiBackground {
            custom: TuiBackgroundParams { border: Some(border), ..self.custom },
            ..self
        }
    }

    /// Draws a border with the given width, keeping any configured color.
    pub fn with_border_width(self, width: u32) -> (r: Self)
        ensures
            r.custom.border matches Some(b) && b.width == TuiBackgroundValue::Custom(width)
                && b.color == self.border_or_default_spec().color,
            r.custom.background_color == self.custom.background_color,
            r.custom.corner_radius == self.custom.corner_radius,
            r.default == self.default,
    {
        let border = TuiBackgroundBorder {
            color: self.border_or_default().color,
            width: TuiBackgroundValue::Custom(width),
        };
        TuiBackground {
            custom: TuiBackgroundParams { border: Some(border), ..self.custom },
            ..self
        }
    }

    /// Draws a border sized by the ambient style, keeping any configured
    /// color.
    pub fn with_border_width_by_visuals(self) -> (r: Self)
        ensures
            r.custom.border matches Some(b) && b.width is Visuals && b.color
                == self.border_or_default_spec().color,
            r.custom.background_color == self.custom.background_color,
            r.custom.corner_radius == self.custom.corner_radius,
            r.default == self.default,
    {
        let border = TuiBackgroundBorder {
            color: self.border_or_default().color,
            width: TuiBackgroundValue::Visuals,
        };
        TuiBackground {
            custom: TuiBackgroundParams { border: Some(border), ..self.custom },
            ..self
        }
    }

    /// Draws a border whose width depends on the interaction response,
    /// keeping any configured color.
    pub fn with_border_width_by_response(self) -> (r: Self)
        ensures
            r.custom.border matches Some(b) && b.width is VisualsResponse && b.color
                == self.border_or_default_spec().color,
            r.custom.background_color == self.custom.background_color,
            r.custom.corner_radius == self.custom.corner_radius,
            r.default == self.default,
    {
        let border = TuiBackgroundBorder {
            color: self.border_or_default().color,
            width: TuiBackgroundValue::VisualsResponse,
        };
        TuiBackground {
            custom: TuiBackgroundParams { border: Some(border), ..self.custom },
            ..self
        }
    }

    /// Draws corners rounded by the given radius.
    pub fn with_corner_radius(self, radius: egui::CornerRadius) -> (r: Self)
        ensures
            r.custom.corner_radius == TuiBackgroundValue::Custom(radius),
            r.custom.background_color == self.custom.background_color,
            r.custom.border == self.custom.border,
            r.default == self.default,
    {
        TuiBackground {
            custom: TuiBackgroundParams {
                corner_radius: TuiBackgroundValue::Custom(radius),
                ..self.custom
            },
            ..self
        }
    }

    /// Draws corners rounded as the ambient style defines.
    pub fn with_corner_radius_by_visuals(self) -> (r: Self)
        ensures
            r.custom.corner_radius is Visuals,
            r.custom.background_color == self.custom.background_color,
            r.custom.border == self.custom.border,
            r.default == self.default,
    {
        TuiBackground {
            custom: TuiBackgroundParams {
                corner_radius: TuiBackgroundValue::Visuals,
                ..self.custom
            },
            ..self
        }
    }

    /// Draws corners whose rounding depends on the interaction response.
    pub fn with_corner_radius_by_response(self) -> (r: Self)
        ensures
            r.custom.corner_radius is VisualsResponse,
            r.custom.background_color == self.custom.background_color,
            r.custom.border == self.custom.border,
            r.default == self.default,
    {
        TuiBackground {
            custom: TuiBackgroundParams {
                corner_radius: TuiBackgroundValue::VisualsResponse,
                ..self.custom
            },
            ..self
        }
    }

    /// Whether a border has been configured.
    pub fn has_border(&self) -> (r: bool)
        ensures
            r == (self.custom.border is Some),
    {
        self.custom.border.is_some()
    }

    /// Whether this draw would evaluate a response-computed attribute, for
    /// the given ambient sample.
    pub open spec fn needs_response_spec(self, visuals: VisualsValues) -> bool {
        ||| value_uses_response(self.default)
        ||| (self.default matches TuiBackgroundValue::Custom(p) && params_use_response(p))
        ||| (self.default is Visuals && params_use_response(visuals.default_params))
        ||| params_use_response(self.custom)
    }

    /// Whether this draw demands an interaction response for the given
    /// ambient sample.
    pub fn needs_response(&self, visuals: &VisualsValues) -> (r: bool)
        ensures
            r == self.needs_response_spec(*visuals),
    {
        let default_needs = match &self.default {
            TuiBackgroundValue::VisualsResponse => true,
            TuiBackgroundValue::Custom(p) => params_need_response(p),
            TuiBackgroundValue::Visuals => params_need_response(&visuals.default_params),
            TuiBackgroundValue::Default => false,
        };
        default_needs || params_need_response(&self.custom)
    }

    /// Resolve all four attributes against the sampled ambient values and,
    /// where present, the sampled response values.
    ///
    /// A response-computed attribute without a response is a misuse; the
    /// caller must rule it out (see `try_draw` for the checked entry).
    pub fn resolve(
        &self,
        visuals: &VisualsValues,
        response: Option<&VisualsValues>,
    ) -> (r: ResolvedBackground)
        requires
            self.needs_response_spec(*visuals) ==> response is Some,
        ensures
            r == resolved_background_spec(
                *self,
                *visuals,
                match response {
                    Some(rv) => Some(*rv),
                    None => None::<VisualsValues>,
                },
            ),
    {
        let response_vals: Option<VisualsValues> = match response {
            Some(rv) => Some(*rv),
            None => None,
        };
        let base = resolve_value(
            self.default,
            visuals.default_params,
            match response_vals {
                Some(rv) => Some(rv.default_params),
                None => None,
            },
        );
        let (fallback_background_color, fallback_corner_radius, fallback_border) = match base {
            Some(p) => (Some(p.background_color), Some(p.corner_radius), p.border),
            None => (None, None, None),
        };
        let fill = resolve_or_fallback(
            self.custom.background_color,
            fallback_background_color,
            visuals.background_color,
            match response_vals {
                Some(rv) => Some(rv.background_color),
                None => None,
            },
        );
        let border = match self.custom.border {
            Some(b) => b,
            None => TuiBackgroundBorder {
                color: TuiBackgroundValue::Default,
                width: TuiBackgroundValue::Default,
            },
        };
        let (fallback_color, fallback_width) = match fallback_border {
            Some(b) => (Some(b.color), Some(b.width)),
            None => (None, None),
        };
        let color = resolve_or_fallback(
            border.color,
            fallback_color,
            visuals.border_color,
            match response_vals {
                Some(rv) => Some(rv.border_color),
                None => None,
            },
        );
        let width = resolve_or_fallback(
            border.width,
            fallback_width,
            visuals.border_width,
            match response_vals {
                Some(rv) => Some(rv.border_width),
                None => None,
            },
        );
        let stroke = match (color, width) {
            (Some(c), Some(w)) => Some(ResolvedBorder { color: c, width: w }),
            _ => None,
        };
        let corner_radius = resolve_or_fallback(
            self.custom.corner_radius,
            fallback_corner_radius,
            visuals.corner_radius,
            match response_vals {
                Some(rv) => Some(rv.corner_radius),
                None => None,
            },
        );
        ResolvedBackground { fill, stroke, corner_radius }
    }

    /// Checked draw: resolve the background and produce the paint command
    /// for `rect`, rejecting the call — before any paint intent exists —
    /// when a response-computed attribute is configured but no response is
    /// at hand.
    pub fn try_draw(
        &self,
        visuals: &VisualsValues,
        response: Option<&VisualsValues>,
        rect: Rect,
    ) -> (r: Result<PaintCommand, BackgroundError>)
        ensures
            r is Ok <==> (response is Some || !self.needs_response_spec(*visuals)),
            r matches Ok(cmd) ==> cmd == paint_command_spec(
                resolved_background_spec(
                    *self,
                    *visuals,
                    match response {
                        Some(rv) => Some(*rv),
                        None => None::<VisualsValues>,
                    },
                ),
                rect,
            ),
            r matches Err(e) ==> e == BackgroundError::ResponseRequired,
    {
        if response.is_none() && self.needs_response(visuals) {
            return Err(BackgroundError::ResponseRequired);
        }
        let resolved = self.resolve(visuals, response);
        Ok(paint_command(resolved, rect))
    }
}

/// Whether a layer's attributes demand an interaction response.
fn params_need_response(p: &TuiBackgroundParams) -> (r: bool)
    ensures
        r == params_use_response(*p),
{
    let bg = matches!(p.background_color, TuiBackgroundValue::VisualsResponse);
    let radius = matches!(p.corner_radius, TuiBackgroundValue::VisualsResponse);
    let border = match &p.border {
        Some(b) => matches!(b.color, TuiBackgroundValue::VisualsResponse) || matches!(
            b.width,
            TuiBackgroundValue::VisualsResponse,
        ),
        None => false,
    };
    bg || radius || border
}

/// Types that can draw a background.
///
/// The unit type draws an empty background.
pub trait BackgroundDraw {
    /// What `draw` returns for these inputs.
    spec fn draw_result_spec(
        self,
        visuals: VisualsValues,
        response: Option<VisualsValues>,
        rect: Rect,
    ) -> Result<PaintCommand, BackgroundError>;

    /// Resolve and emit the paint command for `rect`, or reject the call
    /// when a response-computed attribute lacks its response.
    fn draw(
        self,
        visuals: &VisualsValues,
        response: Option<&VisualsValues>,
        rect: Rect,
    ) -> (r: Result<PaintCommand, BackgroundError>)
        ensures
            r == self.draw_result_spec(
                *visuals,
                match response {
                    Some(rv) => Some(*rv),
                    None => None::<VisualsValues>,
                },
                rect,
            ),
    ;
}

impl BackgroundDraw for TuiBackground {
    /// The checked layered draw: the resolved paint command, unless a
    /// response-computed attribute lacks its response.
    open spec fn draw_result_spec(
        self,
        visuals: VisualsValues,
        response: Option<VisualsValues>,
        rect: Rect,
    ) -> Result<PaintCommand, BackgroundError> {
        if response is Some || !self.needs_response_spec(visuals) {
            Ok(paint_command_spec(resolved_background_spec(self, visuals, response), rect))
        } else {
            Err(BackgroundError::ResponseRequired)
        }
    }

    fn draw(
        self,
        visuals: &VisualsValues,
        response: Option<&VisualsValues>,
        rect: Rect,
    ) -> (r: Result<PaintCommand, BackgroundError>) {
        self.try_draw(visuals, response, rect)
    }
}

impl BackgroundDraw for () {
    /// The unit background draws an empty background: no fill, no border,
    /// never an error.
    open spec fn draw_result_spec(
        self,
        visuals: VisualsValues,
        response: Option<VisualsValues>,
        rect: Rect,
    ) -> Result<PaintCommand, BackgroundError> {
        Ok(PaintCommand::Nothing)
    }

    fn draw(
        self,
        visuals: &VisualsValues,
        response: Option<&VisualsValues>,
        rect: Rect,
    ) -> (r: Result<PaintCommand, BackgroundError>) {
        Ok(PaintCommand::Nothing)
    }
}

/// The fill a paint command paints, if it paints one.
pub open spec fn command_fill(cmd: PaintCommand) -> Option<egui::Color32> {
    match cmd {
        PaintCommand::Nothing => None,
        PaintCommand::FillOnly { fill, .. } => Some(fill),
        PaintCommand::StrokeOnly { .. } => None,
        PaintCommand::FillAndStroke { fill, .. } => Some(fill),
    }
}

/// The border a paint command strokes, if it strokes one.
pub open spec fn command_stroke(cmd: PaintCommand) -> Option<ResolvedBorder> {
    match cmd {
        PaintCommand::Nothing => None,
        PaintCommand::FillOnly { .. } => None,
        PaintCommand::StrokeOnly { border, .. } => Some(border),
        PaintCommand::FillAndStroke { border, .. } => Some(border),
    }
}

/// The corner radius a paint command rounds with, where it paints at all.
pub open spec fn command_corner_radius(cmd: PaintCommand) -> Option<egui::CornerRadius> {
    match cmd {
        PaintCommand::Nothing => None,
        PaintCommand::FillOnly { corner_radius, .. } => corner_radius,
        PaintCommand::StrokeOnly { corner_radius, .. } => corner_radius,
        PaintCommand::FillAndStroke { corner_radius, .. } => corner_radius,
    }
}

/// Background precedence: an explicit constant always wins. For every
/// attribute whose custom slot holds `Custom(v)`, the resolved attribute —
/// and with it the attribute the emitted paint command actually draws — is
/// `v`, whatever the ambient style, the response values or the default
/// layer would have supplied, each attribute independently.
pub proof fn lemma_custom_wins(
    bg: TuiBackground,
    visuals: VisualsValues,
    response: Option<VisualsValues>,
    rect: Rect,
)
    ensures
        (bg.custom.background_color matches TuiBackgroundValue::Custom(c)
            ==> resolved_background_spec(bg, visuals, response).fill == Some(c)),
        (bg.custom.corner_radius matches TuiBackgroundValue::Custom(cr)
            ==> resolved_background_spec(bg, visuals, response).corner_radius == Some(cr)),
        (bg.custom.border matches Some(b) ==> b.color matches TuiBackgroundValue::Custom(c)
            ==> b.width matches TuiBackgroundValue::Custom(w) ==> resolved_background_spec(
            bg,
            visuals,
            response,
        ).stroke == Some(ResolvedBorder { color: c, width: w })),
        ({
            let cmd = paint_command_spec(resolved_background_spec(bg, visuals, response), rect);
            &&& (bg.custom.background_color matches TuiBackgroundValue::Custom(c)
                ==> command_fill(cmd) == Some(c))
            &&& (bg.custom.border matches Some(b) ==> b.color matches TuiBackgroundValue::Custom(
                c,
            ) ==> b.width matches TuiBackgroundValue::Custom(w) ==> command_stroke(cmd) == Some(
                ResolvedBorder { color: c, width: w },
            ))
            &&& (bg.custom.corner_radius matches TuiBackgroundValue::Custom(cr) ==> !(cmd
                is Nothing) ==> command_corner_radius(cmd) == Some(cr))
        }),
{
}

} // verus!
