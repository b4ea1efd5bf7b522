//! The config resolver: a style payload, already reduced by the host to the
//! shape below, becomes a fully defaulted configuration.
//!
//! Numeric style values are carried as their decimal text form — the form in
//! which they reach the output — so the defaults below are the decimal forms
//! of the numeric defaults.  A payload that failed to parse arrives as no
//! payload at all, and resolves to the all-default configuration; when the
//! payload parsed, each optional field falls back to its default
//! independently.

use vstd::prelude::*;

verus! {

/// An SVG viewport: origin, width and height, in decimal text form.
pub struct ViewBox {
    pub min_x: String,
    pub min_y: String,
    pub width: String,
    pub height: String,
}

/// The style payload as parsed: the four style fields are required for the
/// parse to succeed, the rest are optional.
pub struct RawConfig {
    pub stroke: String,
    pub stroke_width: String,
    pub fill: String,
    pub fill_opacity: String,
    pub viewbox: Option<ViewBox>,
    pub label_color: Option<String>,
    pub label_font_size: Option<String>,
    pub label_font_family: Option<String>,
    pub show_labels: Option<bool>,
}

/// A fully defaulted configuration.  Only `viewbox` may remain absent; it is
/// then derived from the data later.
pub struct StyleConfig {
    pub stroke: String,
    pub stroke_width: String,
    pub fill: String,
    pub fill_opacity: String,
    pub viewbox: Option<ViewBox>,
    pub label_color: String,
    pub label_font_size: String,
    pub label_font_family: String,
    pub show_labels: bool,
}

/// The all-default configuration, by field.
pub open spec fn is_default_config(c: StyleConfig) -> bool {
    &&& c.stroke@ == "black"@
    &&& c.stroke_width@ == "0.05"@
    &&& c.fill@ == "red"@
    &&& c.fill_opacity@ == "0.5"@
    &&& c.viewbox is None
    &&& c.label_color@ == "black"@
    &&& c.label_font_size@ == "0.3"@
    &&& c.label_font_family@ == "Arial"@
    &&& c.show_labels == true
}

/// How a parsed payload resolves: required fields pass through, optional
/// fields fall back to their defaults independently.
pub open spec fn resolves_raw(r: RawConfig, c: StyleConfig) -> bool {
    &&& c.stroke == r.stroke
    &&& c.stroke_width == r.stroke_width
    &&& c.fill == r.fill
    &&& c.fill_opacity == r.fill_opacity
    &&& c.viewbox == r.viewbox
    &&& match r.label_color {
        Some(s) => c.label_color == s,
        None => c.label_color@ == "black"@,
    }
    &&& match r.label_font_size {
        Some(s) => c.label_font_size == s,
        None => c.label_font_size@ == "0.3"@,
    }
    &&& match r.label_font_family {
        Some(s) => c.label_font_family == s,
        None => c.label_font_family@ == "Arial"@,
    }
    &&& c.show_labels == match r.show_labels {
        Some(b) => b,
        None => true,
    }
}

/// How any payload resolves: a payload that did not parse resolves to the
/// all-default configuration.
pub open spec fn resolves(raw: Option<RawConfig>, c: StyleConfig) -> bool {
    match raw {
        Some(r) => resolves_raw(r, c),
        None => is_default_config(c),
    }
}

/// The all-default configuration.
pub fn default_config() -> (c: StyleConfig)
    ensures
        is_default_config(c),
{
    StyleConfig {
        stroke: "black".to_owned(),
        stroke_width: "0.05".to_owned(),
        fill: "red".to_owned(),
        fill_opacity: "0.5".to_owned(),
        viewbox: None,
        label_color: "black".to_owned(),
        label_font_size: "0.3".to_owned(),
        label_font_family: "Arial".to_owned(),
        show_labels: true,
    }
}

impl Default for StyleConfig {
    /// The all-default configuration.
    fn default() -> (c: Self)
        ensures
            is_default_config(c),
    {
        default_config()
    }
}

/// Resolves a payload: full defaults when it did not parse, per-field
/// defaults for the optional fields when it did.
pub fn resolve_config(raw: Option<RawConfig>) -> (c: StyleConfig)
    ensures
        resolves(raw, c),
{
    match raw {
        None => default_config(),
        Some(r) => StyleConfig {
            stroke: r.stroke,
            stroke_width: r.stroke_width,
            fill: r.fill,
            fill_opacity: r.fill_opacity,
            viewbox: r.viewbox,
            label_color: match r.label_color {
                Some(s) => s,
                None => "black".to_owned(),
            },
            label_font_size: match r.label_font_size {
                Some(s) => s,
                None => "0.3".to_owned(),
            },
            label_font_family: match r.label_font_family {
                Some(s) => s,
                None => "Arial".to_owned(),
            },
            show_labels: match r.show_labels {
                Some(b) => b,
                None => true,
            },
        },
    }
}

} // verus!
