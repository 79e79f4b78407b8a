use vstd::prelude::*;
use crate::value::{Num, ScriptTable, ScriptValue, field, number_at};

verus! {

/// A color as the style holds it.
#[derive(Clone, Copy, PartialEq, Eq, Structural, Debug)]
pub enum Paint {
    /// A color already in the host's 8-bit, premultiplied form: red, green,
    /// blue and alpha.
    Native(u8, u8, u8, u8),
    /// A color given by script as components in `0..=1`, not premultiplied.
    /// An absent alpha means opaque.
    Components { r: Num, g: Num, b: Num, a: Option<Num> },
}

/// A two-dimensional size or offset.
#[derive(Clone, Copy, PartialEq, Eq, Structural, Debug)]
pub struct Vec2 {
    pub x: Num,
    pub y: Num,
}

/// Space around the four sides of a rectangle.
#[derive(Clone, Copy, PartialEq, Eq, Structural, Debug)]
pub struct Margin {
    pub left: Num,
    pub right: Num,
    pub top: Num,
    pub bottom: Num,
}

/// The radii of the four corners of a rectangle.
#[derive(Clone, Copy, PartialEq, Eq, Structural, Debug)]
pub struct Rounding {
    pub nw: Num,
    pub ne: Num,
    pub sw: Num,
    pub se: Num,
}

/// How widgets look in one interaction state.
#[derive(Clone, Copy, PartialEq, Eq, Structural, Debug)]
pub struct WidgetVisuals {
    pub bg_fill: Paint,
    pub weak_bg_fill: Paint,
    pub rounding: Rounding,
}

/// Sizes and distances used by the layout.
#[derive(Clone, Copy, PartialEq, Eq, Structural, Debug)]
pub struct Spacing {
    pub item_spacing: Vec2,
    pub button_padding: Vec2,
    pub interact_size: Vec2,
    pub menu_margin: Margin,
    pub indent: Num,
    pub slider_width: Num,
    pub combo_width: Num,
    pub text_edit_width: Num,
    pub icon_width: Num,
    pub icon_width_inner: Num,
    pub icon_spacing: Num,
    pub tooltip_width: Num,
    pub combo_height: Num,
}

/// Colors and shapes of the interface.
#[derive(Clone, Copy, PartialEq, Eq, Structural, Debug)]
pub struct Visuals {
    pub dark_mode: bool,
    pub noninteractive: WidgetVisuals,
    pub inactive: WidgetVisuals,
    pub hovered: WidgetVisuals,
    pub active: WidgetVisuals,
    pub open: WidgetVisuals,
    pub hyperlink_color: Paint,
    pub faint_bg_color: Paint,
    pub extreme_bg_color: Paint,
    pub code_bg_color: Paint,
    pub warn_fg_color: Paint,
    pub error_fg_color: Paint,
    pub window_rounding: Rounding,
    pub window_fill: Paint,
    pub panel_fill: Paint,
    pub override_text_color: Option<Paint>,
}

/// A line's width and color.
#[derive(Clone, Copy, PartialEq, Eq, Structural, Debug)]
pub struct Stroke {
    pub width: Num,
    pub color: Paint,
}

/// How a framed block (or a button) is drawn.
#[derive(Clone, Copy, PartialEq, Eq, Structural, Debug)]
pub struct FrameStyle {
    pub fill: Paint,
    pub stroke: Stroke,
    pub rounding: Rounding,
    pub inner_margin: Margin,
    pub min_size: Vec2,
}

/// The style attributes that script can set.
#[derive(Clone, Copy, PartialEq, Eq, Structural, Debug)]
pub struct Style {
    pub wrap: Option<bool>,
    pub spacing: Spacing,
    pub visuals: Visuals,
}

// ---------------------------------------------------------------------------
// What decoding means.

/// The color that a table describes: numbers under indices 1, 2 and 3, and
/// optionally an alpha under index 4.
pub open spec fn color_of(t: ScriptTable) -> Option<Paint> {
    match (number_at(t, 1), number_at(t, 2), number_at(t, 3)) {
        (Some(r), Some(g), Some(b)) => Some(Paint::Components { r, g, b, a: number_at(t, 4) }),
        _ => None,
    }
}

/// The color that a value describes, if it is a table that describes one.
pub open spec fn color_value(v: Option<ScriptValue>) -> Option<Paint> {
    match v {
        Some(ScriptValue::Table(t)) => color_of(t),
        _ => None,
    }
}

pub open spec fn paint_of(v: Option<ScriptValue>, base: Paint) -> Paint {
    match color_value(v) {
        Some(p) => p,
        None => base,
    }
}

pub open spec fn num_of(v: Option<ScriptValue>, base: Num) -> Num {
    match v {
        Some(ScriptValue::Number(n)) => n,
        _ => base,
    }
}

pub open spec fn bool_of(v: Option<ScriptValue>, base: bool) -> bool {
    match v {
        Some(ScriptValue::Boolean(b)) => b,
        _ => base,
    }
}

/// A pair from a table: each component that is missing keeps its base value.
pub open spec fn vec2_of(v: Option<ScriptValue>, base: Vec2) -> Vec2 {
    match v {
        Some(ScriptValue::Table(t)) => Vec2 {
            x: match number_at(t, 1) {
                Some(n) => n,
                None => base.x,
            },
            y: match number_at(t, 2) {
                Some(n) => n,
                None => base.y,
            },
        },
        _ => base,
    }
}

pub open spec fn margin_same(n: Num) -> Margin {
    Margin { left: n, right: n, top: n, bottom: n }
}

/// A margin: one number for every side, a pair (horizontal, vertical), or
/// four numbers (top, left, right, bottom).
pub open spec fn margin_of(v: Option<ScriptValue>, base: Margin) -> Margin {
    match v {
        Some(ScriptValue::Number(n)) => margin_same(n),
        Some(ScriptValue::Table(t)) => match (
            number_at(t, 1),
            number_at(t, 2),
            number_at(t, 3),
            number_at(t, 4),
        ) {
            (Some(top), Some(left), Some(right), Some(bottom)) => Margin {
                left,
                right,
                top,
                bottom,
            },
            (Some(x), Some(y), _, _) => Margin { left: x, right: x, top: y, bottom: y },
            _ => base,
        },
        _ => base,
    }
}

pub open spec fn rounding_same(n: Num) -> Rounding {
    Rounding { nw: n, ne: n, sw: n, se: n }
}

/// A rounding: one number for every corner, or four (ne, nw, se, sw).
pub open spec fn rounding_of(v: Option<ScriptValue>, base: Rounding) -> Rounding {
    match v {
        Some(ScriptValue::Number(n)) => rounding_same(n),
        Some(ScriptValue::Table(t)) => match (
            number_at(t, 1),
            number_at(t, 2),
            number_at(t, 3),
            number_at(t, 4),
        ) {
            (Some(ne), Some(nw), Some(se), Some(sw)) => Rounding { nw, ne, sw, se },
            _ => base,
        },
        _ => base,
    }
}

pub open spec fn widget_of(v: Option<ScriptValue>, base: WidgetVisuals) -> WidgetVisuals {
    match v {
        Some(ScriptValue::Table(t)) => WidgetVisuals {
            bg_fill: paint_of(field(t, "bg_fill"@), base.bg_fill),
            weak_bg_fill: paint_of(field(t, "weak_bg_fill"@), base.weak_bg_fill),
            rounding: rounding_of(field(t, "rounding"@), base.rounding),
        },
        _ => base,
    }
}

pub open spec fn spacing_of(v: Option<ScriptValue>, base: Spacing) -> Spacing {
    match v {
        Some(ScriptValue::Table(t)) => Spacing {
            item_spacing: vec2_of(field(t, "item_spacing"@), base.item_spacing),
            button_padding: vec2_of(field(t, "button_padding"@), base.button_padding),
            interact_size: vec2_of(field(t, "interact_size"@), base.interact_size),
            menu_margin: margin_of(field(t, "menu_margin"@), base.menu_margin),
            indent: num_of(field(t, "indent"@), base.indent),
            slider_width: num_of(field(t, "slider_width"@), base.slider_width),
            combo_width: num_of(field(t, "combo_width"@), base.combo_width),
            text_edit_width: num_of(field(t, "text_edit_width"@), base.text_edit_width),
            icon_width: num_of(field(t, "icon_width"@), base.icon_width),
            icon_width_inner: num_of(field(t, "icon_width_inner"@), base.icon_width_inner),
            icon_spacing: num_of(field(t, "icon_spacing"@), base.icon_spacing),
            tooltip_width: num_of(field(t, "tooltip_width"@), base.tooltip_width),
            combo_height: num_of(field(t, "combo_height"@), base.combo_height),
        },
        _ => base,
    }
}

pub open spec fn visuals_of(v: Option<ScriptValue>, base: Visuals) -> Visuals {
    match v {
        Some(ScriptValue::Table(t)) => Visuals {
            dark_mode: bool_of(field(t, "dark_mode"@), base.dark_mode),
            noninteractive: widget_of(field(t, "noninteractive"@), base.noninteractive),
            inactive: widget_of(field(t, "inactive"@), base.inactive),
            hovered: widget_of(field(t, "hovered"@), base.hovered),
            active: widget_of(field(t, "active"@), base.active),
            open: widget_of(field(t, "open"@), base.open),
            hyperlink_color: paint_of(field(t, "hyperlink_color"@), base.hyperlink_color),
            faint_bg_color: paint_of(field(t, "faint_bg_color"@), base.faint_bg_color),
            extreme_bg_color: paint_of(field(t, "extreme_bg_color"@), base.extreme_bg_color),
            code_bg_color: paint_of(field(t, "code_bg_color"@), base.code_bg_color),
            warn_fg_color: paint_of(field(t, "warn_fg_color"@), base.warn_fg_color),
            error_fg_color: paint_of(field(t, "error_fg_color"@), base.error_fg_color),
            window_rounding: rounding_of(field(t, "window_rounding"@), base.window_rounding),
            window_fill: paint_of(field(t, "window_fill"@), base.window_fill),
            panel_fill: paint_of(field(t, "panel_fill"@), base.panel_fill),
            override_text_color: match color_value(field(t, "text_color"@)) {
                Some(p) => Some(p),
                None => base.override_text_color,
            },
        },
        _ => base,
    }
}

/// The style that descriptor `d` gives when applied over `base`.
pub open spec fn style_of(d: ScriptTable, base: Style) -> Style {
    Style {
        wrap: match field(d, "wrap"@) {
            Some(ScriptValue::Boolean(b)) => Some(b),
            _ => base.wrap,
        },
        spacing: spacing_of(field(d, "spacing"@), base.spacing),
        visuals: visuals_of(field(d, "visuals"@), base.visuals),
    }
}

/// A stroke from a table: a color under indices 1 to 4 and a width under
/// index 5, one where it is missing.
pub open spec fn stroke_value(v: Option<ScriptValue>) -> Option<Stroke> {
    match v {
        Some(ScriptValue::Table(t)) => match color_of(t) {
            Some(c) => Some(
                Stroke {
                    width: match number_at(t, 5) {
                        Some(w) => w,
                        None => Num::spec_one(),
                    },
                    color: c,
                },
            ),
            None => None,
        },
        _ => None,
    }
}

/// The frame that descriptor `d` gives over `base`: `color` is the fill,
/// `stroke`, `rounding`, `padding` and `min_size` the rest.
pub open spec fn frame_of(d: ScriptTable, base: FrameStyle) -> FrameStyle {
    FrameStyle {
        fill: paint_of(field(d, "color"@), base.fill),
        stroke: match stroke_value(field(d, "stroke"@)) {
            Some(s) => s,
            None => base.stroke,
        },
        rounding: rounding_of(field(d, "rounding"@), base.rounding),
        inner_margin: margin_of(field(d, "padding"@), base.inner_margin),
        min_size: vec2_of(field(d, "min_size"@), base.min_size),
    }
}

// ---------------------------------------------------------------------------
// Decoding.

/// The color that a script table describes, or `None` where an index among
/// 1, 2 and 3 does not hold a number.
pub fn color_from_lua_table(t: &ScriptTable) -> (r: Option<Paint>)
    ensures
        r == color_of(*t),
{
    let r = t.number(1);
    let g = t.number(2);
    let b = t.number(3);
    match (r, g, b) {
        (Some(r), Some(g), Some(b)) => Some(Paint::Components { r, g, b, a: t.number(4) }),
        _ => None,
    }
}

/// The color under `name`, if that entry describes one.
pub fn color_field(t: &ScriptTable, name: &str) -> (r: Option<Paint>)
    ensures
        r == color_value(field(*t, name@)),
{
    match t.get(name) {
        Some(ScriptValue::Table(c)) => color_from_lua_table(c),
        _ => None,
    }
}

fn read_paint(t: &ScriptTable, name: &str, base: Paint) -> (r: Paint)
    ensures
        r == paint_of(field(*t, name@), base),
{
    match color_field(t, name) {
        Some(p) => p,
        None => base,
    }
}

fn read_num(t: &ScriptTable, name: &str, base: Num) -> (r: Num)
    ensures
        r == num_of(field(*t, name@), base),
{
    match t.get(name) {
        Some(ScriptValue::Number(n)) => *n,
        _ => base,
    }
}

fn read_bool(t: &ScriptTable, name: &str, base: bool) -> (r: bool)
    ensures
        r == bool_of(field(*t, name@), base),
{
    match t.get(name) {
        Some(ScriptValue::Boolean(b)) => *b,
        _ => base,
    }
}

fn read_vec2(t: &ScriptTable, name: &str, base: Vec2) -> (r: Vec2)
    ensures
        r == vec2_of(field(*t, name@), base),
{
    match t.get(name) {
        Some(ScriptValue::Table(v)) => {
            let x = match v.number(1) {
                Some(n) => n,
                None => base.x,
            };
            let y = match v.number(2) {
                Some(n) => n,
                None => base.y,
            };
            Vec2 { x, y }
        },
        _ => base,
    }
}

/// The margin that a value describes over `base` (see `margin_of`).
pub fn decode_margin(v: &ScriptValue, base: Margin) -> (r: Margin)
    ensures
        r == margin_of(Some(*v), base),
{
    match v {
        ScriptValue::Number(n) => Margin { left: *n, right: *n, top: *n, bottom: *n },
        ScriptValue::Table(t) => match (t.number(1), t.number(2), t.number(3), t.number(4)) {
            (Some(top), Some(left), Some(right), Some(bottom)) => Margin {
                left,
                right,
                top,
                bottom,
            },
            (Some(x), Some(y), _, _) => Margin { left: x, right: x, top: y, bottom: y },
            _ => base,
        },
        _ => base,
    }
}

/// The rounding that a value describes over `base` (see `rounding_of`).
pub fn decode_rounding(v: &ScriptValue, base: Rounding) -> (r: Rounding)
    ensures
        r == rounding_of(Some(*v), base),
{
    match v {
        ScriptValue::Number(n) => Rounding { nw: *n, ne: *n, sw: *n, se: *n },
        ScriptValue::Table(t) => match (t.number(1), t.number(2), t.number(3), t.number(4)) {
            (Some(ne), Some(nw), Some(se), Some(sw)) => Rounding { nw, ne, sw, se },
            _ => base,
        },
        _ => base,
    }
}

fn read_margin(t: &ScriptTable, name: &str, base: Margin) -> (r: Margin)
    ensures
        r == margin_of(field(*t, name@), base),
{
    match t.get(name) {
        Some(v) => decode_margin(v, base),
        None => base,
    }
}

fn read_rounding(t: &ScriptTable, name: &str, base: Rounding) -> (r: Rounding)
    ensures
        r == rounding_of(field(*t, name@), base),
{
    match t.get(name) {
        Some(v) => decode_rounding(v, base),
        None => base,
    }
}

fn read_widget(t: &ScriptTable, name: &str, base: WidgetVisuals) -> (r: WidgetVisuals)
    ensures
        r == widget_of(field(*t, name@), base),
{
    match t.get(name) {
        Some(ScriptValue::Table(w)) => WidgetVisuals {
            bg_fill: read_paint(w, "bg_fill", base.bg_fill),
            weak_bg_fill: read_paint(w, "weak_bg_fill", base.weak_bg_fill),
            rounding: read_rounding(w, "rounding", base.rounding),
        },
        _ => base,
    }
}

fn read_spacing(t: &ScriptTable, name: &str, base: Spacing) -> (r: Spacing)
    ensures
        r == spacing_of(field(*t, name@), base),
{
    match t.get(name) {
        Some(ScriptValue::Table(s)) => Spacing {
            item_spacing: read_vec2(s, "item_spacing", base.item_spacing),
            button_padding: read_vec2(s, "button_padding", base.button_padding),
            interact_size: read_vec2(s, "interact_size", base.interact_size),
            menu_margin: read_margin(s, "menu_margin", base.menu_margin),
            indent: read_num(s, "indent", base.indent),
            slider_width: read_num(s, "slider_width", base.slider_width),
            combo_width: read_num(s, "combo_width", base.combo_width),
            text_edit_width: read_num(s, "text_edit_width", base.text_edit_width),
            icon_width: read_num(s, "icon_width", base.icon_width),
            icon_width_inner: read_num(s, "icon_width_inner", base.icon_width_inner),
            icon_spacing: read_num(s, "icon_spacing", base.icon_spacing),
            tooltip_width: read_num(s, "tooltip_width", base.tooltip_width),
            combo_height: read_num(s, "combo_height", base.combo_height),
        },
        _ => base,
    }
}

fn read_visuals(t: &ScriptTable, name: &str, base: Visuals) -> (r: Visuals)
    ensures
        r == visuals_of(field(*t, name@), base),
{
    match t.get(name) {
        Some(ScriptValue::Table(v)) => Visuals {
            dark_mode: read_bool(v, "dark_mode", base.dark_mode),
            noninteractive: read_widget(v, "noninteractive", base.noninteractive),
            inactive: read_widget(v, "inactive", base.inactive),
            hovered: read_widget(v, "hovered", base.hovered),
            active: read_widget(v, "active", base.active),
            open: read_widget(v, "open", base.open),
            hyperlink_color: read_paint(v, "hyperlink_color", base.hyperlink_color),
            faint_bg_color: read_paint(v, "faint_bg_color", base.faint_bg_color),
            extreme_bg_color: read_paint(v, "extreme_bg_color", base.extreme_bg_color),
            code_bg_color: read_paint(v, "code_bg_color", base.code_bg_color),
            warn_fg_color: read_paint(v, "warn_fg_color", base.warn_fg_color),
            error_fg_color: read_paint(v, "error_fg_color", base.error_fg_color),
            window_rounding: read_rounding(v, "window_rounding", base.window_rounding),
            window_fill: read_paint(v, "window_fill", base.window_fill),
            panel_fill: read_paint(v, "panel_fill", base.panel_fill),
            override_text_color: match color_field(v, "text_color") {
                Some(p) => Some(p),
                None => base.override_text_color,
            },
        },
        _ => base,
    }
}

/// Applies a style descriptor over `base`. Every attribute is optional: one
/// that is missing or of the wrong type keeps its value from `base`.
pub fn decode_style(d: &ScriptTable, base: Style) -> (r: Style)
    ensures
        r == style_of(*d, base),
{
    let wrap = match d.get("wrap") {
        Some(ScriptValue::Boolean(b)) => Some(*b),
        _ => base.wrap,
    };
    Style {
        wrap,
        spacing: read_spacing(d, "spacing", base.spacing),
        visuals: read_visuals(d, "visuals", base.visuals),
    }
}

fn read_stroke(t: &ScriptTable, name: &str) -> (r: Option<Stroke>)
    ensures
        r == stroke_value(field(*t, name@)),
{
    match t.table_field(name) {
        Some(s) => match color_from_lua_table(s) {
            Some(c) => {
                let width = match s.number(5) {
                    Some(w) => w,
                    None => Num::one(),
                };
                Some(Stroke { width, color: c })
            },
            None => None,
        },
        None => None,
    }
}

/// Applies a frame descriptor over `base`; attributes that are missing or of
/// the wrong type keep their value from `base`.
pub fn decode_frame(d: &ScriptTable, base: FrameStyle) -> (r: FrameStyle)
    ensures
        r == frame_of(*d, base),
{
    FrameStyle {
        fill: read_paint(d, "color", base.fill),
        stroke: match read_stroke(d, "stroke") {
            Some(s) => s,
            None => base.stroke,
        },
        rounding: read_rounding(d, "rounding", base.rounding),
        inner_margin: read_margin(d, "padding", base.inner_margin),
        min_size: read_vec2(d, "min_size", base.min_size),
    }
}

impl Visuals {
    /// Sets the window fill from four components (red, green, blue, alpha).
    pub fn set_window_fill(&mut self, r: Num, g: Num, b: Num, a: Num)
        ensures
            *final(self) == (Visuals {
                window_fill: Paint::Components { r, g, b, a: Some(a) },
                ..*old(self)
            }),
    {
        self.window_fill = Paint::Components { r, g, b, a: Some(a) };
    }

    /// Overrides the text color with four components (red, green, blue, alpha).
    pub fn set_text_color(&mut self, r: Num, g: Num, b: Num, a: Num)
        ensures
            *final(self) == (Visuals {
                override_text_color: Some(Paint::Components { r, g, b, a: Some(a) }),
                ..*old(self)
            }),
    {
        self.override_text_color = Some(Paint::Components { r, g, b, a: Some(a) });
    }
}

// ---------------------------------------------------------------------------
// Laws of decoding.

/// Decoding an empty descriptor gives back the base style unchanged.
pub proof fn lemma_empty_descriptor_keeps_base(d: ScriptTable, base: Style)
    requires
        d.entries@.len() == 0,
    ensures
        style_of(d, base) == base,
{
}

/// A single number for a margin means the same as that number written out
/// for each of the four sides, and the same as a pair of it.
pub proof fn lemma_margin_scalar_broadcast(n: Num, four: ScriptTable, pair: ScriptTable, base: Margin)
    requires
        number_at(four, 1) == Some(n),
        number_at(four, 2) == Some(n),
        number_at(four, 3) == Some(n),
        number_at(four, 4) == Some(n),
        number_at(pair, 1) == Some(n),
        number_at(pair, 2) == Some(n),
        number_at(pair, 4) == None::<Num>,
    ensures
        margin_of(Some(ScriptValue::Number(n)), base) == margin_of(
            Some(ScriptValue::Table(four)),
            base,
        ),
        margin_of(Some(ScriptValue::Number(n)), base) == margin_of(
            Some(ScriptValue::Table(pair)),
            base,
        ),
{
}

/// A single number for a rounding means the same as that number written out
/// for each of the four corners.
pub proof fn lemma_rounding_scalar_broadcast(n: Num, four: ScriptTable, base: Rounding)
    requires
        number_at(four, 1) == Some(n),
        number_at(four, 2) == Some(n),
        number_at(four, 3) == Some(n),
        number_at(four, 4) == Some(n),
    ensures
        rounding_of(Some(ScriptValue::Number(n)), base) == rounding_of(
            Some(ScriptValue::Table(four)),
            base,
        ),
{
}

/// A fill attribute (`window_fill` or `panel_fill` of the visuals) whose
/// value is not a table is ignored: the style is the one that the empty
/// descriptor gives.
pub proof fn lemma_malformed_fill_ignored(
    d: ScriptTable,
    visuals: ScriptTable,
    name: Seq<char>,
    v: ScriptValue,
    empty: ScriptTable,
    base: Style,
)
    requires
        name == "window_fill"@ || name == "panel_fill"@,
        !(v is Table),
        d.entries@.len() == 1,
        d.entries@[0].0@ == crate::value::KeyModel::Name("visuals"@),
        d.entries@[0].1 == ScriptValue::Table(visuals),
        visuals.entries@.len() == 1,
        visuals.entries@[0].0@ == crate::value::KeyModel::Name(name),
        visuals.entries@[0].1 == v,
        empty.entries@.len() == 0,
    ensures
        style_of(d, base) == style_of(empty, base),
{
    reveal_strlit("visuals");
    reveal_strlit("wrap");
    reveal_strlit("spacing");
    reveal_strlit("window_fill");
    reveal_strlit("panel_fill");
    reveal_strlit("dark_mode");
    reveal_strlit("noninteractive");
    reveal_strlit("inactive");
    reveal_strlit("hovered");
    reveal_strlit("active");
    reveal_strlit("open");
    reveal_strlit("hyperlink_color");
    reveal_strlit("faint_bg_color");
    reveal_strlit("extreme_bg_color");
    reveal_strlit("code_bg_color");
    reveal_strlit("warn_fg_color");
    reveal_strlit("error_fg_color");
    reveal_strlit("window_rounding");
    reveal_strlit("text_color");
    lemma_empty_descriptor_keeps_base(empty, base);
    crate::value::lemma_lookup_single(d.entries@, crate::value::KeyModel::Name("visuals"@));
    crate::value::lemma_lookup_single(d.entries@, crate::value::KeyModel::Name("wrap"@));
    crate::value::lemma_lookup_single(d.entries@, crate::value::KeyModel::Name("spacing"@));
    assert(forall|k: Seq<char>|
        field(visuals, k) == (if k == name {
            Some(v)
        } else {
            None
        })) by {
        assert forall|k: Seq<char>|
            field(visuals, k) == (if k == name {
                Some(v)
            } else {
                None
            }) by {
            crate::value::lemma_lookup_single(visuals.entries@, crate::value::KeyModel::Name(k));
        }
    }
    assert(field(d, "visuals"@) == Some(ScriptValue::Table(visuals)));
    assert("spacing"@[0] != "visuals"@[0]);
    assert(name.len() == 11 || name.len() == 10);
    assert("text_color"@[0] != name[0]);
    assert(visuals_of(Some(ScriptValue::Table(visuals)), base.visuals) == base.visuals);
}

} // verus!
