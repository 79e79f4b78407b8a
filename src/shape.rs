use vstd::prelude::*;
use crate::value::{
    Num, ScriptTable, ScriptValue, field, number_named, same_text, starts_with_text,
};
use crate::style::{
    Paint, Rounding, Stroke, Vec2, color_from_lua_table, color_value, decode_rounding, rounding_of,
};

verus! {

/// A geometric shape for the painter.
#[derive(Clone, Copy, PartialEq, Eq, Structural, Debug)]
pub enum ShapeDesc {
    Rect { x: Num, y: Num, w: Num, h: Num, fill: Paint, stroke: Stroke },
    Circle { x: Num, y: Num, radius: Num, fill: Paint, stroke: Stroke },
    Line { x1: Num, y1: Num, x2: Num, y2: Num, stroke: Stroke },
}

/// A shape that script holds on to and hands back to the painter later.
#[derive(Clone, Copy, Debug)]
pub struct LuaShape {
    pub shape: ShapeDesc,
}

/// A stroke sub-descriptor: a table with a color and a `width`.
pub open spec fn shape_stroke_of(v: Option<ScriptValue>) -> Option<Stroke> {
    match v {
        Some(ScriptValue::Table(s)) => match (color_value(v), number_named(s, "width"@)) {
            (Some(c), Some(w)) => Some(Stroke { width: w, color: c }),
            _ => None,
        },
        _ => None,
    }
}

pub open spec fn rect_of(t: ScriptTable) -> Option<ShapeDesc> {
    match (
        number_named(t, "x"@),
        number_named(t, "y"@),
        number_named(t, "w"@),
        number_named(t, "h"@),
        color_value(field(t, "fill"@)),
        shape_stroke_of(field(t, "stroke"@)),
    ) {
        (Some(x), Some(y), Some(w), Some(h), Some(fill), Some(stroke)) => Some(
            ShapeDesc::Rect { x, y, w, h, fill, stroke },
        ),
        _ => None,
    }
}

pub open spec fn circle_of(t: ScriptTable) -> Option<ShapeDesc> {
    match (
        number_named(t, "x"@),
        number_named(t, "y"@),
        number_named(t, "radius"@),
        color_value(field(t, "fill"@)),
        shape_stroke_of(field(t, "stroke"@)),
    ) {
        (Some(x), Some(y), Some(radius), Some(fill), Some(stroke)) => Some(
            ShapeDesc::Circle { x, y, radius, fill, stroke },
        ),
        _ => None,
    }
}

pub open spec fn line_of(t: ScriptTable) -> Option<ShapeDesc> {
    match (
        number_named(t, "x1"@),
        number_named(t, "y1"@),
        number_named(t, "x2"@),
        number_named(t, "y2"@),
        color_value(field(t, "color"@)),
        number_named(t, "width"@),
    ) {
        (Some(x1), Some(y1), Some(x2), Some(y2), Some(c), Some(w)) => Some(
            ShapeDesc::Line { x1, y1, x2, y2, stroke: Stroke { width: w, color: c } },
        ),
        _ => None,
    }
}

/// The shape that a descriptor table describes. Its `type` picks the kind;
/// any required attribute that is missing or malformed gives no shape.
pub open spec fn shape_of(t: ScriptTable) -> Option<ShapeDesc> {
    match field(t, "type"@) {
        Some(ScriptValue::Str(s)) => if s@ == "rect"@ {
            rect_of(t)
        } else if s@ == "circle"@ {
            circle_of(t)
        } else if s@ == "line"@ {
            line_of(t)
        } else {
            None
        },
        _ => None,
    }
}

fn read_shape_stroke(t: &ScriptTable, name: &str) -> (r: Option<Stroke>)
    ensures
        r == shape_stroke_of(field(*t, name@)),
{
    match t.table_field(name) {
        Some(s) => match (color_from_lua_table(s), s.number_field("width")) {
            (Some(c), Some(w)) => Some(Stroke { width: w, color: c }),
            _ => None,
        },
        None => None,
    }
}

fn read_color(t: &ScriptTable, name: &str) -> (r: Option<Paint>)
    ensures
        r == color_value(field(*t, name@)),
{
    match t.table_field(name) {
        Some(c) => color_from_lua_table(c),
        None => None,
    }
}

fn rect_from(t: &ScriptTable) -> (r: Option<ShapeDesc>)
    ensures
        r == rect_of(*t),
{
    match (
        t.number_field("x"),
        t.number_field("y"),
        t.number_field("w"),
        t.number_field("h"),
        read_color(t, "fill"),
        read_shape_stroke(t, "stroke"),
    ) {
        (Some(x), Some(y), Some(w), Some(h), Some(fill), Some(stroke)) => Some(
            ShapeDesc::Rect { x, y, w, h, fill, stroke },
        ),
        _ => None,
    }
}

fn circle_from(t: &ScriptTable) -> (r: Option<ShapeDesc>)
    ensures
        r == circle_of(*t),
{
    match (
        t.number_field("x"),
        t.number_field("y"),
        t.number_field("radius"),
        read_color(t, "fill"),
        read_shape_stroke(t, "stroke"),
    ) {
        (Some(x), Some(y), Some(radius), Some(fill), Some(stroke)) => Some(
            ShapeDesc::Circle { x, y, radius, fill, stroke },
        ),
        _ => None,
    }
}

fn line_from(t: &ScriptTable) -> (r: Option<ShapeDesc>)
    ensures
        r == line_of(*t),
{
    match (
        t.number_field("x1"),
        t.number_field("y1"),
        t.number_field("x2"),
        t.number_field("y2"),
        read_color(t, "color"),
        t.number_field("width"),
    ) {
        (Some(x1), Some(y1), Some(x2), Some(y2), Some(c), Some(w)) => Some(
            ShapeDesc::Line { x1, y1, x2, y2, stroke: Stroke { width: w, color: c } },
        ),
        _ => None,
    }
}

/// Decodes a shape descriptor table (see `shape_of`).
pub fn from_lua_table(t: &ScriptTable) -> (r: Option<ShapeDesc>)
    ensures
        r == shape_of(*t),
{
    match t.get("type") {
        Some(ScriptValue::Str(s)) => {
            if same_text(s.as_str(), "rect") {
                rect_from(t)
            } else if same_text(s.as_str(), "circle") {
                circle_from(t)
            } else if same_text(s.as_str(), "line") {
                line_from(t)
            } else {
                None
            }
        },
        _ => None,
    }
}

/// Decodes each entry of a sequence of shape descriptors, in order, keeping
/// those that describe a shape.
pub fn shapes_from_lua_tables(ts: &Vec<ScriptValue>) -> (r: Vec<ShapeDesc>)
    ensures
        r@ == shapes_of(ts@),
{
    let mut out: Vec<ShapeDesc> = Vec::new();
    let mut i: usize = 0;
    while i < ts.len()
        invariant
            i <= ts@.len(),
            out@ == shapes_of(ts@.subrange(0, i as int)),
        decreases ts@.len() - i,
    {
        proof {
            lemma_shapes_of_push(ts@, i as int);
        }
        match &ts[i] {
            ScriptValue::Table(t) => match from_lua_table(t) {
                Some(s) => out.push(s),
                None => {},
            },
            _ => {},
        }
        i = i + 1;
    }
    assert(ts@.subrange(0, ts@.len() as int) =~= ts@);
    out
}

/// The shapes that a sequence of values describes, in order.
pub open spec fn shapes_of(vs: Seq<ScriptValue>) -> Seq<ShapeDesc>
    decreases vs.len(),
{
    if vs.len() == 0 {
        Seq::empty()
    } else {
        let rest = shapes_of(vs.drop_last());
        match vs.last() {
            ScriptValue::Table(t) => match shape_of(t) {
                Some(s) => rest.push(s),
                None => rest,
            },
            _ => rest,
        }
    }
}

proof fn lemma_shapes_of_push(vs: Seq<ScriptValue>, i: int)
    requires
        0 <= i < vs.len(),
    ensures
        shapes_of(vs.subrange(0, i + 1)) == ({
            let rest = shapes_of(vs.subrange(0, i));
            match vs[i] {
                ScriptValue::Table(t) => match shape_of(t) {
                    Some(s) => rest.push(s),
                    None => rest,
                },
                _ => rest,
            }
        }),
{
    assert(vs.subrange(0, i + 1).drop_last() =~= vs.subrange(0, i));
}

/// Where an image comes from.
#[derive(Clone, Debug)]
pub enum ImageSource {
    /// The bytes that the value itself holds.
    Bytes,
    /// A remote resource, loaded by the host.
    Uri(String),
    /// A file to read.
    File(String),
    /// The fixed placeholder image.
    Fallback,
}

/// Where the image that a value names comes from: a byte buffer, an
/// `http://` or `https://` address, or a file path; anything else falls
/// back to the placeholder.
pub open spec fn image_source_of(v: ScriptValue) -> ImageSource {
    match v {
        ScriptValue::Bytes(_) => ImageSource::Bytes,
        ScriptValue::Str(s) => if is_prefix("http://"@, s@) || is_prefix("https://"@, s@) {
            ImageSource::Uri(s)
        } else {
            ImageSource::File(s)
        },
        _ => ImageSource::Fallback,
    }
}

pub open spec fn is_prefix(p: Seq<char>, s: Seq<char>) -> bool {
    p.len() <= s.len() && s.subrange(0, p.len() as int) == p
}

/// Resolves an image value (see `image_source_of`).
pub fn resolve_image_source(v: &ScriptValue) -> (r: ImageSource)
    ensures
        r == image_source_of(*v),
{
    match v {
        ScriptValue::Bytes(_) => ImageSource::Bytes,
        ScriptValue::Str(s) => {
            if starts_with_text(s.as_str(), "http://") || starts_with_text(s.as_str(), "https://") {
                ImageSource::Uri(s.clone())
            } else {
                ImageSource::File(s.clone())
            }
        },
        _ => ImageSource::Fallback,
    }
}

/// A turn around an origin.
#[derive(Clone, Copy, PartialEq, Eq, Structural, Debug)]
pub struct Rotation {
    pub angle: Num,
    pub origin: Vec2,
}

/// Display options for an image; `None` leaves the host's default.
#[derive(Clone, Copy, PartialEq, Eq, Structural, Debug)]
pub struct ImageOptions {
    pub fit_original: Option<Num>,
    pub maintain_aspect_ratio: Option<bool>,
    pub fit_to: Option<Vec2>,
    pub rotate: Option<Rotation>,
    pub rounding: Option<Rounding>,
    pub spinner: Option<bool>,
}

pub open spec fn bool_named(t: ScriptTable, name: Seq<char>) -> Option<bool> {
    match field(t, name) {
        Some(ScriptValue::Boolean(b)) => Some(b),
        _ => None,
    }
}

/// The options that a table gives. `fit_to` needs two numbers and `rotate`
/// three (origin x, origin y, angle); otherwise the option is left out.
pub open spec fn image_options_of(t: ScriptTable) -> ImageOptions {
    ImageOptions {
        fit_original: number_named(t, "fit_original"@),
        maintain_aspect_ratio: bool_named(t, "maintain_aspect_ratio"@),
        fit_to: match field(t, "fit_to"@) {
            Some(ScriptValue::Table(f)) => match (
                crate::value::number_at(f, 1),
                crate::value::number_at(f, 2),
            ) {
                (Some(x), Some(y)) => Some(Vec2 { x, y }),
                _ => None,
            },
            _ => None,
        },
        rotate: match field(t, "rotate"@) {
            Some(ScriptValue::Table(f)) => match (
                crate::value::number_at(f, 1),
                crate::value::number_at(f, 2),
                crate::value::number_at(f, 3),
            ) {
                (Some(x), Some(y), Some(a)) => Some(Rotation { angle: a, origin: Vec2 { x, y } }),
                _ => None,
            },
            _ => None,
        },
        rounding: match field(t, "rounding"@) {
            Some(v) => match v {
                ScriptValue::Number(_) => Some(rounding_of(Some(v), rounding_placeholder())),
                ScriptValue::Table(f) => match (
                    crate::value::number_at(f, 1),
                    crate::value::number_at(f, 2),
                    crate::value::number_at(f, 3),
                    crate::value::number_at(f, 4),
                ) {
                    (Some(_), Some(_), Some(_), Some(_)) => Some(
                        rounding_of(Some(v), rounding_placeholder()),
                    ),
                    _ => None,
                },
                _ => None,
            },
            None => None,
        },
        spinner: bool_named(t, "spinner"@),
    }
}

pub open spec fn rounding_placeholder() -> Rounding {
    crate::style::rounding_same(Num::spec_zero())
}

fn read_bool_opt(t: &ScriptTable, name: &str) -> (r: Option<bool>)
    ensures
        r == bool_named(*t, name@),
{
    match t.get(name) {
        Some(ScriptValue::Boolean(b)) => Some(*b),
        _ => None,
    }
}

/// Decodes image options (see `image_options_of`).
pub fn decode_image_options(t: &ScriptTable) -> (r: ImageOptions)
    ensures
        r == image_options_of(*t),
{
    let fit_to = match t.table_field("fit_to") {
        Some(f) => match (f.number(1), f.number(2)) {
            (Some(x), Some(y)) => Some(Vec2 { x, y }),
            _ => None,
        },
        None => None,
    };
    let rotate = match t.table_field("rotate") {
        Some(f) => match (f.number(1), f.number(2), f.number(3)) {
            (Some(x), Some(y), Some(a)) => Some(Rotation { angle: a, origin: Vec2 { x, y } }),
            _ => None,
        },
        None => None,
    };
    let zero = Num::zero();
    let placeholder = Rounding { nw: zero, ne: zero, sw: zero, se: zero };
    let rounding = match t.get("rounding") {
        Some(v) => match v {
            ScriptValue::Number(_) => Some(decode_rounding(v, placeholder)),
            ScriptValue::Table(f) => match (f.number(1), f.number(2), f.number(3), f.number(4)) {
                (Some(_), Some(_), Some(_), Some(_)) => Some(decode_rounding(v, placeholder)),
                _ => None,
            },
            _ => None,
        },
        None => None,
    };
    ImageOptions {
        fit_original: t.number_field("fit_original"),
        maintain_aspect_ratio: read_bool_opt(t, "maintain_aspect_ratio"),
        fit_to,
        rotate,
        rounding,
        spinner: read_bool_opt(t, "spinner"),
    }
}

} // verus!
