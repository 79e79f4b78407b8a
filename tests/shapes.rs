use lulu_ui::shape::{
    decode_image_options, from_lua_table, resolve_image_source, shapes_from_lua_tables,
    ImageSource, LuaShape, Rotation, ShapeDesc,
};
use lulu_ui::style::{Paint, Rounding, Stroke, Vec2};
use lulu_ui::value::{Num, ScriptTable, ScriptValue, TableKey};

fn num(x: f64) -> Num {
    Num { bits: x.to_bits() }
}

fn named(entries: Vec<(&str, ScriptValue)>) -> ScriptTable {
    ScriptTable {
        entries: entries
            .into_iter()
            .map(|(k, v)| (TableKey::Name(k.to_string()), v))
            .collect(),
    }
}

fn list(xs: &[f64]) -> ScriptTable {
    ScriptTable {
        entries: xs
            .iter()
            .enumerate()
            .map(|(i, x)| (TableKey::Index(i as i64 + 1), ScriptValue::Number(num(*x))))
            .collect(),
    }
}

fn text(s: &str) -> ScriptValue {
    ScriptValue::Str(s.to_string())
}

fn n(x: f64) -> ScriptValue {
    ScriptValue::Number(num(x))
}

fn stroke_table(w: Option<f64>) -> ScriptValue {
    let mut t = list(&[0.0, 0.0, 1.0]);
    if let Some(w) = w {
        t.entries.push((TableKey::Name("width".to_string()), n(w)));
    }
    ScriptValue::Table(t)
}

fn rect(fill: ScriptValue, stroke: ScriptValue) -> ScriptTable {
    named(vec![
        ("type", text("rect")),
        ("x", n(1.0)),
        ("y", n(2.0)),
        ("w", n(30.0)),
        ("h", n(40.0)),
        ("fill", fill),
        ("stroke", stroke),
    ])
}

#[test]
fn rect_shape_decodes() {
    let t = rect(ScriptValue::Table(list(&[1.0, 0.0, 0.0])), stroke_table(Some(2.0)));
    assert_eq!(
        from_lua_table(&t),
        Some(ShapeDesc::Rect {
            x: num(1.0),
            y: num(2.0),
            w: num(30.0),
            h: num(40.0),
            fill: Paint::Components { r: num(1.0), g: num(0.0), b: num(0.0), a: None },
            stroke: Stroke {
                width: num(2.0),
                color: Paint::Components { r: num(0.0), g: num(0.0), b: num(1.0), a: None },
            },
        })
    );
}

#[test]
fn shape_with_bad_fill_or_stroke_is_none() {
    assert_eq!(from_lua_table(&rect(text("red"), stroke_table(Some(2.0)))), None);
    assert_eq!(from_lua_table(&rect(ScriptValue::Table(list(&[1.0, 0.0])), stroke_table(Some(2.0)))), None);
    assert_eq!(from_lua_table(&rect(ScriptValue::Table(list(&[1.0, 0.0, 0.0])), stroke_table(None))), None);
}

#[test]
fn circle_and_line_shapes_decode() {
    let c = named(vec![
        ("type", text("circle")),
        ("x", n(5.0)),
        ("y", n(6.0)),
        ("radius", n(3.0)),
        ("fill", ScriptValue::Table(list(&[0.0, 1.0, 0.0, 0.5]))),
        ("stroke", stroke_table(Some(1.0))),
    ]);
    assert!(matches!(from_lua_table(&c), Some(ShapeDesc::Circle { radius, .. }) if radius == num(3.0)));
    let l = named(vec![
        ("type", text("line")),
        ("x1", n(0.0)),
        ("y1", n(0.0)),
        ("x2", n(10.0)),
        ("y2", n(10.0)),
        ("color", ScriptValue::Table(list(&[1.0, 1.0, 1.0]))),
        ("width", n(4.0)),
    ]);
    assert_eq!(
        from_lua_table(&l),
        Some(ShapeDesc::Line {
            x1: num(0.0),
            y1: num(0.0),
            x2: num(10.0),
            y2: num(10.0),
            stroke: Stroke {
                width: num(4.0),
                color: Paint::Components { r: num(1.0), g: num(1.0), b: num(1.0), a: None },
            },
        })
    );
}

#[test]
fn unknown_or_missing_type_gives_no_shape() {
    assert_eq!(from_lua_table(&named(vec![("type", text("polygon"))])), None);
    assert_eq!(from_lua_table(&named(vec![("type", n(1.0))])), None);
    assert_eq!(from_lua_table(&ScriptTable::empty()), None);
}

#[test]
fn shape_lists_keep_valid_entries_in_order() {
    let good = rect(ScriptValue::Table(list(&[1.0, 0.0, 0.0])), stroke_table(Some(2.0)));
    let bad = rect(text("red"), stroke_table(Some(2.0)));
    let again = rect(ScriptValue::Table(list(&[1.0, 0.0, 0.0])), stroke_table(Some(2.0)));
    let shapes = shapes_from_lua_tables(&vec![
        ScriptValue::Table(good),
        ScriptValue::Table(bad),
        text("rect"),
        ScriptValue::Table(again),
    ]);
    assert_eq!(shapes.len(), 2);
    let held = LuaShape { shape: shapes[0] };
    assert_eq!(held.shape, shapes[1]);
}

#[test]
fn image_sources_resolve() {
    assert!(matches!(resolve_image_source(&ScriptValue::Bytes(vec![1, 2, 3])), ImageSource::Bytes));
    assert!(matches!(resolve_image_source(&text("https://e.org/a.png")), ImageSource::Uri(u) if u == "https://e.org/a.png"));
    assert!(matches!(resolve_image_source(&text("http://e.org/a.png")), ImageSource::Uri(_)));
    assert!(matches!(resolve_image_source(&text("assets/a.png")), ImageSource::File(p) if p == "assets/a.png"));
    assert!(matches!(resolve_image_source(&text("http:/broken")), ImageSource::File(_)));
    assert!(matches!(resolve_image_source(&n(1.0)), ImageSource::Fallback));
    assert!(matches!(resolve_image_source(&ScriptValue::Opaque), ImageSource::Fallback));
}

#[test]
fn image_options_decode() {
    let t = named(vec![
        ("fit_original", n(2.0)),
        ("maintain_aspect_ratio", ScriptValue::Boolean(false)),
        ("fit_to", ScriptValue::Table(list(&[64.0, 32.0]))),
        ("rotate", ScriptValue::Table(list(&[8.0, 9.0, 0.5]))),
        ("rounding", n(3.0)),
        ("spinner", text("yes")),
    ]);
    let o = decode_image_options(&t);
    assert_eq!(o.fit_original, Some(num(2.0)));
    assert_eq!(o.maintain_aspect_ratio, Some(false));
    assert_eq!(o.fit_to, Some(Vec2 { x: num(64.0), y: num(32.0) }));
    assert_eq!(o.rotate, Some(Rotation { angle: num(0.5), origin: Vec2 { x: num(8.0), y: num(9.0) } }));
    assert_eq!(o.rounding, Some(Rounding { nw: num(3.0), ne: num(3.0), sw: num(3.0), se: num(3.0) }));
    assert_eq!(o.spinner, None);

    let t = named(vec![
        ("fit_to", ScriptValue::Table(list(&[64.0]))),
        ("rounding", ScriptValue::Table(list(&[1.0, 2.0]))),
    ]);
    let o = decode_image_options(&t);
    assert_eq!(o.fit_to, None);
    assert_eq!(o.rounding, None);
}
