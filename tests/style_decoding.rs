use lulu_ui::style::{
    color_from_lua_table, decode_frame, decode_margin, decode_rounding, decode_style, FrameStyle,
    Margin, Paint, Rounding, Spacing, Stroke, Style, Vec2, Visuals, WidgetVisuals,
};
use lulu_ui::value::{Num, ScriptTable, ScriptValue, TableKey};

fn num(x: f64) -> Num {
    Num { bits: x.to_bits() }
}

fn named(entries: Vec<(&str, ScriptValue)>) -> ScriptTable {
    ScriptTable {
        entries: entries
            .into_iter()
            .map(|(k, v)| (TableKey::Name(k.to_string()), v))
            .collect(),
    }
}

fn list(xs: &[f64]) -> ScriptTable {
    ScriptTable {
        entries: xs
            .iter()
            .enumerate()
            .map(|(i, x)| (TableKey::Index(i as i64 + 1), ScriptValue::Number(num(*x))))
            .collect(),
    }
}

fn native(v: u8) -> Paint {
    Paint::Native(v, v, v, 255)
}

fn widget(v: u8) -> WidgetVisuals {
    WidgetVisuals {
        bg_fill: native(v),
        weak_bg_fill: native(v + 1),
        rounding: Rounding { nw: num(2.0), ne: num(2.0), sw: num(2.0), se: num(2.0) },
    }
}

fn base() -> Style {
    let m = Margin { left: num(6.0), right: num(6.0), top: num(4.0), bottom: num(4.0) };
    Style {
        wrap: None,
        spacing: Spacing {
            item_spacing: Vec2 { x: num(8.0), y: num(3.0) },
            button_padding: Vec2 { x: num(4.0), y: num(1.0) },
            interact_size: Vec2 { x: num(40.0), y: num(18.0) },
            menu_margin: m,
            indent: num(18.0),
            slider_width: num(100.0),
            combo_width: num(100.0),
            text_edit_width: num(280.0),
            icon_width: num(14.0),
            icon_width_inner: num(8.0),
            icon_spacing: num(4.0),
            tooltip_width: num(600.0),
            combo_height: num(200.0),
        },
        visuals: Visuals {
            dark_mode: true,
            noninteractive: widget(10),
            inactive: widget(20),
            hovered: widget(30),
            active: widget(40),
            open: widget(50),
            hyperlink_color: native(60),
            faint_bg_color: native(61),
            extreme_bg_color: native(62),
            code_bg_color: native(63),
            warn_fg_color: native(64),
            error_fg_color: native(65),
            window_rounding: Rounding { nw: num(6.0), ne: num(6.0), sw: num(6.0), se: num(6.0) },
            window_fill: native(70),
            panel_fill: native(71),
            override_text_color: None,
        },
    }
}

#[test]
fn empty_descriptor_gives_base() {
    let b = base();
    assert_eq!(decode_style(&ScriptTable::empty(), b), b);
}

#[test]
fn malformed_fill_is_ignored() {
    let b = base();
    for bad in [
        ScriptValue::Str("red".to_string()),
        ScriptValue::Number(num(3.0)),
        ScriptValue::Boolean(true),
        ScriptValue::Nil,
    ] {
        let d = named(vec![("visuals", ScriptValue::Table(named(vec![("window_fill", bad)])))]);
        assert_eq!(decode_style(&d, b), decode_style(&ScriptTable::empty(), b));
    }
    // A table without the three components is not a color either.
    let d = named(vec![(
        "visuals",
        ScriptValue::Table(named(vec![("panel_fill", ScriptValue::Table(list(&[0.5, 0.5])))])),
    )]);
    assert_eq!(decode_style(&d, b), b);
}

#[test]
fn style_attributes_are_applied() {
    let b = base();
    let d = named(vec![
        ("wrap", ScriptValue::Boolean(false)),
        (
            "spacing",
            ScriptValue::Table(named(vec![
                ("item_spacing", ScriptValue::Table(list(&[5.0]))),
                ("menu_margin", ScriptValue::Number(num(2.0))),
                ("indent", ScriptValue::Number(num(9.0))),
                ("slider_width", ScriptValue::Str("wide".to_string())),
            ])),
        ),
        (
            "visuals",
            ScriptValue::Table(named(vec![
                ("dark_mode", ScriptValue::Boolean(false)),
                ("window_fill", ScriptValue::Table(list(&[0.1, 0.2, 0.3]))),
                ("text_color", ScriptValue::Table(list(&[1.0, 0.0, 0.0, 0.5]))),
                (
                    "hovered",
                    ScriptValue::Table(named(vec![("rounding", ScriptValue::Number(num(7.0)))])),
                ),
            ])),
        ),
    ]);
    let s = decode_style(&d, b);
    assert_eq!(s.wrap, Some(false));
    assert_eq!(s.spacing.item_spacing, Vec2 { x: num(5.0), y: num(3.0) });
    assert_eq!(
        s.spacing.menu_margin,
        Margin { left: num(2.0), right: num(2.0), top: num(2.0), bottom: num(2.0) }
    );
    assert_eq!(s.spacing.indent, num(9.0));
    assert_eq!(s.spacing.slider_width, num(100.0));
    assert!(!s.visuals.dark_mode);
    assert_eq!(
        s.visuals.window_fill,
        Paint::Components { r: num(0.1), g: num(0.2), b: num(0.3), a: None }
    );
    assert_eq!(
        s.visuals.override_text_color,
        Some(Paint::Components { r: num(1.0), g: num(0.0), b: num(0.0), a: Some(num(0.5)) })
    );
    assert_eq!(s.visuals.hovered.rounding, Rounding { nw: num(7.0), ne: num(7.0), sw: num(7.0), se: num(7.0) });
    assert_eq!(s.visuals.hovered.bg_fill, b.visuals.hovered.bg_fill);
    assert_eq!(s.visuals.active, b.visuals.active);
}

#[test]
fn color_needs_three_components() {
    assert_eq!(
        color_from_lua_table(&list(&[0.25, 0.5, 0.75])),
        Some(Paint::Components { r: num(0.25), g: num(0.5), b: num(0.75), a: None })
    );
    assert_eq!(
        color_from_lua_table(&list(&[0.25, 0.5, 0.75, 0.1])),
        Some(Paint::Components { r: num(0.25), g: num(0.5), b: num(0.75), a: Some(num(0.1)) })
    );
    assert_eq!(color_from_lua_table(&list(&[0.25, 0.5])), None);
    assert_eq!(color_from_lua_table(&ScriptTable::empty()), None);
}

#[test]
fn margin_scalar_equals_broadcast_sequence() {
    let b = Margin { left: num(1.0), right: num(1.0), top: num(1.0), bottom: num(1.0) };
    let scalar = decode_margin(&ScriptValue::Number(num(3.0)), b);
    assert_eq!(decode_margin(&ScriptValue::Table(list(&[3.0, 3.0, 3.0, 3.0])), b), scalar);
    assert_eq!(decode_margin(&ScriptValue::Table(list(&[3.0, 3.0])), b), scalar);
    assert_eq!(
        decode_margin(&ScriptValue::Table(list(&[1.0, 2.0, 3.0, 4.0])), b),
        Margin { top: num(1.0), left: num(2.0), right: num(3.0), bottom: num(4.0) }
    );
    assert_eq!(
        decode_margin(&ScriptValue::Table(list(&[5.0, 6.0])), b),
        Margin { left: num(5.0), right: num(5.0), top: num(6.0), bottom: num(6.0) }
    );
    assert_eq!(decode_margin(&ScriptValue::Table(list(&[5.0])), b), b);
    assert_eq!(decode_margin(&ScriptValue::Str("x".to_string()), b), b);
}

#[test]
fn rounding_scalar_equals_broadcast_sequence() {
    let b = Rounding { nw: num(0.0), ne: num(0.0), sw: num(0.0), se: num(0.0) };
    assert_eq!(
        decode_rounding(&ScriptValue::Number(num(4.0)), b),
        decode_rounding(&ScriptValue::Table(list(&[4.0, 4.0, 4.0, 4.0])), b)
    );
    assert_eq!(
        decode_rounding(&ScriptValue::Table(list(&[1.0, 2.0, 3.0, 4.0])), b),
        Rounding { ne: num(1.0), nw: num(2.0), se: num(3.0), sw: num(4.0) }
    );
    assert_eq!(decode_rounding(&ScriptValue::Table(list(&[1.0, 2.0])), b), b);
}

#[test]
fn frame_style_defaults_stroke_width_to_one() {
    let zero = num(0.0);
    let b = FrameStyle {
        fill: Paint::Native(0, 0, 0, 0),
        stroke: Stroke { width: zero, color: Paint::Native(0, 0, 0, 0) },
        rounding: Rounding { nw: zero, ne: zero, sw: zero, se: zero },
        inner_margin: Margin { left: zero, right: zero, top: zero, bottom: zero },
        min_size: Vec2 { x: zero, y: zero },
    };
    let d = named(vec![
        ("color", ScriptValue::Table(list(&[1.0, 1.0, 1.0]))),
        ("stroke", ScriptValue::Table(list(&[0.0, 0.0, 0.0]))),
        ("padding", ScriptValue::Table(list(&[8.0, 4.0]))),
        ("min_size", ScriptValue::Table(list(&[120.0]))),
    ]);
    let f = decode_frame(&d, b);
    assert_eq!(f.fill, Paint::Components { r: num(1.0), g: num(1.0), b: num(1.0), a: None });
    assert_eq!(f.stroke.width, num(1.0));
    assert_eq!(f.inner_margin, Margin { left: num(8.0), right: num(8.0), top: num(4.0), bottom: num(4.0) });
    assert_eq!(f.min_size, Vec2 { x: num(120.0), y: zero });
    assert_eq!(f.rounding, b.rounding);

    let d = named(vec![("stroke", ScriptValue::Table(list(&[0.0, 0.0, 0.0, 1.0, 2.5])))]);
    assert_eq!(decode_frame(&d, b).stroke.width, num(2.5));
    assert_eq!(decode_frame(&ScriptTable::empty(), b), b);
}

#[test]
fn visuals_setters_replace_one_attribute() {
    let mut v = base().visuals;
    let before = v;
    v.set_window_fill(num(0.1), num(0.2), num(0.3), num(1.0));
    assert_eq!(v.window_fill, Paint::Components { r: num(0.1), g: num(0.2), b: num(0.3), a: Some(num(1.0)) });
    assert_eq!(v.panel_fill, before.panel_fill);
    v.set_text_color(num(1.0), num(1.0), num(1.0), num(1.0));
    assert!(v.override_text_color.is_some());
    assert_eq!(v.window_fill, Paint::Components { r: num(0.1), g: num(0.2), b: num(0.3), a: Some(num(1.0)) });
}
