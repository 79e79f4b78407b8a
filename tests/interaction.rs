use lulu_ui::response::{selected_label, InteractionFlags, InteractionResult, Motion, ResultField, UpdatedValue};
use lulu_ui::style::Vec2;
use lulu_ui::value::Num;

fn num(x: f64) -> Num {
    Num { bits: x.to_bits() }
}

fn flags(changed: bool, clicked: bool) -> InteractionFlags {
    InteractionFlags {
        clicked,
        middle_clicked: false,
        double_clicked: false,
        triple_clicked: false,
        clicked_elsewhere: false,
        lost_focus: false,
        gained_focus: false,
        has_focus: true,
        hovered: false,
        changed,
        highlighted: false,
        contains_pointer: false,
        long_touched: false,
        drag_started: false,
        drag_stopped: false,
        dragged: false,
        is_pointer_button_down_on: false,
    }
}

fn still() -> Motion {
    Motion { drag_delta: Vec2 { x: num(0.0), y: num(0.0) }, pointer_pos: None }
}

fn text_of(r: &InteractionResult) -> Option<String> {
    match &r.value {
        Some(UpdatedValue::Text(t)) => Some(t.clone()),
        _ => None,
    }
}

#[test]
fn text_edit_round_trip() {
    let edited = InteractionResult::wrap(flags(false, false), still(), None)
        .with_edited_text("Initial Text", "Initial Text!".to_string());
    assert!(edited.changed());
    assert_eq!(text_of(&edited), Some("Initial Text!".to_string()));

    let untouched = InteractionResult::wrap(flags(true, false), still(), None)
        .with_edited_text("Initial Text", "Initial Text".to_string());
    assert!(!untouched.changed());
    assert_eq!(text_of(&untouched), Some("Initial Text".to_string()));
}

#[test]
fn changed_follows_flags_without_override() {
    let r = InteractionResult::wrap(flags(true, false), still(), Some(UpdatedValue::Flag(true)));
    assert!(r.changed());
    let r = InteractionResult::wrap(flags(false, false), still(), Some(UpdatedValue::Number(num(50.0))));
    assert!(!r.changed());
}

#[test]
fn selection_override_takes_precedence() {
    let r = InteractionResult::wrap(flags(false, true), still(), None).with_selection("a", "b".to_string());
    assert!(r.changed());
    assert!(matches!(&r.value, Some(UpdatedValue::Selection(k)) if k == "b"));
    let same = InteractionResult::wrap(flags(false, true), still(), None).with_selection("a", "a".to_string());
    assert!(!same.changed());
    assert!(same.value.is_none());
}

#[test]
fn result_fields_are_readable_by_name() {
    let m = Motion { drag_delta: Vec2 { x: num(3.0), y: num(-1.0) }, pointer_pos: Some(Vec2 { x: num(10.0), y: num(20.0) }) };
    let r = InteractionResult::wrap(flags(false, true), m, Some(UpdatedValue::Flag(true)))
        .with_edited_text("a", "b".to_string());
    assert!(matches!(r.field("clicked"), Some(ResultField::Flag(true))));
    assert!(matches!(r.field("hovered"), Some(ResultField::Flag(false))));
    assert!(matches!(r.field("has_focus"), Some(ResultField::Flag(true))));
    assert!(matches!(r.field("changed"), Some(ResultField::Flag(true))));
    assert!(matches!(r.field("value"), Some(ResultField::Value(Some(UpdatedValue::Text(t)))) if t == "b"));
    assert!(matches!(r.field("drag_delta"), Some(ResultField::Pair(v)) if v == Vec2 { x: num(3.0), y: num(-1.0) }));
    assert!(matches!(r.field("interact_pointer_pos"), Some(ResultField::MaybePair(Some(_)))));
    assert!(r.field("color").is_none());
}

#[test]
fn selected_label_looks_up_value() {
    let entries = vec![
        ("a".to_string(), "Apple".to_string()),
        ("b".to_string(), "Banana".to_string()),
    ];
    assert_eq!(selected_label(&entries, "b"), "Banana");
    assert_eq!(selected_label(&entries, "z"), "z");
}

#[test]
fn updated_value_duplicates() {
    let v = UpdatedValue::Color(1, 2, 3, 4);
    assert!(matches!(v.duplicate(), UpdatedValue::Color(1, 2, 3, 4)));
}

#[test]
fn host_response_flags_are_read() {
    let ctx = egui::Context::default();
    let mut seen: Option<InteractionResult> = None;
    let _ = ctx.run(egui::RawInput::default(), |ctx| {
        egui::CentralPanel::default().show(ctx, |ui| {
            let res = ui.button("press");
            seen = Some(InteractionResult::from_response(&res, still(), Some(UpdatedValue::Flag(true))));
        });
    });
    let r = seen.expect("the panel ran");
    assert!(!r.flags.clicked);
    assert!(!r.flags.dragged);
    assert!(!r.changed());
    assert!(matches!(r.value, Some(UpdatedValue::Flag(true))));
    assert!(r.changed_override.is_none());
}

#[test]
fn toggles_and_numbers_change_exactly_when_value_differs() {
    let r = InteractionResult::wrap(flags(false, true), still(), None).with_new_flag(false, true);
    assert!(r.changed());
    assert!(matches!(r.value, Some(UpdatedValue::Flag(true))));
    let r = InteractionResult::wrap(flags(true, true), still(), None).with_new_flag(true, true);
    assert!(!r.changed());

    let r = InteractionResult::wrap(flags(false, false), still(), None).with_new_number(num(50.0), num(100.0));
    assert!(r.changed());
    assert!(matches!(r.value, Some(UpdatedValue::Number(n)) if n == num(100.0)));
    let r = InteractionResult::wrap(flags(true, false), still(), None).with_new_number(num(50.0), num(50.0));
    assert!(!r.changed());
}
