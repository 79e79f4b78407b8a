use lulu_ui::value::{same_text, starts_with_text, Num, ScriptTable, ScriptValue, TableKey};

fn num(x: f64) -> Num {
    Num { bits: x.to_bits() }
}

fn named(entries: Vec<(&str, ScriptValue)>) -> ScriptTable {
    ScriptTable {
        entries: entries
            .into_iter()
            .map(|(k, v)| (TableKey::Name(k.to_string()), v))
            .collect(),
    }
}

#[test]
fn same_text_compares_characters() {
    assert!(same_text("fill", "fill"));
    assert!(!same_text("fill", "fills"));
    assert!(!same_text("fill", "film"));
    assert!(same_text("", ""));
}

#[test]
fn starts_with_text_checks_prefix() {
    assert!(starts_with_text("https://x.org/a.png", "https://"));
    assert!(!starts_with_text("http:/", "http://"));
    assert!(starts_with_text("abc", ""));
}

#[test]
fn table_lookup_takes_first_entry_with_key() {
    let t = named(vec![
        ("x", ScriptValue::Number(num(1.0))),
        ("x", ScriptValue::Number(num(2.0))),
        ("flag", ScriptValue::Boolean(true)),
    ]);
    assert_eq!(t.position_of("x"), Some(0));
    assert_eq!(t.position_of("flag"), Some(2));
    assert_eq!(t.position_of("missing"), None);
    assert_eq!(t.number_field("x"), Some(num(1.0)));
    assert_eq!(t.number_field("flag"), None);
}

#[test]
fn table_index_lookup() {
    let t = ScriptTable {
        entries: vec![
            (TableKey::Index(2), ScriptValue::Number(num(0.5))),
            (TableKey::Index(1), ScriptValue::Str("a".to_string())),
        ],
    };
    assert_eq!(t.number(2), Some(num(0.5)));
    assert_eq!(t.number(1), None);
    assert_eq!(t.number(3), None);
    assert_eq!(Num::one(), num(1.0));
    assert_eq!(Num::zero(), num(0.0));
}
