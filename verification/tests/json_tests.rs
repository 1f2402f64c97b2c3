use zed_extension_api::serde_json::Number;
use zed_mojo::json::{get_entry, insert_entry, position_of, remove_entry, JsonValue};

fn entries(items: &[(&str, u64)]) -> Vec<(String, JsonValue)> {
    items
        .iter()
        .map(|(k, n)| (k.to_string(), JsonValue::Unsigned(*n)))
        .collect()
}

#[test]
fn insert_replaces_first_entry_in_place() {
    let mut e = entries(&[("a", 1), ("b", 2), ("a", 3)]);
    insert_entry(&mut e, "a", JsonValue::Bool(true));
    assert_eq!(
        e,
        vec![
            ("a".to_string(), JsonValue::Bool(true)),
            ("b".to_string(), JsonValue::Unsigned(2)),
            ("a".to_string(), JsonValue::Unsigned(3)),
        ]
    );
}

#[test]
fn insert_appends_new_key() {
    let mut e = entries(&[("a", 1)]);
    insert_entry(&mut e, "z", JsonValue::Null);
    assert_eq!(e.len(), 2);
    assert_eq!(e[1], ("z".to_string(), JsonValue::Null));
}

#[test]
fn remove_drops_every_entry_for_key() {
    let mut e = entries(&[("a", 1), ("b", 2), ("a", 3), ("c", 4)]);
    remove_entry(&mut e, "a");
    assert_eq!(e, entries(&[("b", 2), ("c", 4)]));
    remove_entry(&mut e, "missing");
    assert_eq!(e, entries(&[("b", 2), ("c", 4)]));
}

#[test]
fn lookups_use_first_entry() {
    let e = entries(&[("a", 1), ("b", 2), ("b", 3)]);
    assert_eq!(position_of(&e, "b"), Some(1));
    assert_eq!(position_of(&e, "x"), None);
    assert_eq!(get_entry(&e, "b"), Some(&JsonValue::Unsigned(2)));
    let v = JsonValue::Object(e);
    assert_eq!(v.get("a"), Some(&JsonValue::Unsigned(1)));
    assert_eq!(JsonValue::Str("a".to_string()).get("a"), None);
    assert_eq!(JsonValue::Str("a".to_string()).as_str(), Some(&"a".to_string()));
    assert_eq!(JsonValue::Null.as_str(), None);
}

#[test]
fn deep_clone_copies_nested_values() {
    let v = JsonValue::Object(vec![(
        "k".to_string(),
        JsonValue::Array(vec![JsonValue::Str("x".to_string()), JsonValue::Null]),
    )]);
    assert_eq!(v.deep_clone(), v);
}

#[test]
fn first_entry_for_a_key_is_written() {
    let v = JsonValue::Object(vec![
        ("b".to_string(), JsonValue::Bool(true)),
        ("a".to_string(), JsonValue::Null),
        ("b".to_string(), JsonValue::Bool(false)),
    ]);
    assert_eq!(v.to_text(), "{\"a\":null,\"b\":true}");
    assert_eq!(v.get("b"), Some(&JsonValue::Bool(true)));
}

#[test]
fn first_keys_only_in_nested_objects() {
    let v = JsonValue::Array(vec![JsonValue::Object(vec![
        ("k".to_string(), JsonValue::Unsigned(1)),
        (
            "o".to_string(),
            JsonValue::Object(vec![
                ("x".to_string(), JsonValue::Null),
                ("x".to_string(), JsonValue::Bool(true)),
            ]),
        ),
        ("k".to_string(), JsonValue::Unsigned(2)),
    ])]);
    let expected = JsonValue::Array(vec![JsonValue::Object(vec![
        ("k".to_string(), JsonValue::Unsigned(1)),
        ("o".to_string(), JsonValue::Object(vec![("x".to_string(), JsonValue::Null)])),
    ])]);
    assert_eq!(v.first_keys_only(), expected);
    assert_eq!(v.to_text(), "[{\"k\":1,\"o\":{\"x\":null}}]");
}

#[test]
fn numbers_are_written_as_read() {
    let v = JsonValue::from_text("{\"x\":0.1,\"y\":-7,\"w\":18446744073709551615}").unwrap();
    assert_eq!(v.get("x"), Some(&JsonValue::Number(Number::from_f64(0.1).unwrap())));
    assert_eq!(v.get("y"), Some(&JsonValue::Number(Number::from(-7i64))));
    assert_eq!(v.to_text(), "{\"w\":18446744073709551615,\"x\":0.1,\"y\":-7}");
    assert_eq!(JsonValue::Unsigned(300).to_text(), "300");
    assert_eq!(JsonValue::Array(vec![JsonValue::Unsigned(0), JsonValue::Str("a\"b".to_string())]).to_text(), "[0,\"a\\\"b\"]");
}
