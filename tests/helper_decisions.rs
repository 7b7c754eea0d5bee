use profile_filter::helper::{
    array_contains, contains, json_eq, pick_block, Branch, HelperError, JsonNumber, JsonValue,
};

fn text(s: &str) -> JsonValue {
    JsonValue::String(s.to_string())
}

fn texts(values: &[&str]) -> JsonValue {
    JsonValue::Array(values.iter().map(|s| text(s)).collect())
}

#[test]
fn contains_renders_inner_block_when_present() {
    let checked = texts(&["tech", "finance"]);
    let branch = contains(Some(&checked), Some(&text("tech"))).unwrap();
    assert_eq!(branch, Branch::Positive);
    assert_eq!(pick_block(branch, Some("x"), None), Some("x"));
}

#[test]
fn contains_renders_else_block_when_absent() {
    let checked = texts(&[]);
    let branch = contains(Some(&checked), Some(&text("tech"))).unwrap();
    assert_eq!(branch, Branch::Inverse);
    assert_eq!(pick_block(branch, Some("x"), Some("y")), Some("y"));
}

#[test]
fn missing_block_renders_nothing() {
    let checked = texts(&["finance"]);
    let branch = contains(Some(&checked), Some(&text("tech"))).unwrap();
    assert_eq!(pick_block(branch, Some("x"), None), None);
}

#[test]
fn contains_validation_errors() {
    let arr = texts(&["a"]);
    assert_eq!(contains(None, Some(&text("a"))), Err(HelperError::NoArray));
    assert_eq!(contains(None, None), Err(HelperError::NoArray));
    assert_eq!(contains(Some(&arr), None), Err(HelperError::NoNeedle));
    assert_eq!(contains(Some(&text("a")), Some(&text("a"))), Err(HelperError::NotAnArray));
    assert_eq!(contains(Some(&JsonValue::Null), None), Err(HelperError::NotAnArray));
}

#[test]
fn helper_error_messages() {
    assert_eq!(HelperError::NoArray.message(), "No array given");
    assert_eq!(HelperError::NoNeedle.message(), "No needle given");
    assert_eq!(HelperError::NotAnArray.message(), "First param should be an array");
}

#[test]
fn equality_is_structural() {
    let a = JsonValue::Array(vec![
        JsonValue::Number(JsonNumber::PosInt(1)),
        JsonValue::Bool(true),
        JsonValue::Null,
        JsonValue::Object(vec![("k".to_string(), text("v"))]),
    ]);
    let b = JsonValue::Array(vec![
        JsonValue::Number(JsonNumber::PosInt(1)),
        JsonValue::Bool(true),
        JsonValue::Null,
        JsonValue::Object(vec![("k".to_string(), text("v"))]),
    ]);
    let c = JsonValue::Array(vec![
        JsonValue::Number(JsonNumber::PosInt(1)),
        JsonValue::Bool(true),
        JsonValue::Null,
        JsonValue::Object(vec![("k".to_string(), text("w"))]),
    ]);
    assert!(json_eq(&a, &b));
    assert!(!json_eq(&a, &c));
    assert!(!json_eq(&JsonValue::Number(JsonNumber::PosInt(1)), &JsonValue::Number(JsonNumber::NegInt(-1))));
    assert!(!json_eq(&text("1"), &JsonValue::Number(JsonNumber::PosInt(1))));
    assert!(!json_eq(&texts(&["a"]), &texts(&["a", "a"])));
}

#[test]
fn contains_compares_compound_values() {
    let haystack = JsonValue::Array(vec![texts(&["a", "b"]), JsonValue::Null]);
    assert!(array_contains(
        match &haystack {
            JsonValue::Array(xs) => xs,
            _ => unreachable!(),
        },
        &texts(&["a", "b"])
    ));
    assert_eq!(contains(Some(&haystack), Some(&JsonValue::Null)), Ok(Branch::Positive));
    assert_eq!(contains(Some(&haystack), Some(&texts(&["b", "a"]))), Ok(Branch::Inverse));
    assert_eq!(contains(Some(&haystack), Some(&JsonValue::Bool(false))), Ok(Branch::Inverse));
}
