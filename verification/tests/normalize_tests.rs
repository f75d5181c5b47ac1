use osphor::normalize::normalize_data;
use serde_json::Value;

fn entry(name: &str, v: Value) -> (String, Value) {
    (name.to_string(), v)
}

#[test]
fn normalize_drops_unknown_keys() {
    let catalog = vec![entry("level", Value::from(1i64))];
    let submitted = vec![entry("is_admin", Value::from(true)), entry("level", Value::from(7i64))];
    let r = normalize_data(&submitted, &catalog);
    assert_eq!(r.len(), 1);
    assert_eq!(r[0].0, "level");
    assert_eq!(r[0].1, Value::from(7i64));
}

#[test]
fn normalize_fills_missing_with_defaults() {
    let catalog = vec![
        entry("level", Value::from(1i64)),
        entry("motto", Value::from("hello")),
        entry("premium", Value::from(false)),
    ];
    let submitted = vec![entry("motto", Value::from("hi"))];
    let r = normalize_data(&submitted, &catalog);
    assert_eq!(r.len(), 3);
    assert_eq!(r[0], entry("level", Value::from(1i64)));
    assert_eq!(r[1], entry("motto", Value::from("hi")));
    assert_eq!(r[2], entry("premium", Value::from(false)));
}

#[test]
fn normalize_empty_submission_takes_all_defaults() {
    let catalog = vec![entry("level", Value::from(1i64))];
    let submitted: Vec<(String, Value)> = Vec::new();
    let r = normalize_data(&submitted, &catalog);
    assert_eq!(r, vec![entry("level", Value::from(1i64))]);
}

#[test]
fn normalize_empty_catalog_drops_everything() {
    let catalog: Vec<(String, Value)> = Vec::new();
    let submitted = vec![entry("anything", Value::from(3i64))];
    let r = normalize_data(&submitted, &catalog);
    assert!(r.is_empty());
}

#[test]
fn normalize_keeps_catalog_order() {
    let catalog = vec![
        entry("b", Value::from(2i64)),
        entry("a", Value::from(1i64)),
    ];
    let submitted = vec![entry("a", Value::from(10i64)), entry("b", Value::from(20i64))];
    let r = normalize_data(&submitted, &catalog);
    assert_eq!(r[0], entry("b", Value::from(20i64)));
    assert_eq!(r[1], entry("a", Value::from(10i64)));
}

#[test]
fn normalize_repeated_submitted_key_takes_last() {
    let catalog = vec![entry("level", Value::from(0i64))];
    let submitted = vec![entry("level", Value::from(1i64)), entry("level", Value::from(2i64))];
    let r = normalize_data(&submitted, &catalog);
    assert_eq!(r, vec![entry("level", Value::from(2i64))]);
}
