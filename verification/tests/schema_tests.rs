use osphor::errors::AppError;
use osphor::schema::coerce_default;
use osphor::schema::load_data;
use osphor::schema::RawDefault;
use serde_json::Value;

#[test]
fn load_data_basic_int_field() {
    let script = r#"return { players = { { name = "level", type = "int", default = 1 } } }"#;
    let catalog = load_data(script).unwrap();
    assert_eq!(catalog.len(), 1);
    assert_eq!(catalog[0].0, "level");
    assert_eq!(catalog[0].1, Value::from(1i64));
}

#[test]
fn load_data_all_field_types() {
    let script = r#"return { players = {
        { name = "hp", type = "int", default = 10 },
        { name = "xp", type = "bigint", default = 5000000000 },
        { name = "speed", type = "float", default = 2.5 },
        { name = "mass", type = "real", default = 0.125 },
        { name = "motto", type = "string", default = "hi" },
        { name = "premium", type = "boolean", default = true },
    } }"#;
    let catalog = load_data(script).unwrap();
    assert_eq!(catalog.len(), 6);
    assert_eq!(catalog[0].1, Value::from(10i64));
    assert_eq!(catalog[1].1, Value::from(5000000000i64));
    assert_eq!(catalog[2].1, Value::from(2.5f64));
    assert_eq!(catalog[3].1, Value::from(0.125f64));
    assert_eq!(catalog[4].1, Value::from("hi"));
    assert_eq!(catalog[5].1, Value::from(true));
}

#[test]
fn load_data_missing_defaults_take_zero_values() {
    let script = r#"return { players = {
        { name = "hp", type = "int" },
        { name = "motto", type = "string" },
        { name = "premium", type = "boolean" },
        { name = "speed", type = "float" },
    } }"#;
    let catalog = load_data(script).unwrap();
    assert_eq!(catalog[0].1, Value::from(0i64));
    assert_eq!(catalog[1].1, Value::from(""));
    assert_eq!(catalog[2].1, Value::from(false));
    assert_eq!(catalog[3].1, Value::from(0.0f64));
}

#[test]
fn load_data_unknown_type_yields_null() {
    let script = r#"return { players = { { name = "odd", type = "quux", default = 3 } } }"#;
    let catalog = load_data(script).unwrap();
    assert_eq!(catalog[0].1, Value::Null);
}

#[test]
fn load_data_no_players_table_is_empty() {
    let script = "return { }";
    let catalog = load_data(script).unwrap();
    assert!(catalog.is_empty());
}

#[test]
fn load_data_malformed_script_is_schema_error() {
    assert_eq!(load_data("return  = nonsense ((").unwrap_err(), AppError::Schema);
}

#[test]
fn load_data_descriptor_without_name_is_schema_error() {
    let script = r#"return { players = { { type = "int", default = 1 } } }"#;
    assert_eq!(load_data(script).unwrap_err(), AppError::Schema);
}

#[test]
fn coerce_int_out_of_range_falls_back_to_zero() {
    let v = coerce_default("int", RawDefault::Int(3000000000));
    assert_eq!(v, Value::from(0i64));
    let w = coerce_default("int", RawDefault::Int(-3000000000));
    assert_eq!(w, Value::from(0i64));
}

#[test]
fn coerce_wrong_kind_falls_back_to_type_zero() {
    assert_eq!(coerce_default("int", RawDefault::Text("7".to_string())), Value::from(0i64));
    assert_eq!(coerce_default("string", RawDefault::Int(7)), Value::from(""));
    assert_eq!(coerce_default("boolean", RawDefault::Absent), Value::from(false));
    assert_eq!(coerce_default("nosuch", RawDefault::Int(7)), Value::Null);
}
