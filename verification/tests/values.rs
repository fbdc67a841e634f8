use sensor_models::config::{AttributeError, ComponentConfig, Dependency};
use sensor_models::record::Record;
use sensor_models::value::{Number, Value};

#[test]
fn null_value_is_null() {
    let v = Value::null();
    assert!(v.is_null());
    assert_eq!(v, Value::Null);
    assert_eq!(v.as_bool(), None);
    assert_eq!(v.as_number(), None);
    assert_eq!(v.as_text(), None);
}

#[test]
fn bool_value_keeps_its_truth() {
    assert_eq!(Value::from_bool(true).as_bool(), Some(true));
    assert_eq!(Value::from_bool(false).as_bool(), Some(false));
    assert!(!Value::from_bool(false).is_null());
    assert_eq!(Value::from_bool(true).as_number(), None);
    assert_eq!(Value::from_bool(true).as_text(), None);
}

#[test]
fn integer_value_is_exact() {
    let big = u64::MAX as i128;
    assert_eq!(Value::from_integer(big).as_number(), Some(Number::Integer(18446744073709551615)));
    assert_eq!(Value::from_integer(-7).as_number(), Some(Number::Integer(-7)));
    assert_eq!(Value::from_integer(1).as_bool(), None);
}

#[test]
fn double_value_keeps_its_bits() {
    let x: f64 = -12.625;
    let v = Value::from_number(Number::Double(x.to_bits()));
    match v.as_number() {
        Some(Number::Double(bits)) => assert_eq!(f64::from_bits(bits), -12.625),
        other => panic!("not a double: {:?}", other),
    }
}

#[test]
fn integer_and_double_do_not_coerce() {
    let one: f64 = 1.0;
    assert_ne!(Value::from_integer(1), Value::from_number(Number::Double(one.to_bits())));
    assert_ne!(Value::from_integer(0), Value::from_bool(false));
    assert_ne!(Value::from_text(""), Value::null());
}

#[test]
fn text_value_keeps_its_text() {
    let v = Value::from_text("héllo");
    assert_eq!(v.as_text(), Some("héllo"));
    assert_eq!(v, Value::Text("héllo".to_string()));
    assert_eq!(v.as_bool(), None);
}

#[test]
fn cloned_value_equals_the_first() {
    for v in vec![
        Value::null(),
        Value::from_bool(true),
        Value::from_integer(42),
        Value::from_number(Number::Double(7)),
        Value::from_text("abc"),
    ] {
        assert_eq!(v.clone(), v);
    }
}

#[test]
fn new_record_is_empty() {
    let r = Record::new();
    assert_eq!(r.len(), 0);
    assert!(r.is_empty());
    assert!(!r.contains_key("a"));
    assert_eq!(r.get("a"), None);
}

#[test]
fn record_keeps_insertion_order() {
    let mut r = Record::new();
    r.insert("zeta", Value::from_integer(1));
    r.insert("alpha", Value::from_integer(2));
    r.insert("mid", Value::from_bool(true));
    assert_eq!(r.len(), 3);
    assert!(!r.is_empty());
    assert_eq!(r.key_at(0), "zeta");
    assert_eq!(r.key_at(1), "alpha");
    assert_eq!(r.key_at(2), "mid");
    assert_eq!(r.value_at(0), &Value::from_integer(1));
    assert_eq!(r.value_at(1), &Value::from_integer(2));
    assert_eq!(r.value_at(2), &Value::from_bool(true));
}

#[test]
fn record_lookup_is_by_key() {
    let mut r = Record::new();
    r.insert("a", Value::from_text("x"));
    r.insert("b", Value::null());
    assert_eq!(r.get("a"), Some(&Value::from_text("x")));
    assert_eq!(r.get("b"), Some(&Value::Null));
    assert_eq!(r.get("c"), None);
    assert_eq!(r.get("A"), None);
    assert!(r.contains_key("b"));
    assert!(!r.contains_key(""));
}

#[test]
fn record_key_inserted_again_keeps_its_place() {
    let mut r = Record::new();
    r.insert("a", Value::from_integer(1));
    r.insert("b", Value::from_integer(2));
    r.insert("a", Value::from_integer(3));
    assert_eq!(r.len(), 2);
    assert_eq!(r.key_at(0), "a");
    assert_eq!(r.key_at(1), "b");
    assert_eq!(r.get("a"), Some(&Value::from_integer(3)));
    assert_eq!(r.get("b"), Some(&Value::from_integer(2)));
}

#[test]
fn records_compare_by_entries_in_order() {
    let mut r1 = Record::new();
    r1.insert("a", Value::from_integer(1));
    r1.insert("b", Value::from_integer(2));
    let mut r2 = Record::new();
    r2.insert("a", Value::from_integer(1));
    r2.insert("b", Value::from_integer(2));
    let mut r3 = Record::new();
    r3.insert("b", Value::from_integer(2));
    r3.insert("a", Value::from_integer(1));
    assert_eq!(r1, r2);
    assert_ne!(r1, r3);
}

fn config_with(name: &str, value: Value) -> ComponentConfig {
    let mut attributes = Record::new();
    attributes.insert(name, value);
    ComponentConfig::from_attributes(attributes)
}

#[test]
fn attribute_that_is_absent_is_not_found() {
    assert_eq!(ComponentConfig::new().get_attribute_i32("len"), Err(AttributeError::KeyNotFound));
    assert_eq!(
        config_with("length", Value::from_integer(3)).get_attribute_i32("len"),
        Err(AttributeError::KeyNotFound)
    );
}

#[test]
fn attribute_that_is_a_whole_number_is_read() {
    assert_eq!(config_with("len", Value::from_integer(3)).get_attribute_i32("len"), Ok(3));
    assert_eq!(config_with("len", Value::from_integer(-5)).get_attribute_i32("len"), Ok(-5));
    assert_eq!(
        config_with("len", Value::from_integer(2147483647)).get_attribute_i32("len"),
        Ok(i32::MAX)
    );
    assert_eq!(
        config_with("len", Value::from_integer(-2147483648)).get_attribute_i32("len"),
        Ok(i32::MIN)
    );
}

#[test]
fn attribute_of_another_type_cannot_be_converted() {
    let half: f64 = 0.5;
    for v in vec![
        Value::null(),
        Value::from_bool(true),
        Value::from_text("12"),
        Value::from_number(Number::Double(half.to_bits())),
        Value::from_integer(2147483648),
        Value::from_integer(-2147483649),
    ] {
        assert_eq!(
            config_with("len", v).get_attribute_i32("len"),
            Err(AttributeError::ConversionImpossible)
        );
    }
}

#[test]
fn dependency_is_known_by_its_name() {
    let d = Dependency::new("board");
    assert_eq!(d.name(), "board");
    assert_eq!(d, Dependency::new("board"));
    assert_ne!(d, Dependency::new("motor"));
}
