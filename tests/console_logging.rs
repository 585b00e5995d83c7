use vmicore::console_logger::new_console_logger_builder;
use vmicore::logging::{add_field_i64, add_field_str, Level};
use vmicore::schema::{FieldValue, LogField};

fn str_field(name: &str, value: &str) -> LogField {
    LogField { name: name.to_string(), field: Some(FieldValue::Str(value.to_string())) }
}

fn names(fields: &[LogField]) -> Vec<String> {
    fields.iter().map(|f| f.name.clone()).collect()
}

fn str_value(field: &LogField) -> String {
    match &field.field {
        Some(FieldValue::Str(s)) => s.clone(),
        _ => panic!("not a string field"),
    }
}

#[test]
fn console_named_logger_adds_its_name_after_call_fields() {
    let builder = new_console_logger_builder();
    let logger = builder.new_named_logger("X");
    let mut fields = Vec::new();
    add_field_str(&mut fields, "logger", "call-site");
    add_field_i64(&mut fields, "n", 3);
    let record = logger.log(Level::Info, "hello", fields).expect("info passes the default threshold");
    assert_eq!(record.level, Level::Info);
    assert_eq!(record.message, "hello");
    assert_eq!(names(&record.fields), vec!["logger", "n", "logger"]);
    assert_eq!(str_value(&record.fields[0]), "call-site");
    assert_eq!(str_value(&record.fields[2]), "X");
}

#[test]
fn console_logger_drops_records_below_threshold() {
    let mut builder = new_console_logger_builder();
    let logger = builder.new_logger();
    assert!(logger.log(Level::Debug, "skip", Vec::new()).is_none());
    assert!(logger.log_no_base_fields(Level::Debug, "skip", Vec::new()).is_none());
    builder.set_log_level(Level::Error);
    let strict = builder.new_logger();
    assert!(strict.log(Level::Warn, "skip", Vec::new()).is_none());
    assert!(strict.log(Level::Error, "kept", Vec::new()).is_some());
    builder.set_log_level(Level::Debug);
    let lax = builder.new_logger();
    assert!(lax.log(Level::Debug, "kept", Vec::new()).is_some());
}

#[test]
fn console_binding_twice_equals_binding_the_concatenation() {
    let builder = new_console_logger_builder();
    let mut twice = builder.new_logger();
    twice.bind(vec![str_field("a", "1")]);
    twice.bind(vec![str_field("b", "2"), str_field("c", "3")]);
    let mut once = builder.new_logger();
    once.bind(vec![str_field("a", "1"), str_field("b", "2"), str_field("c", "3")]);
    let r1 = twice.log(Level::Warn, "m", vec![str_field("z", "0")]).unwrap();
    let r2 = once.log(Level::Warn, "m", vec![str_field("z", "0")]).unwrap();
    assert_eq!(names(&r1.fields), vec!["z", "a", "b", "c"]);
    assert_eq!(names(&r1.fields), names(&r2.fields));
    let values1: Vec<String> = r1.fields.iter().map(str_value).collect();
    let values2: Vec<String> = r2.fields.iter().map(str_value).collect();
    assert_eq!(values1, values2);
}

#[test]
fn console_log_without_base_fields_keeps_call_fields_only() {
    let builder = new_console_logger_builder();
    let mut logger = builder.new_named_logger("X");
    logger.bind(vec![str_field("extra", "e")]);
    let record = logger.log_no_base_fields(Level::Error, "boom", vec![str_field("k", "v")]).unwrap();
    assert_eq!(record.message, "boom");
    assert_eq!(names(&record.fields), vec!["k"]);
}

#[test]
fn console_clone_base_fields_copies_in_order() {
    let builder = new_console_logger_builder();
    let mut logger = builder.new_named_logger("X");
    logger.bind(vec![str_field("a", "1")]);
    let copy = logger.clone_base_fields(4);
    assert_eq!(names(&copy), vec!["logger", "a"]);
    assert_eq!(str_value(&copy[0]), "X");
    assert!(copy.capacity() >= 6);
    let bare = builder.new_logger();
    assert!(bare.clone_base_fields(0).is_empty());
}
