use http_client::{Level, Logger};

#[test]
fn logger_keeps_prefix() {
    let l = Logger::new("third_party:example");
    assert_eq!(l.prefix(), "third_party:example");
}

#[test]
fn log_prefixes_message() {
    let l = Logger::new("my_crate");
    let r = l.log(Level::Info, "Request sent".to_string(), None);
    assert_eq!(r.level, Level::Info);
    assert_eq!(r.message, "[my_crate] Request sent");
    assert_eq!(r.values, None);
}

#[test]
fn log_keeps_object_values_as_json_text() {
    let l = Logger::new("http_client");
    let mut map = serde_json::Map::new();
    map.insert("status".to_string(), serde_json::Value::from(200));
    let r = l.log(Level::Debug, "Parsed response".to_string(), Some(serde_json::Value::Object(map)));
    assert_eq!(r.level, Level::Debug);
    assert_eq!(r.values.as_deref(), Some("{\"status\":200}"));
}

#[test]
fn log_drops_values_that_are_not_objects() {
    let l = Logger::new("x");
    let r = l.log(Level::Warn, "w".to_string(), Some(serde_json::Value::from(5)));
    assert_eq!(r.values, None);
    let r = l.log(Level::Error, "e".to_string(), Some(serde_json::Value::Array(vec![])));
    assert_eq!(r.values, None);
    assert_eq!(r.message, "[x] e");
}

#[test]
fn log_with_empty_prefix_and_message() {
    let l = Logger::new("");
    let r = l.log(Level::Info, String::new(), None);
    assert_eq!(r.message, "[] ");
}
