use http_client::{Error, Method};

#[test]
fn method_parses_any_letter_case() {
    assert_eq!(Method::try_from("get").unwrap(), Method::GET);
    assert_eq!(Method::try_from("Post").unwrap(), Method::POST);
    assert_eq!(Method::try_from("PUT").unwrap(), Method::PUT);
    assert_eq!(Method::try_from("pAtCh").unwrap(), Method::PATCH);
    assert_eq!(Method::try_from("delete").unwrap(), Method::DELETE);
}

#[test]
fn method_refuses_unknown_names_with_the_name_as_given() {
    match Method::try_from("fetch") {
        Err(Error::InvalidMethod(name)) => assert_eq!(name, "fetch"),
        other => panic!("unexpected result: {:?}", other),
    }
    match Method::try_from("") {
        Err(Error::InvalidMethod(name)) => assert_eq!(name, ""),
        other => panic!("unexpected result: {:?}", other),
    }
    assert!(Method::try_from("GET ").is_err());
}

#[test]
fn method_upper_cases_by_unicode_rules() {
    // U+017F LATIN SMALL LETTER LONG S upper-cases to 'S'.
    assert_eq!(Method::try_from("po\u{17f}t").unwrap(), Method::POST);
}

#[test]
fn method_names_are_canonical() {
    assert_eq!(Method::GET.as_str(), "GET");
    assert_eq!(Method::PATCH.as_str(), "PATCH");
    assert_eq!(Method::POST.as_str(), "POST");
    assert_eq!(Method::PUT.as_str(), "PUT");
    assert_eq!(Method::DELETE.as_str(), "DELETE");
}

#[test]
fn method_name_roundtrip() {
    for m in [Method::GET, Method::PATCH, Method::POST, Method::PUT, Method::DELETE] {
        assert_eq!(Method::try_from(m.as_str()).unwrap(), m);
        assert_eq!(Method::from_uppercase_name(m.as_str()), Some(m));
    }
}

#[test]
fn method_from_uppercase_name_is_exact() {
    assert_eq!(Method::from_uppercase_name("GET"), Some(Method::GET));
    assert_eq!(Method::from_uppercase_name("get"), None);
    assert_eq!(Method::from_uppercase_name("OPTIONS"), None);
}

#[test]
fn method_converts_to_http_method() {
    assert_eq!(http::Method::from(Method::GET), http::Method::GET);
    assert_eq!(http::Method::from(Method::PATCH), http::Method::PATCH);
    assert_eq!(http::Method::from(Method::POST), http::Method::POST);
    assert_eq!(http::Method::from(Method::PUT), http::Method::PUT);
    assert_eq!(http::Method::from(Method::DELETE), http::Method::DELETE);
}
