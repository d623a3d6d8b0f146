use http_client::Form;

#[test]
fn form_starts_empty() {
    let f = Form::new();
    let d = format!("{:?}", f);
    assert!(d.contains("parts: []"));
    let f = Form::default();
    assert!(format!("{:?}", f).contains("parts: []"));
}

#[test]
fn form_parts_keep_their_order() {
    let f = Form::new()
        .text("username".to_string(), "alice".to_string())
        .bytes("avatar".to_string(), vec![1, 2, 3], Some("a.png".to_string()), Some("image/png".to_string()))
        .text("password".to_string(), "secret".to_string());
    let d = format!("{:?}", f);
    let u = d.find("(\"username\", Text(\"alice\"))").expect("first part");
    let a = d
        .find("(\"avatar\", Bytes { data: [1, 2, 3], file_name: Some(\"a.png\"), mime: Some(\"image/png\"), headers: {} })")
        .expect("second part");
    let p = d.find("(\"password\", Text(\"secret\"))").expect("third part");
    assert!(u < a && a < p);
}

#[test]
fn form_converts_to_multipart_body_in_order() {
    let f = Form::new()
        .text("username".to_string(), "alice".to_string())
        .bytes("avatar".to_string(), vec![1, 2, 3], Some("a.png".to_string()), Some("image/png".to_string()));
    let out: reqwest::multipart::Form = f.into();
    let d = format!("{:?}", out);
    let u = d.find("\"username\"").expect("text field present");
    let a = d.find("\"avatar\"").expect("bytes field present");
    assert!(u < a);
    assert!(d.contains("a.png"));
    assert!(d.contains("image/png"));
}

#[test]
fn form_conversion_drops_invalid_mime_types() {
    let f = Form::new().bytes("blob".to_string(), vec![0], None, Some("not a mime".to_string()));
    let out: reqwest::multipart::Form = f.into();
    let d = format!("{:?}", out);
    assert!(d.contains("\"blob\""));
    assert!(!d.contains("not a mime"));
    assert!(d.contains("mime: None"));
    assert!(d.contains("file_name: None"));
}

#[test]
fn empty_form_converts_to_empty_multipart_body() {
    let out: reqwest::multipart::Form = Form::new().into();
    assert!(format!("{:?}", out).contains("parts: []"));
}

#[test]
fn form_conversion_sends_the_parsed_mime_type() {
    let f = Form::new().bytes("doc".to_string(), vec![7], None, Some("Text/Plain".to_string()));
    let out: reqwest::multipart::Form = f.into();
    let d = format!("{:?}", out);
    assert!(d.contains("mime: Some(\"text/plain\")"));
    assert!(!d.contains("Text/Plain"));
}
