use webgrab::fetch::{classify_fetch, header_value_text, FetchError, RawFetch};

#[test]
fn transport_failure_classifies_as_transport() {
    let r = classify_fetch(String::from("http://a.test/"), RawFetch::Failed);
    assert!(matches!(r, Err(FetchError::Transport)));
}

#[test]
fn non_success_status_classifies_as_http_status() {
    let outcome = RawFetch::Response {
        status: 404,
        content_type: Some(b"text/html".to_vec()),
        body: Some(b"missing".to_vec()),
    };
    let r = classify_fetch(String::from("http://a.test/"), outcome);
    assert!(matches!(r, Err(FetchError::HttpStatus)));
}

#[test]
fn status_edges_of_the_2xx_range() {
    let ok_low = RawFetch::Response { status: 200, content_type: None, body: Some(vec![1]) };
    let ok_high = RawFetch::Response { status: 299, content_type: None, body: Some(vec![1]) };
    let below = RawFetch::Response { status: 199, content_type: None, body: Some(vec![1]) };
    let above = RawFetch::Response { status: 300, content_type: None, body: Some(vec![1]) };
    assert!(classify_fetch(String::from("u"), ok_low).is_ok());
    assert!(classify_fetch(String::from("u"), ok_high).is_ok());
    assert!(matches!(classify_fetch(String::from("u"), below), Err(FetchError::HttpStatus)));
    assert!(matches!(classify_fetch(String::from("u"), above), Err(FetchError::HttpStatus)));
}

#[test]
fn unreadable_body_classifies_as_body_read() {
    let outcome = RawFetch::Response { status: 200, content_type: None, body: None };
    let r = classify_fetch(String::from("http://a.test/"), outcome);
    assert!(matches!(r, Err(FetchError::BodyRead)));
}

#[test]
fn success_keeps_body_and_mime_verbatim() {
    let outcome = RawFetch::Response {
        status: 200,
        content_type: Some(b"image/png".to_vec()),
        body: Some(vec![0x89, 0x50, 0x4e, 0x47]),
    };
    let res = classify_fetch(String::from("http://a.test/logo.png"), outcome).expect("ok");
    assert_eq!(res.url, "http://a.test/logo.png");
    assert_eq!(res.bytes, vec![0x89, 0x50, 0x4e, 0x47]);
    assert_eq!(res.content_type, Some(String::from("image/png")));
}

#[test]
fn missing_content_type_is_absent() {
    let outcome = RawFetch::Response { status: 200, content_type: None, body: Some(vec![1]) };
    let res = classify_fetch(String::from("u"), outcome).expect("ok");
    assert_eq!(res.content_type, None);
}

#[test]
fn non_utf8_content_type_is_treated_as_absent() {
    let outcome = RawFetch::Response {
        status: 200,
        content_type: Some(vec![0xff, 0xfe, 0x00]),
        body: Some(vec![1]),
    };
    let res = classify_fetch(String::from("u"), outcome).expect("ok");
    assert_eq!(res.content_type, None);
}

#[test]
fn non_ascii_utf8_content_type_is_kept_verbatim() {
    // "caf\u{e9}/x" with the e-acute encoded as the two bytes 0xC3 0xA9
    let outcome = RawFetch::Response {
        status: 200,
        content_type: Some(vec![b'c', b'a', b'f', 0xc3, 0xa9, b'/', b'x']),
        body: Some(vec![1]),
    };
    let res = classify_fetch(String::from("u"), outcome).expect("ok");
    assert_eq!(res.content_type, Some(String::from("caf\u{e9}/x")));
}

#[test]
fn header_text_accepts_ascii_space_and_tab() {
    let v = b"text/html; \tcharset=utf-8".to_vec();
    assert_eq!(header_value_text(&v), Some(String::from("text/html; \tcharset=utf-8")));
}

#[test]
fn header_text_decodes_valid_utf8() {
    assert_eq!(header_value_text(&vec![0xc3, 0xa9]), Some(String::from("\u{e9}")));
    assert_eq!(header_value_text(&vec![b'a', 0x1f, b'b']), Some(String::from("a\u{1f}b")));
}

#[test]
fn header_text_rejects_invalid_utf8() {
    // a lone continuation byte, an invalid byte, and a truncated sequence
    assert_eq!(header_value_text(&vec![0x80]), None);
    assert_eq!(header_value_text(&vec![b'a', 0xff]), None);
    assert_eq!(header_value_text(&vec![0xc3]), None);
}

#[test]
fn empty_header_value_is_empty_text() {
    assert_eq!(header_value_text(&Vec::new()), Some(String::new()));
}
