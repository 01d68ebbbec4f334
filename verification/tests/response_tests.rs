use fend_gemini::response::Response;

#[test]
fn serialize_without_body_is_status_meta_crlf() {
    let resp = Response { status: 10, meta: "Enter a calculation".to_string(), body: None };
    assert_eq!(resp.serialize(), "10 Enter a calculation\r\n");
}

#[test]
fn serialize_with_body_appends_it_after_crlf() {
    let resp = Response {
        status: 20,
        meta: "text/gemini".to_string(),
        body: Some("# heading\nline\n".to_string()),
    };
    assert_eq!(resp.serialize(), "20 text/gemini\r\n# heading\nline\n");
}

#[test]
fn serialize_writes_both_status_digits() {
    let resp = Response { status: 51, meta: "Not found".to_string(), body: None };
    assert_eq!(resp.serialize(), "51 Not found\r\n");
    let resp = Response { status: 99, meta: "x".to_string(), body: None };
    assert_eq!(resp.serialize(), "99 x\r\n");
}
