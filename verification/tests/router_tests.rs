use fend_gemini::router::{handle_request, render_success, CloseReason, Outcome};

const BASE: &str = "gemini://localhost/";

fn reply_of(raw: &[u8]) -> String {
    match handle_request(raw.to_vec(), BASE) {
        Outcome::Reply(p) => p,
        Outcome::Close(why) => panic!("expected a reply, connection closed: {:?}", why),
    }
}

fn close_of(raw: &[u8]) -> CloseReason {
    match handle_request(raw.to_vec(), BASE) {
        Outcome::Reply(p) => panic!("expected a close, got reply: {}", p),
        Outcome::Close(why) => why,
    }
}

#[test]
fn no_query_yields_exact_prompt() {
    assert_eq!(reply_of(b"gemini://localhost/\r\n"), "10 Enter a calculation\r\n");
}

#[test]
fn no_query_with_path_yields_exact_prompt() {
    assert_eq!(reply_of(b"gemini://host/path\r\n"), "10 Enter a calculation\r\n");
}

#[test]
fn wrong_scheme_yields_exact_bare_status_line() {
    assert_eq!(reply_of(b"http://example.com\r\n"), "50 Invalid URL scheme");
}

#[test]
fn wrong_scheme_with_query_yields_status_fifty() {
    assert_eq!(reply_of(b"https://example.com/?1+1\r\n"), "50 Invalid URL scheme");
}

#[test]
fn calculation_yields_success_response() {
    let reply = reply_of(b"gemini://localhost/?1+1\r\n");
    assert!(reply.starts_with("20 text/gemini; charset=utf-8; lang=en\r\n"));
    assert!(reply.contains("Input: 1+1"));
    assert!(reply.contains("Result: 2"));
}

#[test]
fn calculation_reply_is_exact() {
    let reply = reply_of(b"gemini://localhost/?1+1\r\n");
    let expected = "20 text/gemini; charset=utf-8; lang=en\r\n# fend-gemini\nInput: 1+1\nResult: 2\n=> gemini://localhost/ Make another calculation";
    assert_eq!(reply, expected);
}

#[test]
fn percent_encoded_query_is_decoded_before_evaluation() {
    let reply = reply_of(b"gemini://localhost/?1%2B1\r\n");
    assert!(reply.contains("Input: 1+1"));
    assert!(reply.contains("Result: 2"));
}

#[test]
fn malformed_url_closes_without_reply() {
    assert_eq!(close_of(b"not-a-url\r\n"), CloseReason::MalformedUrl);
}

#[test]
fn empty_request_closes_without_reply() {
    assert_eq!(close_of(b""), CloseReason::MalformedUrl);
}

#[test]
fn invalid_utf8_request_closes_without_reply() {
    assert_eq!(close_of(&[0xff, 0xfe, 0x20]), CloseReason::InvalidRequestEncoding);
}

#[test]
fn query_decoding_to_invalid_utf8_closes_without_reply() {
    assert_eq!(close_of(b"gemini://localhost/?%ff\r\n"), CloseReason::InvalidQueryEncoding);
}

#[test]
fn failed_evaluation_closes_without_reply() {
    assert_eq!(
        close_of(b"gemini://localhost/?no_such_identifier_xyzzy\r\n"),
        CloseReason::EvaluationFailed
    );
}

#[test]
fn render_success_builds_exact_payload() {
    let reply = render_success("2 m + 3 m", "5 m", "gemini://example/");
    let expected = "20 text/gemini; charset=utf-8; lang=en\r\n# fend-gemini\nInput: 2 m + 3 m\nResult: 5 m\n=> gemini://example/ Make another calculation";
    assert_eq!(reply, expected);
}
