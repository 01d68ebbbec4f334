//! Routing one request line to its response.
//!
//! A request is one line of bytes. It is decoded as UTF-8 and parsed as an
//! absolute URL; a scheme other than `gemini` earns a fixed permanent-failure
//! status line, a URL without a query earns the input prompt, and a URL with
//! a query has the query percent-decoded and evaluated, the result wrapped in
//! a success response. Whatever cannot be answered — bytes that are not
//! UTF-8, a string that is no URL, a query that decodes to bytes that are not
//! UTF-8, or a failed evaluation — closes the connection without a response.

use vstd::prelude::*;
use vstd::string::StringExecFns;
use vstd::utf8::{valid_utf8, decode_utf8};
use crate::codec::{decoded_query_bytes, decode_query, utf8_string};
use crate::eval::{eval_outcome, evaluate_query};
use crate::request::{url_parses, url_scheme, url_query, parse_request_url, ParsedUrl};
use crate::response::{Response, spec_serialize, status_digits, digit_char};

verus! {

/// Why a connection is closed without a protocol response.
#[derive(Clone, Copy, PartialEq, Eq, Structural, Debug)]
pub enum CloseReason {
    /// The raw request bytes are not valid UTF-8.
    InvalidRequestEncoding,
    /// The request line does not parse as an absolute URL.
    MalformedUrl,
    /// The percent-decoded query is not valid UTF-8.
    InvalidQueryEncoding,
    /// The evaluation engine rejected the query.
    EvaluationFailed,
}

/// What one request earns: a reply to write back, or a silent close.
pub enum Outcome {
    /// Write this payload, then close.
    Reply(String),
    /// Close without writing anything.
    Close(CloseReason),
}

/// The exact prompt reply for a URL without a query.
pub open spec fn prompt_payload() -> Seq<char> {
    "10 Enter a calculation\r\n"@
}

/// The exact reply for a URL whose scheme is not `gemini`: a bare status
/// line, deliberately without a trailing CRLF.
pub open spec fn scheme_error_payload() -> Seq<char> {
    "50 Invalid URL scheme"@
}

/// The metadata of a success response.
pub open spec fn success_meta() -> Seq<char> {
    "text/gemini; charset=utf-8; lang=en"@
}

/// The body of a success response: a heading, the echoed input, the result,
/// and a navigation line pointing back at the base URL.
pub open spec fn success_body(input: Seq<char>, result: Seq<char>, base: Seq<char>) -> Seq<char> {
    "# fend-gemini\nInput: "@ + input + "\nResult: "@ + result + "\n=> "@ + base
        + " Make another calculation"@
}

/// The whole success reply: the serialized status-20 response.
pub open spec fn success_payload(input: Seq<char>, result: Seq<char>, base: Seq<char>) -> Seq<
    char,
> {
    spec_serialize(20, success_meta(), success_body(input, result, base))
}

/// True when a request reaches the evaluation route: valid UTF-8, parses as
/// a URL, has the `gemini` scheme and carries a query.
pub open spec fn routes_to_eval(raw: Seq<u8>) -> bool {
    &&& valid_utf8(raw)
    &&& url_parses(decode_utf8(raw))
    &&& url_scheme(decode_utf8(raw)) == "gemini"@
    &&& url_query(decode_utf8(raw)) is Some
}

/// The text of the percent-decoded query of a request on the evaluation
/// route.
pub open spec fn decoded_query_of(raw: Seq<u8>) -> Seq<char>
    recommends
        routes_to_eval(raw),
{
    decode_utf8(decoded_query_bytes(url_query(decode_utf8(raw))->Some_0))
}

/// The reply a request earns, or `None` when the connection is closed
/// without one.
pub open spec fn spec_response(raw: Seq<u8>, base: Seq<char>) -> Option<Seq<char>> {
    if !valid_utf8(raw) {
        None
    } else {
        let line = decode_utf8(raw);
        if !url_parses(line) {
            None
        } else if url_scheme(line) != "gemini"@ {
            Some(scheme_error_payload())
        } else {
            match url_query(line) {
                None => Some(prompt_payload()),
                Some(q) => {
                    if !valid_utf8(decoded_query_bytes(q)) {
                        None
                    } else {
                        match eval_outcome(decode_utf8(decoded_query_bytes(q))) {
                            Ok(result) => Some(
                                success_payload(
                                    decode_utf8(decoded_query_bytes(q)),
                                    result,
                                    base,
                                ),
                            ),
                            Err(_) => None,
                        }
                    }
                },
            }
        }
    }
}

/// Why a request is closed without a reply, or `None` when it earns one.
pub open spec fn spec_close_reason(raw: Seq<u8>) -> Option<CloseReason> {
    if !valid_utf8(raw) {
        Some(CloseReason::InvalidRequestEncoding)
    } else {
        let line = decode_utf8(raw);
        if !url_parses(line) {
            Some(CloseReason::MalformedUrl)
        } else if url_scheme(line) != "gemini"@ {
            None
        } else {
            match url_query(line) {
                None => None,
                Some(q) => {
                    if !valid_utf8(decoded_query_bytes(q)) {
                        Some(CloseReason::InvalidQueryEncoding)
                    } else if eval_outcome(decode_utf8(decoded_query_bytes(q))) is Err {
                        Some(CloseReason::EvaluationFailed)
                    } else {
                        None
                    }
                },
            }
        }
    }
}

/// Handle one raw request line: decode, parse, route, evaluate, and produce
/// either the reply to write or the reason to close silently.
pub fn handle_request(raw: Vec<u8>, base_url: &str) -> (r: Outcome)
    ensures
        r is Reply <==> spec_response(raw@, base_url@) is Some,
        r is Close <==> spec_close_reason(raw@) is Some,
        r matches Outcome::Reply(p) ==> Some(p@) == spec_response(raw@, base_url@),
        r matches Outcome::Close(why) ==> Some(why) == spec_close_reason(raw@),
{
    let line = match utf8_string(raw) {
        None => {
            return Outcome::Close(CloseReason::InvalidRequestEncoding);
        },
        Some(s) => s,
    };
    let parsed: ParsedUrl = match parse_request_url(line.as_str()) {
        None => {
            return Outcome::Close(CloseReason::MalformedUrl);
        },
        Some(p) => p,
    };
    let gemini: String = "gemini".to_owned();
    if !(parsed.scheme == gemini) {
        return Outcome::Reply("50 Invalid URL scheme".to_owned());
    }
    match parsed.query {
        None => {
            let resp = Response { status: 10, meta: "Enter a calculation".to_owned(), body: None };
            let payload = resp.serialize();
            proof {
                lemma_prompt_serialized();
            }
            Outcome::Reply(payload)
        },
        Some(q) => {
            let decoded = match decode_query(q.as_str()) {
                None => {
                    return Outcome::Close(CloseReason::InvalidQueryEncoding);
                },
                Some(d) => d,
            };
            match evaluate_query(decoded.as_str()) {
                Err(_) => Outcome::Close(CloseReason::EvaluationFailed),
                Ok(result) => Outcome::Reply(
                    render_success(decoded.as_str(), result.as_str(), base_url),
                ),
            }
        },
    }
}

/// Build the serialized success response for a decoded query, its result,
/// and the configured base URL.
pub fn render_success(input: &str, result: &str, base_url: &str) -> (r: String)
    ensures
        r@ == success_payload(input@, result@, base_url@),
{
    let mut body = String::new();
    body.append("# fend-gemini\nInput: ");
    body.append(input);
    body.append("\nResult: ");
    body.append(result);
    body.append("\n=> ");
    body.append(base_url);
    body.append(" Make another calculation");
    let resp = Response {
        status: 20,
        meta: "text/gemini; charset=utf-8; lang=en".to_owned(),
        body: Some(body),
    };
    let out = resp.serialize();
    proof {
        assert(out@ =~= success_payload(input@, result@, base_url@));
    }
    out
}

/// True when `needle` occurs contiguously somewhere in `hay`.
pub open spec fn has_substring(hay: Seq<char>, needle: Seq<char>) -> bool {
    exists|i: int|
        0 <= i && i + needle.len() <= hay.len() && #[trigger] hay.subrange(i, i + needle.len())
            == needle
}

/// The status line that opens every success reply.
pub open spec fn success_status_line() -> Seq<char> {
    "20 text/gemini; charset=utf-8; lang=en\r\n"@
}

/// Every success reply begins with the status-20 line and echoes the decoded
/// query verbatim.
pub proof fn lemma_success_echoes_input(input: Seq<char>, result: Seq<char>, base: Seq<char>)
    ensures
        success_payload(input, result, base).len() >= success_status_line().len(),
        success_payload(input, result, base).subrange(0, success_status_line().len() as int)
            == success_status_line(),
        has_substring(success_payload(input, result, base), input),
{
    reveal_strlit("20 text/gemini; charset=utf-8; lang=en\r\n");
    reveal_strlit("text/gemini; charset=utf-8; lang=en");
    reveal_strlit("# fend-gemini\nInput: ");
    reveal_strlit(" ");
    reveal_strlit("\r\n");
    let pay = success_payload(input, result, base);
    assert(pay.subrange(0, success_status_line().len() as int) =~= success_status_line());
    assert(pay.subrange(61, 61 + input.len() as int) =~= input);
}

/// A request on the evaluation route whose query decodes cleanly and whose
/// evaluation succeeds earns a success reply: it begins with the status-20
/// line and echoes the decoded query verbatim.
pub proof fn lemma_query_success(raw: Seq<u8>, base: Seq<char>)
    requires
        routes_to_eval(raw),
        valid_utf8(decoded_query_bytes(url_query(decode_utf8(raw))->Some_0)),
        eval_outcome(decoded_query_of(raw)) is Ok,
    ensures
        spec_response(raw, base) == Some(
            success_payload(decoded_query_of(raw), eval_outcome(decoded_query_of(raw))->Ok_0, base),
        ),
        has_substring(spec_response(raw, base)->Some_0, decoded_query_of(raw)),
        spec_response(raw, base)->Some_0.subrange(0, success_status_line().len() as int)
            == success_status_line(),
        spec_close_reason(raw) is None,
{
    lemma_success_echoes_input(
        decoded_query_of(raw),
        eval_outcome(decoded_query_of(raw))->Ok_0,
        base,
    );
}

/// A well-formed `gemini` request without a query earns exactly the prompt
/// reply, with nothing after its CRLF.
pub proof fn lemma_no_query_prompt(raw: Seq<u8>, base: Seq<char>)
    requires
        valid_utf8(raw),
        url_parses(decode_utf8(raw)),
        url_scheme(decode_utf8(raw)) == "gemini"@,
        url_query(decode_utf8(raw)) is None,
    ensures
        spec_response(raw, base) == Some("10 Enter a calculation\r\n"@),
        spec_close_reason(raw) is None,
{
}

/// A request whose URL parses but whose scheme is not `gemini` earns exactly
/// the bare status-50 line, with no CRLF and no body.
pub proof fn lemma_bad_scheme(raw: Seq<u8>, base: Seq<char>)
    requires
        valid_utf8(raw),
        url_parses(decode_utf8(raw)),
        url_scheme(decode_utf8(raw)) != "gemini"@,
    ensures
        spec_response(raw, base) == Some("50 Invalid URL scheme"@),
        spec_close_reason(raw) is None,
{
}

/// A query whose percent-decoded bytes are not valid UTF-8 closes the
/// connection without any reply.
pub proof fn lemma_bad_query_encoding(raw: Seq<u8>, base: Seq<char>)
    requires
        routes_to_eval(raw),
        !valid_utf8(decoded_query_bytes(url_query(decode_utf8(raw))->Some_0)),
    ensures
        spec_response(raw, base) is None,
        spec_close_reason(raw) == Some(CloseReason::InvalidQueryEncoding),
{
}

/// The serialized prompt response is exactly the prompt payload, character
/// for character.
pub proof fn lemma_prompt_serialized()
    ensures
        spec_serialize(10, "Enter a calculation"@, Seq::empty()) == prompt_payload(),
{
    reveal_strlit("Enter a calculation");
    reveal_strlit("10 Enter a calculation\r\n");
    reveal_strlit(" ");
    reveal_strlit("\r\n");
    assert(status_digits(10) == seq![digit_char(1), digit_char(0)]);
    assert(spec_serialize(10, "Enter a calculation"@, Seq::empty()) =~= prompt_payload());
}

} // verus!
