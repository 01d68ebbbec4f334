use fend_gemini::codec::decode_query;
use fend_gemini::percent::percent_encode;

#[test]
fn encode_escapes_non_alphanumeric_bytes() {
    assert_eq!(percent_encode(b"foo bar?"), b"foo%20bar%3F".to_vec());
}

#[test]
fn encode_leaves_letters_and_digits_alone() {
    assert_eq!(percent_encode(b"abcXYZ0189"), b"abcXYZ0189".to_vec());
}

#[test]
fn encode_uses_uppercase_hex_digits() {
    assert_eq!(percent_encode(&[0xab, 0x0f]), b"%AB%0F".to_vec());
}

#[test]
fn decode_query_reverses_an_escape() {
    assert_eq!(decode_query("a%20b"), Some("a b".to_string()));
}

#[test]
fn decode_query_keeps_plus_and_plain_text() {
    assert_eq!(decode_query("1+1"), Some("1+1".to_string()));
}

#[test]
fn decode_query_accepts_lowercase_hex() {
    assert_eq!(decode_query("%2b"), Some("+".to_string()));
}

#[test]
fn decode_query_leaves_broken_escapes_alone() {
    assert_eq!(decode_query("100%"), Some("100%".to_string()));
    assert_eq!(decode_query("%zz"), Some("%zz".to_string()));
    assert_eq!(decode_query("%1"), Some("%1".to_string()));
}

#[test]
fn decode_query_rejects_invalid_utf8() {
    assert_eq!(decode_query("%ff"), None);
    assert_eq!(decode_query("%c3%28"), None);
}

#[test]
fn decode_query_decodes_multibyte_utf8() {
    assert_eq!(decode_query("%C3%A9"), Some("\u{e9}".to_string()));
}

#[test]
fn decoding_reverses_encoding() {
    let cases = [
        "hello world",
        "1+1",
        "100% of 3 m / 2",
        "caf\u{e9} \u{2713} \u{1f600}",
        "a&b=c?d#e%f",
        "",
    ];
    for case in cases {
        let encoded = percent_encode(case.as_bytes());
        let encoded_text = String::from_utf8(encoded).expect("the encoding is ASCII");
        assert_eq!(decode_query(&encoded_text), Some(case.to_string()));
    }
}

#[test]
fn encoding_matches_the_transport_encoder() {
    let cases = ["foo bar?", "caf\u{e9}", "1+1=2"];
    for case in cases {
        let mine = percent_encode(case.as_bytes());
        let theirs =
            percent_encoding::utf8_percent_encode(case, percent_encoding::NON_ALPHANUMERIC)
                .to_string();
        assert_eq!(mine, theirs.into_bytes());
    }
}
