//! Decoding the textual pieces of a request: UTF-8 decoding of raw bytes,
//! and percent-decoding of a query component back into text.

use vstd::prelude::*;
use vstd::utf8::{valid_utf8, decode_utf8, encode_utf8, encode_utf8_valid_utf8,
    encode_utf8_decode_utf8};
use crate::percent::{spec_percent_decode, spec_percent_encode, percent_decode_bytes,
    lemma_percent_round_trip};

verus! {

/// Relies on String::from_utf8: returns the decoded string exactly when the
/// bytes are a valid UTF-8 encoding.
#[verifier::external_body]
pub(crate) fn utf8_string(bytes: Vec<u8>) -> (r: Option<String>)
    ensures
        r is Some <==> valid_utf8(bytes@),
        r matches Some(s) ==> s@ == decode_utf8(bytes@),
{
    String::from_utf8(bytes).ok()
}

/// The bytes a query component denotes: its UTF-8 bytes, percent-decoded.
pub open spec fn decoded_query_bytes(q: Seq<char>) -> Seq<u8> {
    spec_percent_decode(encode_utf8(q))
}

/// Percent-decode a query component and decode the resulting bytes as UTF-8.
/// Returns `None` exactly when the decoded bytes are not valid UTF-8.
pub fn decode_query(q: &str) -> (r: Option<String>)
    ensures
        r is Some <==> valid_utf8(decoded_query_bytes(q@)),
        r matches Some(s) ==> s@ == decode_utf8(decoded_query_bytes(q@)),
{
    let bytes = percent_decode_bytes(q.as_bytes());
    utf8_string(bytes)
}

/// Percent-decoding a query produced by percent-encoding a string gives back
/// the original string: the decoded bytes are valid UTF-8 and decode to it.
pub proof fn lemma_query_round_trip(s: Seq<char>)
    ensures
        valid_utf8(spec_percent_decode(spec_percent_encode(encode_utf8(s)))),
        decode_utf8(spec_percent_decode(spec_percent_encode(encode_utf8(s)))) == s,
{
    lemma_percent_round_trip(encode_utf8(s));
    encode_utf8_valid_utf8(s);
    encode_utf8_decode_utf8(s);
}

} // verus!
