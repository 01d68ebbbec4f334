//! Parsing a request line as an absolute URL, keeping the two components the
//! protocol routes on: the scheme and the optional query.

use vstd::prelude::*;

verus! {

/// Whether a string parses as an absolute URL.
pub uninterp spec fn url_parses(s: Seq<char>) -> bool;

/// The scheme of the URL a string parses to.
pub uninterp spec fn url_scheme(s: Seq<char>) -> Seq<char>;

/// The query component, if any, of the URL a string parses to.
pub uninterp spec fn url_query(s: Seq<char>) -> Option<Seq<char>>;

/// The components of a parsed request URL that routing reads.
pub struct ParsedUrl {
    pub scheme: String,
    pub query: Option<String>,
}

/// Relies on url::Url::parse, and on Url::scheme and Url::query of the
/// parsed value: whether a string parses, and the scheme and query of what
/// it parses to, are functions of the string alone.
#[verifier::external_body]
pub(crate) fn parse_request_url(s: &str) -> (r: Option<ParsedUrl>)
    ensures
        r is Some <==> url_parses(s@),
        r matches Some(p) ==> p.scheme@ == url_scheme(s@),
        r matches Some(p) ==> (p.query is Some <==> url_query(s@) is Some),
        r matches Some(p) ==> (p.query matches Some(q) ==> url_query(s@) == Some(q@)),
{
    match url::Url::parse(s) {
        Ok(u) => {
            let query = match u.query() {
                Some(q) => Some(q.to_string()),
                None => None,
            };
            Some(ParsedUrl { scheme: u.scheme().to_string(), query })
        }
        Err(_) => None,
    }
}

} // verus!
