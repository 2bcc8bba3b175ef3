//! Trusted views of the url crate: building a URL with query parameters,
//! and splitting a callback path's query string into pairs.

use vstd::prelude::*;

use crate::resource::{SPOTIFY_AUTH_URL, SPOTIFY_TOKEN_URL};

verus! {

/// The absolute URL obtained by parsing `base` and appending each of
/// `params` to its query, form-urlencoded. Named, not written out: the
/// result is a fixed function of the inputs alone, computed by an outside
/// implementation.
pub uninterp spec fn url_with_params(base: Seq<char>, params: Seq<(Seq<char>, Seq<char>)>) -> Seq<
    char,
>;

/// Whether a callback path-and-query parses as a URL against the fixed
/// local origin. Named, not written out: a fixed function of the input
/// alone, decided by the outside parser.
pub uninterp spec fn callback_url_parses(path_and_query: Seq<char>) -> bool;

/// The percent-decoded key/value pairs of the query string of
/// `path_and_query`, resolved against a fixed local origin, in order.
/// Named, not written out: a fixed function of the input alone, computed
/// by an outside implementation.
pub uninterp spec fn query_pairs_of(path_and_query: Seq<char>) -> Seq<(Seq<char>, Seq<char>)>;

/// Relies on url's `Url::parse_with_params`: parses `base` as an absolute
/// URL and appends each pair to its query, form-urlencoded. Its only error
/// is a base that does not parse; appending pairs cannot fail. The
/// precondition admits just the two fixed provider URLs, both of which
/// parse as absolute URLs, so the call returns `Ok` and the unwrap cannot
/// panic.
#[verifier::external_body]
pub(crate) fn build_url(base: &str, params: &Vec<(String, String)>) -> (r: String)
    requires
        base@ == SPOTIFY_TOKEN_URL@ || base@ == SPOTIFY_AUTH_URL@,
    ensures
        r@ == url_with_params(base@, params.deep_view()),
{
    url::Url::parse_with_params(base, params.iter()).unwrap().as_str().to_owned()
}

/// Relies on url's `Url::parse` and `Url::query_pairs`: the request path is
/// resolved against a fixed local origin, `None` exactly when that does not
/// parse; otherwise its query string is split into percent-decoded
/// key/value pairs, in order.
#[verifier::external_body]
pub(crate) fn parse_callback_query(path_and_query: &str) -> (r: Option<Vec<(String, String)>>)
    ensures
        r is Some <==> callback_url_parses(path_and_query@),
        r matches Some(q) ==> q.deep_view() == query_pairs_of(path_and_query@),
{
    match url::Url::parse(&format!("http://localhost{}", path_and_query)) {
        Ok(u) => Some(u.query_pairs().map(|(k, v)| (k.to_string(), v.to_string())).collect()),
        Err(_) => None,
    }
}

} // verus!
