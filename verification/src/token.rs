//! The token exchange client: the request URLs for the authorization-code
//! and refresh-token grants, and the interpretation of the endpoint's JSON
//! answers.

use vstd::prelude::*;
use vstd::string::StringExecFns;

use crate::error::MyError;
use crate::resource::{CLIENT_ID, LOCAL_CALLBACK_URL, SPOTIFY_TOKEN_URL};
use crate::urlutil::{build_url, url_with_params};
use crate::auth::Auth;

verus! {

/// Whether serde_json's `from_str` parses the body. Named, not written
/// out: JSON well-formedness is a fixed function of the body text,
/// computed by the outside parser.
pub uninterp spec fn json_well_formed(body: Seq<char>) -> bool;

/// Whether `Value::is_null` denies the parsed body's `error` member, a
/// missing member reading as null. Named for the same reason as
/// [`json_well_formed`].
pub uninterp spec fn json_has_error(body: Seq<char>) -> bool;

/// What `Value::as_str` yields of the parsed body's member `key`: its
/// text if the member is a string, `None` otherwise. Named for the same
/// reason as [`json_well_formed`].
pub uninterp spec fn json_str_field(body: Seq<char>, key: Seq<char>) -> Option<Seq<char>>;

/// The fields of one token-endpoint answer, as read by serde_json. When
/// `parsed` is false the body was not JSON and the other fields say
/// nothing.
pub struct TokenFields {
    pub parsed: bool,
    pub has_error: bool,
    pub access_token: Option<String>,
    pub refresh_token: Option<String>,
}

/// Relies on serde_json's `from_str::<Value>`, `Value`'s indexing by string
/// (which yields `Value::Null` for a missing member or a non-object),
/// `Value::is_null` and `Value::as_str`: every field is a fixed function of
/// the body text alone.
#[verifier::external_body]
fn extract_token_fields(body: &str) -> (r: TokenFields)
    ensures
        r.parsed == json_well_formed(body@),
        r.parsed ==> r.has_error == json_has_error(body@),
        r.parsed ==> r.access_token.deep_view() == json_str_field(body@, "access_token"@),
        r.parsed ==> r.refresh_token.deep_view() == json_str_field(body@, "refresh_token"@),
{
    match serde_json::from_str::<serde_json::Value>(body) {
        Ok(v) => TokenFields {
            parsed: true,
            has_error: !v["error"].is_null(),
            access_token: v["access_token"].as_str().map(str::to_owned),
            refresh_token: v["refresh_token"].as_str().map(str::to_owned),
        },
        Err(_) => TokenFields {
            parsed: false,
            has_error: false,
            access_token: None,
            refresh_token: None,
        },
    }
}

/// How one answer's fields decide the outcome: an unparsable body is
/// `InvalidResponseJson` carrying the body; a non-null `error` member is
/// `RefreshFailed` for the refresh grant and `TokenRequestError` carrying
/// the body otherwise; else both token fields must be present strings and
/// become the credential, a missing one being `InvalidResponseJson` again.
pub open spec fn spec_credential_outcome(
    f: TokenFields,
    body: Seq<char>,
    refresh_grant: bool,
    r: Result<Auth, MyError>,
) -> bool {
    if !f.parsed {
        r matches Err(MyError::InvalidResponseJson(d)) && d@ == body
    } else if f.has_error {
        if refresh_grant {
            r matches Err(MyError::RefreshFailed)
        } else {
            r matches Err(MyError::TokenRequestError(d)) && d@ == body
        }
    } else if f.access_token is Some && f.refresh_token is Some {
        r matches Ok(a) && a.access_token@ == (f.access_token->0)@ && a.refresh_token@ == (
        f.refresh_token->0)@
    } else {
        r matches Err(MyError::InvalidResponseJson(d)) && d@ == body
    }
}

/// Turns one answer's extracted fields into a credential or a typed
/// failure; `body` is only quoted inside the failure payloads.
pub fn credential_from_fields(fields: TokenFields, body: &str, refresh_grant: bool) -> (r: Result<
    Auth,
    MyError,
>)
    ensures
        spec_credential_outcome(fields, body@, refresh_grant, r),
{
    if !fields.parsed {
        return Err(MyError::InvalidResponseJson(String::from_str(body)));
    }
    if fields.has_error {
        if refresh_grant {
            return Err(MyError::RefreshFailed);
        }
        return Err(MyError::TokenRequestError(String::from_str(body)));
    }
    match (fields.access_token, fields.refresh_token) {
        (Some(a), Some(rt)) => Ok(Auth { access_token: a, refresh_token: rt }),
        _ => Err(MyError::InvalidResponseJson(String::from_str(body))),
    }
}

/// The view of what the transport handed back: the body text on a
/// completed request, or the transport's own error text.
pub open spec fn spec_response_view(body: Result<&str, &str>) -> Result<Seq<char>, Seq<char>> {
    match body {
        Ok(s) => Ok(s@),
        Err(e) => Err(e@),
    }
}

/// The full outcome of one token request: a transport failure is
/// `InvalidResponseJson` carrying its text, and a received body decides as
/// [`spec_credential_outcome`] does, written over the body alone.
pub open spec fn spec_token_outcome(
    body: Result<Seq<char>, Seq<char>>,
    refresh_grant: bool,
    r: Result<Auth, MyError>,
) -> bool {
    match body {
        Err(t) => r matches Err(MyError::InvalidResponseJson(d)) && d@ == t,
        Ok(b) => {
            if !json_well_formed(b) {
                r matches Err(MyError::InvalidResponseJson(d)) && d@ == b
            } else if json_has_error(b) {
                if refresh_grant {
                    r matches Err(MyError::RefreshFailed)
                } else {
                    r matches Err(MyError::TokenRequestError(d)) && d@ == b
                }
            } else if json_str_field(b, "access_token"@) is Some && json_str_field(
                b,
                "refresh_token"@,
            ) is Some {
                r matches Ok(a) && Some(a.access_token@) == json_str_field(b, "access_token"@)
                    && Some(a.refresh_token@) == json_str_field(b, "refresh_token"@)
            } else {
                r matches Err(MyError::InvalidResponseJson(d)) && d@ == b
            }
        },
    }
}

/// Interprets one token-endpoint answer under the given grant type.
pub fn parse_token_response(body: Result<&str, &str>, refresh_grant: bool) -> (r: Result<
    Auth,
    MyError,
>)
    ensures
        spec_token_outcome(spec_response_view(body), refresh_grant, r),
{
    match body {
        Err(t) => Err(MyError::InvalidResponseJson(String::from_str(t))),
        Ok(b) => {
            let fields = extract_token_fields(b);
            credential_from_fields(fields, b, refresh_grant)
        },
    }
}

/// Interprets the answer to an authorization-code exchange.
pub fn parse_exchange_response(body: Result<&str, &str>) -> (r: Result<Auth, MyError>)
    ensures
        spec_token_outcome(spec_response_view(body), false, r),
{
    parse_token_response(body, false)
}

/// Interprets the answer to a refresh-token request.
pub fn parse_refresh_response(body: Result<&str, &str>) -> (r: Result<Auth, MyError>)
    ensures
        spec_token_outcome(spec_response_view(body), true, r),
{
    parse_token_response(body, true)
}

/// A rejected refresh yields `RefreshFailed` and nothing else: no
/// credential accompanies the failure, so a caller that replaces its
/// held credential only on `Ok` — and the refresh operations take the
/// token by immutable borrow, mutating nothing — keeps the old one
/// unchanged, wholesale.
pub proof fn lemma_refresh_failure_carries_no_credential(body: Seq<char>, r: Result<Auth, MyError>)
    requires
        spec_token_outcome(Ok(body), true, r),
        json_well_formed(body),
        json_has_error(body),
    ensures
        r matches Err(MyError::RefreshFailed),
{
}

/// The query parameters of the authorization-code exchange, ordered as
/// the request sends them.
pub open spec fn spec_exchange_params(code: Seq<char>, code_verifier: Seq<char>) -> Seq<
    (Seq<char>, Seq<char>),
> {
    seq![
        ("client_id"@, CLIENT_ID@),
        ("grant_type"@, "authorization_code"@),
        ("code"@, code),
        ("redirect_uri"@, LOCAL_CALLBACK_URL@),
        ("code_verifier"@, code_verifier),
    ]
}

/// The query parameters of the refresh-token request.
pub open spec fn spec_refresh_params(refresh_token: Seq<char>) -> Seq<(Seq<char>, Seq<char>)> {
    seq![
        ("grant_type"@, "refresh_token"@),
        ("refresh_token"@, refresh_token),
        ("client_id"@, CLIENT_ID@),
    ]
}

/// The URL that exchanges an authorization code, carrying the code and the
/// verifier whose challenge opened the flow.
pub fn exchange_request_url(code: &str, code_verifier: &str) -> (r: String)
    ensures
        r@ == url_with_params(SPOTIFY_TOKEN_URL@, spec_exchange_params(code@, code_verifier@)),
{
    let mut v: Vec<(String, String)> = Vec::new();
    v.push((String::from_str("client_id"), String::from_str(CLIENT_ID)));
    v.push((String::from_str("grant_type"), String::from_str("authorization_code")));
    v.push((String::from_str("code"), String::from_str(code)));
    v.push((String::from_str("redirect_uri"), String::from_str(LOCAL_CALLBACK_URL)));
    v.push((String::from_str("code_verifier"), String::from_str(code_verifier)));
    proof {
        assert(v.deep_view() =~= spec_exchange_params(code@, code_verifier@));
    }
    build_url(SPOTIFY_TOKEN_URL, &v)
}

/// The URL that asks for a fresh credential from a refresh token.
pub fn refresh_request_url(refresh_token: &str) -> (r: String)
    ensures
        r@ == url_with_params(SPOTIFY_TOKEN_URL@, spec_refresh_params(refresh_token@)),
{
    let mut v: Vec<(String, String)> = Vec::new();
    v.push((String::from_str("grant_type"), String::from_str("refresh_token")));
    v.push((String::from_str("refresh_token"), String::from_str(refresh_token)));
    v.push((String::from_str("client_id"), String::from_str(CLIENT_ID)));
    proof {
        assert(v.deep_view() =~= spec_refresh_params(refresh_token@));
    }
    build_url(SPOTIFY_TOKEN_URL, &v)
}

} // verus!
