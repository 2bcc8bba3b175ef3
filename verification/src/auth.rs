//! The redirect listener's state machine. The surrounding program owns the
//! HTTP listener and the outbound POST; this module decides, for every
//! inbound request, what to answer and when the flow is over.

use vstd::prelude::*;
use vstd::string::StringExecFns;

use crate::error::MyError;
use crate::pkce::PkceMaterial;
use crate::query::{decide_callback, lookup_first, CallbackDecision};
use crate::resource::{
    CALLBACK_PARSE_FAILED_MSG, CALLBACK_PATH, CALLBACK_PATH_QUERY_PREFIX, CLIENT_ID,
    LOCAL_CALLBACK_URL, MISSING_CODE_MSG, SET_UP, SNEAKY_WINK, SPOTIFY_AUTH_URL,
    SPOTIFY_TOKEN_URL,
};
use crate::strutil::{spec_starts_with, str_eq, str_starts_with};
use crate::token::{
    exchange_request_url, parse_exchange_response, spec_exchange_params, spec_response_view,
    spec_token_outcome,
};
use crate::urlutil::{
    build_url, callback_url_parses, parse_callback_query, query_pairs_of, url_with_params,
};

verus! {

/// A validated credential pair returned by a completed authorization or
/// refresh flow. The caller replaces it wholesale on refresh; nothing here
/// is mutated in place.
#[derive(Debug, Clone)]
pub struct Auth {
    pub access_token: String,
    pub refresh_token: String,
}

/// Where one authorization attempt stands.
#[derive(Clone, Copy, Debug, PartialEq, Eq, Structural)]
pub enum FlowPhase {
    /// Listener bound, not yet visited.
    Init,
    /// The browser was redirected to the provider; its callback is awaited.
    AwaitingCallback,
    /// A code was captured; the token exchange is in flight.
    Exchanging,
    /// The flow ended, in success or failure.
    Done,
}

/// What the listener must do with one inbound request.
pub enum StepAction {
    /// Answer 303 with this `Location`: the provider's authorization URL.
    Redirect(String),
    /// Answer this body and keep serving; the flow is unaffected.
    Respond(String),
    /// POST to this token-endpoint URL with an empty form body, then hand
    /// the outcome to [`AuthFlow::on_exchange_response`].
    Exchange(String),
    /// Answer this body, stop the listener, and surface the error. The
    /// body is always the error's own user-facing message.
    Fail(String, MyError),
}

/// The query parameters of the provider's authorization URL, ordered as
/// the redirect sends them. Only the challenge travels here; the verifier
/// is kept for the final exchange.
pub open spec fn spec_authorize_params(challenge: Seq<char>, state: Seq<char>) -> Seq<
    (Seq<char>, Seq<char>),
> {
    seq![
        ("client_id"@, CLIENT_ID@),
        ("redirect_uri"@, LOCAL_CALLBACK_URL@),
        ("code_challenge_method"@, "S256"@),
        ("code_challenge"@, challenge),
        ("scope"@, "user-read-currently-playing"@),
        ("state"@, state),
    ]
}

/// What a callback with these query parameters must lead to. Checked in
/// this order: a present mismatching `state` is forgery before anything
/// else is trusted; a present `error` ends the flow as denial or as an
/// unknown provider error; otherwise the code is taken and the one
/// exchange is asked for, at the URL built from the code and the
/// verifier. A callback with neither code nor error ends the flow as an
/// unknown error with a fixed message.
pub open spec fn spec_callback_step(
    pairs: Seq<(Seq<char>, Seq<char>)>,
    expect: Seq<char>,
    code_verifier: Seq<char>,
    a: StepAction,
    new_phase: FlowPhase,
) -> bool {
    let st = lookup_first(pairs, "state"@);
    let err = lookup_first(pairs, "error"@);
    let code = lookup_first(pairs, "code"@);
    if st is Some && st->0 != expect {
        a matches StepAction::Fail(b, e) && e is CrossSiteRequestForgery && b@ == e.spec_message()
            && new_phase is Done
    } else if err is Some {
        if err->0 == "access_denied"@ {
            a matches StepAction::Fail(b, e) && e is AccessDenied && b@ == e.spec_message()
                && new_phase is Done
        } else {
            a matches StepAction::Fail(b, e) && e matches MyError::Unknown(t) && t@ == err->0
                && b@ == e.spec_message() && new_phase is Done
        }
    } else if code is Some {
        a matches StepAction::Exchange(u) && u@ == url_with_params(
            SPOTIFY_TOKEN_URL@,
            spec_exchange_params(code->0, code_verifier),
        ) && new_phase is Exchanging
    } else {
        a matches StepAction::Fail(b, e) && e matches MyError::Unknown(t) && t@ == MISSING_CODE_MSG@
            && b@ == e.spec_message() && new_phase is Done
    }
}

/// A callback that passes the forgery check but carries
/// `error=access_denied` ends the flow as a denial: the step never asks
/// for a token exchange, so the token endpoint is not contacted.
pub proof fn lemma_denied_never_exchanges(
    pairs: Seq<(Seq<char>, Seq<char>)>,
    expect: Seq<char>,
    code_verifier: Seq<char>,
    a: StepAction,
    new_phase: FlowPhase,
)
    requires
        spec_callback_step(pairs, expect, code_verifier, a, new_phase),
        lookup_first(pairs, "state"@) matches Some(s) ==> s == expect,
        lookup_first(pairs, "error"@) == Some("access_denied"@),
    ensures
        a matches StepAction::Fail(b, e) && e is AccessDenied && b@ == e.spec_message(),
        !(a is Exchange),
        new_phase is Done,
{
}

/// One authorization attempt: its PKCE material and where it stands.
pub struct AuthFlow {
    pub phase: FlowPhase,
    pub material: PkceMaterial,
}

impl AuthFlow {
    /// True once no further request may affect the flow: a terminal state
    /// was reached, or the one permitted exchange is in flight.
    pub open spec fn inert(&self) -> bool {
        self.phase is Exchanging || self.phase is Done
    }

    /// Opens an attempt around freshly generated material.
    pub fn new(material: PkceMaterial) -> (f: AuthFlow)
        ensures
            f.phase is Init,
            f.material == material,
    {
        AuthFlow { phase: FlowPhase::Init, material }
    }

    /// Decides one inbound request.
    ///
    /// An attempt that is already inert, a non-GET request, and any path
    /// other than the callback path get the placeholder body and change
    /// nothing. A bare callback visit turns into the 303 redirect carrying
    /// challenge and state. A callback with a query string is judged by
    /// [`spec_callback_step`] on the parameters of the request URL alone;
    /// only a request URL that does not parse at all ends the flow with an
    /// I/O error instead.
    pub fn on_request(&mut self, is_get: bool, url: &str) -> (a: StepAction)
        ensures
            final(self).material == old(self).material,
            old(self).inert() ==> *final(self) == *old(self) && (a matches StepAction::Respond(b)
                && b@ == SNEAKY_WINK@),
            !old(self).inert() && !(is_get && (url@ == CALLBACK_PATH@ || spec_starts_with(
                url@,
                CALLBACK_PATH_QUERY_PREFIX@,
            ))) ==> *final(self) == *old(self) && (a matches StepAction::Respond(b) && b@
                == SNEAKY_WINK@),
            !old(self).inert() && is_get && url@ == CALLBACK_PATH@ ==> (
            a matches StepAction::Redirect(loc) && loc@ == url_with_params(
                SPOTIFY_AUTH_URL@,
                spec_authorize_params(old(self).material.challenge@, old(self).material.state@),
            )) && final(self).phase is AwaitingCallback,
            !old(self).inert() && is_get && spec_starts_with(url@, CALLBACK_PATH_QUERY_PREFIX@)
                ==> {
                &&& callback_url_parses(url@) ==> spec_callback_step(
                    query_pairs_of(url@),
                    old(self).material.state@,
                    old(self).material.verifier@,
                    a,
                    final(self).phase,
                )
                &&& !callback_url_parses(url@) ==> (a matches StepAction::Fail(b, e)
                    && e matches MyError::Io(_) && b@ == e.spec_message())
                    && final(self).phase is Done
            },
    {
        if self.phase == FlowPhase::Exchanging || self.phase == FlowPhase::Done {
            return StepAction::Respond(String::from_str(SNEAKY_WINK));
        }
        if !is_get {
            return StepAction::Respond(String::from_str(SNEAKY_WINK));
        }
        if str_eq(url, CALLBACK_PATH) {
            proof {
                // The bare path is strictly shorter than the path-with-query
                // prefix, so the two request shapes cannot coincide.
                reveal_strlit("/snipsnap");
                reveal_strlit("/snipsnap?");
                assert(!spec_starts_with(url@, CALLBACK_PATH_QUERY_PREFIX@));
            }
            let mut v: Vec<(String, String)> = Vec::new();
            v.push((String::from_str("client_id"), String::from_str(CLIENT_ID)));
            v.push((String::from_str("redirect_uri"), String::from_str(LOCAL_CALLBACK_URL)));
            v.push((String::from_str("code_challenge_method"), String::from_str("S256")));
            v.push((String::from_str("code_challenge"), self.material.challenge.clone()));
            v.push((String::from_str("scope"), String::from_str("user-read-currently-playing")));
            v.push((String::from_str("state"), self.material.state.clone()));
            proof {
                assert(v.deep_view() =~= spec_authorize_params(
                    self.material.challenge@,
                    self.material.state@,
                ));
            }
            let location = build_url(SPOTIFY_AUTH_URL, &v);
            self.phase = FlowPhase::AwaitingCallback;
            StepAction::Redirect(location)
        } else if str_starts_with(url, CALLBACK_PATH_QUERY_PREFIX) {
            match parse_callback_query(url) {
                Some(pairs) => self.on_callback_params(&pairs),
                None => {
                    self.phase = FlowPhase::Done;
                    let e = MyError::Io(String::from_str(CALLBACK_PARSE_FAILED_MSG));
                    let b = e.message();
                    StepAction::Fail(b, e)
                },
            }
        } else {
            StepAction::Respond(String::from_str(SNEAKY_WINK))
        }
    }

    /// Judges one callback's already-parsed query parameters, exactly as
    /// [`spec_callback_step`] states.
    pub fn on_callback_params(&mut self, pairs: &Vec<(String, String)>) -> (a: StepAction)
        ensures
            final(self).material == old(self).material,
            spec_callback_step(
                pairs.deep_view(),
                old(self).material.state@,
                old(self).material.verifier@,
                a,
                final(self).phase,
            ),
    {
        let d = decide_callback(pairs, self.material.state.as_str());
        match d {
            CallbackDecision::Forged => {
                self.phase = FlowPhase::Done;
                let e = MyError::CrossSiteRequestForgery;
                let b = e.message();
                StepAction::Fail(b, e)
            },
            CallbackDecision::Denied => {
                self.phase = FlowPhase::Done;
                let e = MyError::AccessDenied;
                let b = e.message();
                StepAction::Fail(b, e)
            },
            CallbackDecision::OtherError(t) => {
                self.phase = FlowPhase::Done;
                let e = MyError::Unknown(t);
                let b = e.message();
                StepAction::Fail(b, e)
            },
            CallbackDecision::Code(c) => {
                let u = exchange_request_url(c.as_str(), self.material.verifier.as_str());
                self.phase = FlowPhase::Exchanging;
                StepAction::Exchange(u)
            },
            CallbackDecision::MissingCode => {
                self.phase = FlowPhase::Done;
                let e = MyError::Unknown(String::from_str(MISSING_CODE_MSG));
                let b = e.message();
                StepAction::Fail(b, e)
            },
        }
    }

    /// Takes the token endpoint's answer to the one exchange this attempt
    /// may make, ends the flow, and hands back the response body for the
    /// browser together with the attempt's outcome. Only a flow that just
    /// asked for the exchange may take an answer: a finished flow yields
    /// its one credential at most once.
    pub fn on_exchange_response(&mut self, body: Result<&str, &str>) -> (out: (
        String,
        Result<Auth, MyError>,
    ))
        requires
            old(self).phase is Exchanging,
        ensures
            final(self).material == old(self).material,
            final(self).phase is Done,
            spec_token_outcome(spec_response_view(body), false, out.1),
            out.1 matches Ok(_) ==> out.0@ == SET_UP@,
            out.1 matches Err(e) ==> out.0@ == e.spec_message(),
    {
        self.phase = FlowPhase::Done;
        match parse_exchange_response(body) {
            Ok(auth) => (String::from_str(SET_UP), Ok(auth)),
            Err(e) => {
                let b = e.message();
                (b, Err(e))
            },
        }
    }
}

} // verus!
