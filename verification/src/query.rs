//! Classification of the provider's callback: the query parameters decide
//! whether the flow was forged, denied, failed, or may exchange a code.

use vstd::prelude::*;

use crate::strutil::str_eq;

verus! {

/// The value of the first pair whose key is `key`, if any.
pub open spec fn lookup_first(pairs: Seq<(Seq<char>, Seq<char>)>, key: Seq<char>) -> Option<
    Seq<char>,
>
    decreases pairs.len(),
{
    if pairs.len() == 0 {
        None
    } else if pairs[0].0 == key {
        Some(pairs[0].1)
    } else {
        lookup_first(pairs.drop_first(), key)
    }
}

/// Finds the first query parameter named `key`.
pub fn find_param(pairs: &Vec<(String, String)>, key: &str) -> (r: Option<String>)
    ensures
        r.deep_view() == lookup_first(pairs.deep_view(), key@),
{
    let ghost pv = pairs.deep_view();
    proof {
        assert(pv.skip(0) =~= pv);
    }
    let mut i: usize = 0;
    while i < pairs.len()
        invariant
            i <= pairs.len(),
            pv == pairs.deep_view(),
            pv.len() == pairs.len(),
            lookup_first(pv, key@) == lookup_first(pv.skip(i as int), key@),
        decreases pairs.len() - i,
    {
        proof {
            assert(pv.skip(i as int)[0] == pv[i as int]);
            assert(pv[i as int] == (pairs@[i as int].0@, pairs@[i as int].1@));
        }
        let p = &pairs[i];
        if str_eq(p.0.as_str(), key) {
            return Some(p.1.clone());
        }
        proof {
            assert(pv.skip(i as int).drop_first() =~= pv.skip(i as int + 1));
        }
        i = i + 1;
    }
    proof {
        assert(pv.skip(i as int).len() == 0);
    }
    None
}

/// What the redirect listener must do with one callback's parameters.
pub enum CallbackDecision {
    /// A `state` parameter is present and differs from the generated one.
    Forged,
    /// `error=access_denied`: the user declined consent.
    Denied,
    /// Some other `error` value; the payload is that value.
    OtherError(String),
    /// No error: the authorization code to exchange.
    Code(String),
    /// Neither `error` nor `code`, which a well-formed callback never omits.
    MissingCode,
}

/// The callback rule, checked in this order: a present mismatching `state`
/// is forgery before anything else is trusted; then a present `error`
/// terminates the flow; otherwise the `code` is taken. A callback that
/// omits `state` entirely skips the forgery check.
pub open spec fn spec_decision(
    pairs: Seq<(Seq<char>, Seq<char>)>,
    expect: Seq<char>,
    d: CallbackDecision,
) -> bool {
    let st = lookup_first(pairs, "state"@);
    let err = lookup_first(pairs, "error"@);
    let code = lookup_first(pairs, "code"@);
    if st is Some && st->0 != expect {
        d is Forged
    } else if err is Some {
        if err->0 == "access_denied"@ {
            d is Denied
        } else {
            d matches CallbackDecision::OtherError(e) && e@ == err->0
        }
    } else if code is Some {
        d matches CallbackDecision::Code(c) && c@ == code->0
    } else {
        d is MissingCode
    }
}

/// Classifies one callback's query parameters against the generated state.
pub fn decide_callback(pairs: &Vec<(String, String)>, expected_state: &str) -> (d:
    CallbackDecision)
    ensures
        spec_decision(pairs.deep_view(), expected_state@, d),
{
    match find_param(pairs, "state") {
        Some(st) => {
            if !str_eq(st.as_str(), expected_state) {
                return CallbackDecision::Forged;
            }
        },
        None => {},
    }
    match find_param(pairs, "error") {
        Some(e) => {
            if str_eq(e.as_str(), "access_denied") {
                CallbackDecision::Denied
            } else {
                CallbackDecision::OtherError(e)
            }
        },
        None => match find_param(pairs, "code") {
            Some(c) => CallbackDecision::Code(c),
            None => CallbackDecision::MissingCode,
        },
    }
}

/// A present `state` different from the generated one is decided as
/// forgery, whatever else the callback carries; in particular an
/// accompanying `error=access_denied` does not soften it.
pub proof fn lemma_state_mismatch_is_forgery(
    pairs: Seq<(Seq<char>, Seq<char>)>,
    expect: Seq<char>,
    d: CallbackDecision,
)
    requires
        spec_decision(pairs, expect, d),
        lookup_first(pairs, "state"@) matches Some(s) && s != expect,
    ensures
        d is Forged,
{
}

/// A callback whose `state` equals the generated one, or that omits
/// `state`, is never decided as forgery.
pub proof fn lemma_matching_state_passes(
    pairs: Seq<(Seq<char>, Seq<char>)>,
    expect: Seq<char>,
    d: CallbackDecision,
)
    requires
        spec_decision(pairs, expect, d),
        lookup_first(pairs, "state"@) matches Some(s) ==> s == expect,
    ensures
        !(d is Forged),
{
}

/// With the forgery check passed, `error=access_denied` is decided as
/// denial: no authorization code is taken, so the token endpoint is never
/// contacted for this callback.
pub proof fn lemma_access_denied_is_denied(
    pairs: Seq<(Seq<char>, Seq<char>)>,
    expect: Seq<char>,
    d: CallbackDecision,
)
    requires
        spec_decision(pairs, expect, d),
        lookup_first(pairs, "state"@) matches Some(s) ==> s == expect,
        lookup_first(pairs, "error"@) == Some("access_denied"@),
    ensures
        d is Denied,
        !(d matches CallbackDecision::Code(_)),
{
}

} // verus!
