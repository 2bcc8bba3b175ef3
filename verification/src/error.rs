//! The error taxonomy of the authorization flow.

use vstd::prelude::*;
use vstd::string::StringExecFns;

use crate::resource::{
    ACCESS_DENIED_MSG, BUG_REPORT, CROSS_SITE_REQUEST_FORGERY_MSG, INVALID_RESPONSE_JSON_MSG,
    IO_ERROR_MSG, REFRESH_FAILED_MSG, TOKEN_REQUEST_ERROR_MSG, UNAUTHORIZED_MSG, UNKNOWN_MSG,
};

verus! {

/// Why a step of the authorization or refresh flow failed. Every variant is
/// terminal for the attempt it arose in; `RefreshFailed` additionally signals
/// the caller to fall back to a full authorization, and `Unauthorized`
/// signals it to attempt a refresh.
#[derive(Debug, Clone, PartialEq, Eq)]
pub enum MyError {
    /// The callback's `state` did not match the one generated for this attempt.
    CrossSiteRequestForgery,
    /// The token endpoint answered the code exchange with a JSON `error`
    /// field; the payload is the response body.
    TokenRequestError(String),
    /// The user declined consent at the provider's authorization page.
    AccessDenied,
    /// The token endpoint rejected the refresh grant.
    RefreshFailed,
    /// The resource API rejected the access token.
    Unauthorized,
    /// The token endpoint's answer could not be read as the expected JSON;
    /// the payload describes what was received.
    InvalidResponseJson(String),
    /// A local I/O step (listener bind, response write) failed.
    Io(String),
    /// The provider reported an error value this crate does not recognize;
    /// the payload is that value.
    Unknown(String),
}

impl MyError {
    /// The user-facing text for this error, as shown by the desktop UI.
    pub open spec fn spec_message(&self) -> Seq<char> {
        match self {
            MyError::CrossSiteRequestForgery => CROSS_SITE_REQUEST_FORGERY_MSG@,
            MyError::TokenRequestError(e) => {
                TOKEN_REQUEST_ERROR_MSG@ + "\n"@ + BUG_REPORT@ + "\n\n"@ + e@
            },
            MyError::AccessDenied => ACCESS_DENIED_MSG@,
            MyError::RefreshFailed => REFRESH_FAILED_MSG@,
            MyError::Unauthorized => UNAUTHORIZED_MSG@,
            MyError::InvalidResponseJson(e) => {
                INVALID_RESPONSE_JSON_MSG@ + "\n"@ + BUG_REPORT@ + "\n\n"@ + e@
            },
            MyError::Io(e) => IO_ERROR_MSG@ + "\n"@ + e@,
            MyError::Unknown(e) => UNKNOWN_MSG@ + "\n"@ + BUG_REPORT@ + "\n\n"@ + e@,
        }
    }

    /// Renders the error as its user-facing message.
    pub fn message(&self) -> (r: String)
        ensures
            r@ == self.spec_message(),
    {
        match self {
            MyError::CrossSiteRequestForgery => String::from_str(CROSS_SITE_REQUEST_FORGERY_MSG),
            MyError::TokenRequestError(e) => {
                let mut s = String::from_str(TOKEN_REQUEST_ERROR_MSG);
                s.append("\n");
                s.append(BUG_REPORT);
                s.append("\n\n");
                s.append(e.as_str());
                s
            },
            MyError::AccessDenied => String::from_str(ACCESS_DENIED_MSG),
            MyError::RefreshFailed => String::from_str(REFRESH_FAILED_MSG),
            MyError::Unauthorized => String::from_str(UNAUTHORIZED_MSG),
            MyError::InvalidResponseJson(e) => {
                let mut s = String::from_str(INVALID_RESPONSE_JSON_MSG);
                s.append("\n");
                s.append(BUG_REPORT);
                s.append("\n\n");
                s.append(e.as_str());
                s
            },
            MyError::Io(e) => {
                let mut s = String::from_str(IO_ERROR_MSG);
                s.append("\n");
                s.append(e.as_str());
                s
            },
            MyError::Unknown(e) => {
                let mut s = String::from_str(UNKNOWN_MSG);
                s.append("\n");
                s.append(BUG_REPORT);
                s.append("\n\n");
                s.append(e.as_str());
                s
            },
        }
    }
}

} // verus!
