use snipsnap::auth::{AuthFlow, FlowPhase, StepAction};
use snipsnap::pkce::{challenge_of_verifier, PkceMaterial};
use snipsnap::resource::{DENIED_ACCESS, SET_UP, SNEAKY_WINK};
use snipsnap::MyError;

fn material() -> PkceMaterial {
    let verifier = "A".repeat(124);
    let challenge = challenge_of_verifier(&verifier);
    PkceMaterial { state: "teststate1".to_string(), verifier, challenge }
}

fn flow() -> AuthFlow {
    AuthFlow::new(material())
}

fn awaiting_flow() -> AuthFlow {
    let mut f = flow();
    match f.on_request(true, "/snipsnap") {
        StepAction::Redirect(_) => {}
        _ => panic!("expected a redirect on the bare visit"),
    }
    assert_eq!(f.phase, FlowPhase::AwaitingCallback);
    f
}

#[test]
fn bare_visit_redirects_to_authorization_url() {
    let mut f = flow();
    let a = f.on_request(true, "/snipsnap");
    match a {
        StepAction::Redirect(loc) => {
            assert!(loc.starts_with("https://accounts.spotify.com/authorize?response_type=code"));
            assert!(loc.contains("&client_id=9b4c0a0ae4a54117b5201c2beb15361f"));
            assert!(loc.contains("&redirect_uri=http%3A%2F%2Flocalhost%3A44554%2Fsnipsnap"));
            assert!(loc.contains("&code_challenge_method=S256"));
            assert!(loc.contains(&format!("&code_challenge={}", f.material.challenge)));
            assert!(loc.contains("&scope=user-read-currently-playing"));
            assert!(loc.contains("&state=teststate1"));
            assert!(!loc.contains(&f.material.verifier[..40]));
        }
        _ => panic!("expected a redirect"),
    }
    assert_eq!(f.phase, FlowPhase::AwaitingCallback);
}

#[test]
fn state_round_trip_passes_validation() {
    let mut f = awaiting_flow();
    let a = f.on_request(true, "/snipsnap?state=teststate1&code=XYZ");
    assert!(matches!(a, StepAction::Exchange(_)));
    assert_eq!(f.phase, FlowPhase::Exchanging);
}

#[test]
fn percent_encoded_state_is_decoded_before_comparison() {
    let mut f = awaiting_flow();
    let a = f.on_request(true, "/snipsnap?state=te%73tstate1&code=XYZ");
    assert!(matches!(a, StepAction::Exchange(_)));
}

#[test]
fn mismatching_state_is_forgery() {
    let mut f = awaiting_flow();
    let a = f.on_request(true, "/snipsnap?state=evilstate0&code=XYZ");
    match a {
        StepAction::Fail(body, e) => {
            assert_eq!(e, MyError::CrossSiteRequestForgery);
            assert_eq!(body, e.message());
        }
        _ => panic!("expected failure"),
    }
    assert_eq!(f.phase, FlowPhase::Done);
}

#[test]
fn forgery_takes_precedence_over_access_denied() {
    let mut f = awaiting_flow();
    let a = f.on_request(true, "/snipsnap?state=evilstate0&error=access_denied");
    match a {
        StepAction::Fail(_, e) => assert_eq!(e, MyError::CrossSiteRequestForgery),
        _ => panic!("expected failure"),
    }
}

#[test]
fn access_denied_with_correct_state_is_denied() {
    let mut f = awaiting_flow();
    let a = f.on_request(true, "/snipsnap?state=teststate1&error=access_denied");
    match a {
        StepAction::Fail(body, e) => {
            assert_eq!(e, MyError::AccessDenied);
            assert_eq!(body, DENIED_ACCESS);
        }
        _ => panic!("expected failure"),
    }
    assert_eq!(f.phase, FlowPhase::Done);
}

#[test]
fn other_error_value_is_unknown_with_detail() {
    let mut f = awaiting_flow();
    let a = f.on_request(true, "/snipsnap?state=teststate1&error=server_error");
    match a {
        StepAction::Fail(body, e) => {
            assert_eq!(e, MyError::Unknown("server_error".to_string()));
            assert_eq!(body, e.message());
        }
        _ => panic!("expected failure"),
    }
}

#[test]
fn absent_state_skips_the_forgery_check() {
    let mut f = awaiting_flow();
    let a = f.on_request(true, "/snipsnap?error=access_denied");
    match a {
        StepAction::Fail(_, e) => assert_eq!(e, MyError::AccessDenied),
        _ => panic!("expected failure"),
    }
}

#[test]
fn callback_without_code_or_error_is_unknown() {
    let mut f = awaiting_flow();
    let a = f.on_request(true, "/snipsnap?state=teststate1");
    match a {
        StepAction::Fail(_, e) => match e {
            MyError::Unknown(_) => {}
            other => panic!("unexpected error {:?}", other),
        },
        _ => panic!("expected failure"),
    }
}

#[test]
fn happy_path_exchanges_exactly_once() {
    let mut f = awaiting_flow();
    let verifier = f.material.verifier.clone();
    let a = f.on_request(true, "/snipsnap?state=teststate1&code=XYZ");
    let url = match a {
        StepAction::Exchange(url) => url,
        _ => panic!("expected an exchange"),
    };
    assert_eq!(
        url,
        format!(
            "https://accounts.spotify.com/api/token?client_id=9b4c0a0ae4a54117b5201c2beb15361f&grant_type=authorization_code&code=XYZ&redirect_uri=http%3A%2F%2Flocalhost%3A44554%2Fsnipsnap&code_verifier={}",
            verifier
        )
    );
    let (body, outcome) = f.on_exchange_response(Ok(r#"{"access_token":"a","refresh_token":"b"}"#));
    assert_eq!(body, SET_UP);
    let auth = outcome.expect("expected a credential");
    assert_eq!(auth.access_token, "a");
    assert_eq!(auth.refresh_token, "b");
    assert_eq!(f.phase, FlowPhase::Done);
    // no second exchange: every further request is answered inertly
    let again = f.on_request(true, "/snipsnap?state=teststate1&code=XYZ");
    match again {
        StepAction::Respond(b) => assert_eq!(b, SNEAKY_WINK),
        _ => panic!("expected the placeholder"),
    }
}

#[test]
fn terminal_flow_is_inert() {
    let mut f = awaiting_flow();
    let _ = f.on_request(true, "/snipsnap?state=teststate1&error=access_denied");
    assert_eq!(f.phase, FlowPhase::Done);
    for url in ["/snipsnap", "/snipsnap?state=teststate1&code=XYZ", "/other"] {
        match f.on_request(true, url) {
            StepAction::Respond(b) => assert_eq!(b, SNEAKY_WINK),
            _ => panic!("expected the placeholder"),
        }
        assert_eq!(f.phase, FlowPhase::Done);
    }
}

#[test]
fn unrelated_requests_do_not_disturb_the_flow() {
    let mut f = flow();
    match f.on_request(true, "/favicon.ico") {
        StepAction::Respond(b) => assert_eq!(b, SNEAKY_WINK),
        _ => panic!("expected the placeholder"),
    }
    match f.on_request(false, "/snipsnap") {
        StepAction::Respond(b) => assert_eq!(b, SNEAKY_WINK),
        _ => panic!("expected the placeholder"),
    }
    assert_eq!(f.phase, FlowPhase::Init);
    // the flow still works afterwards
    assert!(matches!(f.on_request(true, "/snipsnap"), StepAction::Redirect(_)));
}

#[test]
fn exchange_failure_surfaces_the_token_error() {
    let mut f = awaiting_flow();
    let _ = f.on_request(true, "/snipsnap?state=teststate1&code=XYZ");
    let body = r#"{"error":"invalid_grant"}"#;
    let (msg, outcome) = f.on_exchange_response(Ok(body));
    match outcome {
        Err(MyError::TokenRequestError(d)) => {
            assert_eq!(d, body);
            assert_eq!(msg, MyError::TokenRequestError(d).message());
        }
        other => panic!("unexpected outcome {:?}", other),
    }
    assert_eq!(f.phase, FlowPhase::Done);
}
