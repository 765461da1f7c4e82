use my_rest_api::key_refresh::{KeyRefreshGate, RefreshTicket};
use my_rest_api::middleware::{extract_bearer_token, is_compact_token_text, AuthError};
use my_rest_api::token_check::{
    check_token, failure_error_of, next_verify_step, VerifyAction, VerifyEvent, VerifyFailure,
    VerifySession,
};

#[test]
fn missing_header_is_rejected_before_any_work() {
    assert_eq!(extract_bearer_token(None), Err(AuthError::MissingCredential));
}

#[test]
fn header_must_use_bearer_scheme() {
    assert_eq!(extract_bearer_token(Some("Basic a.b.c")), Err(AuthError::MalformedCredential));
    assert_eq!(extract_bearer_token(Some("Bearer ")), Err(AuthError::MalformedCredential));
    assert_eq!(extract_bearer_token(Some("a.b.c")), Err(AuthError::MalformedCredential));
    assert_eq!(extract_bearer_token(Some("")), Err(AuthError::MalformedCredential));
}

#[test]
fn bearer_credential_must_be_compact_token() {
    assert_eq!(extract_bearer_token(Some("Bearer a.b.c")), Ok("a.b.c".to_string()));
    assert_eq!(extract_bearer_token(Some("Bearer abc")), Err(AuthError::MalformedToken));
    assert_eq!(extract_bearer_token(Some("Bearer a..c")), Err(AuthError::MalformedToken));
    assert_eq!(extract_bearer_token(Some("Bearer a.b.c.d")), Err(AuthError::MalformedToken));
    assert_eq!(extract_bearer_token(Some("Bearer a.b c.d")), Err(AuthError::MalformedToken));
    assert_eq!(extract_bearer_token(Some("Bearer .b.c")), Err(AuthError::MalformedToken));
}

#[test]
fn compact_token_shape() {
    assert!(is_compact_token_text("eyJhbGciOiJSUzI1NiJ9.eyJzdWIiOiJ4In0.c2ln-_"));
    assert!(!is_compact_token_text(""));
    assert!(!is_compact_token_text("a.b."));
    assert!(!is_compact_token_text("a.b=.c"));
    assert!(!is_compact_token_text("a.b.c."));
}

#[test]
fn verified_token_with_username_is_accepted() {
    let (_, action) = next_verify_step(
        VerifySession::new(),
        VerifyEvent::Checked(Ok(Some("alice".to_string()))),
    );
    match action {
        VerifyAction::Accept(u) => assert_eq!(u.username, "alice"),
        other => panic!("unexpected {:?}", other),
    }
}

#[test]
fn verified_token_without_username_is_rejected() {
    let (_, a) = next_verify_step(VerifySession::new(), VerifyEvent::Checked(Ok(None)));
    assert!(matches!(a, VerifyAction::Reject(AuthError::MissingClaim)));
    let (_, b) =
        next_verify_step(VerifySession::new(), VerifyEvent::Checked(Ok(Some(String::new()))));
    assert!(matches!(b, VerifyAction::Reject(AuthError::MissingClaim)));
}

#[test]
fn each_failure_gives_its_error_kind() {
    for (f, e) in [
        (VerifyFailure::InvalidSignature, AuthError::InvalidSignature),
        (VerifyFailure::ExpiredAt(1_700_000_000), AuthError::Expired),
        (VerifyFailure::Malformed, AuthError::MalformedToken),
        (VerifyFailure::NoKeyId, AuthError::UnknownSigningKey),
        (VerifyFailure::Network, AuthError::KeyFetchError),
    ] {
        assert_eq!(failure_error_of(f), e);
        let (s, a) = next_verify_step(VerifySession::new(), VerifyEvent::Checked(Err(f)));
        assert!(!s.refreshed);
        match a {
            VerifyAction::Reject(got) => assert_eq!(got, e),
            other => panic!("unexpected {:?}", other),
        }
    }
}

#[test]
fn unknown_key_refreshes_once_then_fails() {
    let s0 = VerifySession::new();
    let (s1, a1) = next_verify_step(s0, VerifyEvent::Checked(Err(VerifyFailure::CacheMiss)));
    assert!(matches!(a1, VerifyAction::Refresh));
    assert!(s1.refreshed);
    let (s2, a2) = next_verify_step(s1, VerifyEvent::Refreshed(true));
    assert!(matches!(a2, VerifyAction::Retry));
    let (_, a3) = next_verify_step(s2, VerifyEvent::Checked(Err(VerifyFailure::CacheMiss)));
    assert!(matches!(a3, VerifyAction::Reject(AuthError::UnknownSigningKey)));
}

#[test]
fn failed_refresh_rejects_with_key_fetch_error() {
    let (s1, _) =
        next_verify_step(VerifySession::new(), VerifyEvent::Checked(Err(VerifyFailure::CacheMiss)));
    let (_, a) = next_verify_step(s1, VerifyEvent::Refreshed(false));
    assert!(matches!(a, VerifyAction::Reject(AuthError::KeyFetchError)));
}

#[test]
fn burst_of_refresh_requests_fetches_once() {
    let mut g = KeyRefreshGate::new(3600);
    let mut fetches = 0;
    for _ in 0..50 {
        if g.begin_refresh() == RefreshTicket::Fetch {
            fetches += 1;
        }
    }
    assert_eq!(fetches, 1);
    g.finish_refresh(1000, true);
    assert!(!g.in_flight);
    assert_eq!(g.last_fetch, Some(1000));
    assert_eq!(g.begin_refresh(), RefreshTicket::Fetch);
}

#[test]
fn key_set_staleness_follows_ttl() {
    let mut g = KeyRefreshGate::new(60);
    assert!(g.is_stale(0));
    g.begin_refresh();
    g.finish_refresh(100, true);
    assert!(!g.is_stale(100));
    assert!(!g.is_stale(159));
    assert!(g.is_stale(160));
    g.begin_refresh();
    g.finish_refresh(500, false);
    assert_eq!(g.last_fetch, Some(100));
}

#[test]
fn token_with_uncached_key_is_a_cache_miss() {
    let keys = jsonwebtokens_cognito::KeySet::new("us-east-1", "us-east-1_pool").unwrap();
    let verifier = keys.new_access_token_verifier(&["client123"]).build().unwrap();
    let token = "eyJhbGciOiJSUzI1NiIsImtpZCI6ImsxIn0.eyJzdWIiOiJ4IiwidXNlcm5hbWUiOiJhbGljZSJ9.c2ln";
    match check_token(&keys, &verifier, token) {
        VerifyEvent::Checked(Err(f)) => assert_eq!(f, VerifyFailure::CacheMiss),
        other => panic!("unexpected {:?}", other),
    }
    match check_token(&keys, &verifier, "bm90anNvbg.eA.eA") {
        VerifyEvent::Checked(Err(f)) => assert_eq!(f, VerifyFailure::Malformed),
        other => panic!("unexpected {:?}", other),
    }
}
