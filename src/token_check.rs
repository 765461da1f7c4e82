//! Offline token verification against the cached signing keys, and the
//! decisions around it: when to refresh the key set, when to retry, and
//! when to turn the request away.

use crate::middleware::AuthError;
use crate::sensor::CurrentUser;
use jsonwebtokens::Verifier;
use jsonwebtokens_cognito::KeySet;
use serde_json::Value;
use vstd::prelude::*;

verus! {

/// The provider's signing keys as jsonwebtokens_cognito caches them.
#[verifier::external_type_specification]
#[verifier::external_body]
pub struct ExKeySet(KeySet);

/// A jsonwebtokens claim checker, pinned to the pool's issuer, the app
/// client and access tokens.
#[verifier::external_type_specification]
#[verifier::external_body]
pub struct ExVerifier(Verifier);

/// The claims of a verified token, as serde_json parsed them.
#[verifier::external_type_specification]
#[verifier::external_body]
pub struct ExValue(Value);

/// How a check of a token against the cached keys failed, one variant for
/// each failure that the key set reports.
#[derive(Debug, Clone, Copy, PartialEq, Eq, Structural)]
pub enum VerifyFailure {
    /// The token header has no key id.
    NoKeyId,
    /// The signature does not validate.
    InvalidSignature,
    /// The token expired at this unix time.
    ExpiredAt(u64),
    /// Undecodable token, wrong algorithm, or a claim (issuer, client id,
    /// token use) that does not match.
    Malformed,
    /// The key set could not be fetched.
    Network,
    /// The token's key id is not in the cache.
    CacheMiss,
}

/// What the verification of one request learns next.
#[derive(Debug)]
pub enum VerifyEvent {
    /// A check against the cached keys: the user name claim of a token that
    /// verified (if it has one), or why it did not verify.
    Checked(Result<Option<String>, VerifyFailure>),
    /// A refresh of the key set finished; `true` if it succeeded.
    Refreshed(bool),
}

/// What the caller does next.
#[derive(Debug, Clone)]
pub enum VerifyAction {
    /// Attach this principal to the request.
    Accept(CurrentUser),
    /// Refresh the key set, then report how it went.
    Refresh,
    /// Check the token against the cache again.
    Retry,
    /// Turn the request away.
    Reject(AuthError),
}

/// Where the verification of one request stands.
#[derive(Debug, Clone, Copy, PartialEq, Eq, Structural)]
pub struct VerifySession {
    /// Whether this request has already asked for a refresh of the key set.
    pub refreshed: bool,
}

/// The rejection that a verification failure stands for.
pub open spec fn failure_error(f: VerifyFailure) -> AuthError {
    match f {
        VerifyFailure::NoKeyId => AuthError::UnknownSigningKey,
        VerifyFailure::InvalidSignature => AuthError::InvalidSignature,
        VerifyFailure::ExpiredAt(_) => AuthError::Expired,
        VerifyFailure::Malformed => AuthError::MalformedToken,
        VerifyFailure::Network => AuthError::KeyFetchError,
        VerifyFailure::CacheMiss => AuthError::UnknownSigningKey,
    }
}

/// One step of the verification of a request.
///
/// A verified token with a non-empty user name is accepted; one without is
/// rejected. The first cache miss asks for a refresh, a later one rejects
/// with `UnknownSigningKey`. A successful refresh asks for a retry, a failed
/// one rejects with `KeyFetchError`. Any other failure rejects at once.
pub open spec fn verify_step(s: VerifySession, e: VerifyEvent) -> (VerifySession, VerifyAction) {
    match e {
        VerifyEvent::Checked(Ok(Some(u))) => if u@.len() > 0 {
            (s, VerifyAction::Accept(CurrentUser { username: u }))
        } else {
            (s, VerifyAction::Reject(AuthError::MissingClaim))
        },
        VerifyEvent::Checked(Ok(None)) => (s, VerifyAction::Reject(AuthError::MissingClaim)),
        VerifyEvent::Checked(Err(f)) => if f == VerifyFailure::CacheMiss && !s.refreshed {
            (VerifySession { refreshed: true }, VerifyAction::Refresh)
        } else {
            (s, VerifyAction::Reject(failure_error(f)))
        },
        VerifyEvent::Refreshed(ok) => if ok {
            (s, VerifyAction::Retry)
        } else {
            (s, VerifyAction::Reject(AuthError::KeyFetchError))
        },
    }
}

impl VerifySession {
    /// A verification that has not refreshed the key set yet.
    pub fn new() -> (r: VerifySession)
        ensures
            !r.refreshed,
    {
        VerifySession { refreshed: false }
    }
}

/// Takes one step of the verification of a request.
pub fn next_verify_step(s: VerifySession, e: VerifyEvent) -> (r: (VerifySession, VerifyAction))
    ensures
        r == verify_step(s, e),
{
    match e {
        VerifyEvent::Checked(Ok(Some(u))) => {
            if u.unicode_len() > 0 {
                (s, VerifyAction::Accept(CurrentUser { username: u }))
            } else {
                (s, VerifyAction::Reject(AuthError::MissingClaim))
            }
        },
        VerifyEvent::Checked(Ok(None)) => (s, VerifyAction::Reject(AuthError::MissingClaim)),
        VerifyEvent::Checked(Err(f)) => {
            if f == VerifyFailure::CacheMiss && !s.refreshed {
                (VerifySession { refreshed: true }, VerifyAction::Refresh)
            } else {
                (s, VerifyAction::Reject(failure_error_of(f)))
            }
        },
        VerifyEvent::Refreshed(ok) => {
            if ok {
                (s, VerifyAction::Retry)
            } else {
                (s, VerifyAction::Reject(AuthError::KeyFetchError))
            }
        },
    }
}

/// Maps a verification failure to the rejection it stands for.
pub fn failure_error_of(f: VerifyFailure) -> (r: AuthError)
    ensures
        r == failure_error(f),
{
    match f {
        VerifyFailure::NoKeyId => AuthError::UnknownSigningKey,
        VerifyFailure::InvalidSignature => AuthError::InvalidSignature,
        VerifyFailure::ExpiredAt(_) => AuthError::Expired,
        VerifyFailure::Malformed => AuthError::MalformedToken,
        VerifyFailure::Network => AuthError::KeyFetchError,
        VerifyFailure::CacheMiss => AuthError::UnknownSigningKey,
    }
}

/// Number of refreshes that a run of events asks for, from state `s`.
pub open spec fn refreshes_in_run(s: VerifySession, events: Seq<VerifyEvent>) -> nat
    decreases events.len(),
{
    if events.len() == 0 {
        0
    } else {
        let (next, action) = verify_step(s, events[0]);
        (if action is Refresh {
            1nat
        } else {
            0nat
        }) + refreshes_in_run(next, events.drop_first())
    }
}

proof fn refreshes_bounded(s: VerifySession, events: Seq<VerifyEvent>)
    ensures
        refreshes_in_run(s, events) <= if s.refreshed {
            0nat
        } else {
            1nat
        },
    decreases events.len(),
{
    if events.len() > 0 {
        let (next, action) = verify_step(s, events[0]);
        refreshes_bounded(next, events.drop_first());
    }
}

/// Whatever the cache lookups and refreshes report, the verification of one
/// request asks for at most one refresh of the key set; and a cache miss
/// rejects the token only once that refresh has been asked for.
pub proof fn one_refresh_per_verification(events: Seq<VerifyEvent>, s: VerifySession)
    ensures
        refreshes_in_run(VerifySession { refreshed: false }, events) <= 1,
        verify_step(s, VerifyEvent::Checked(Err(VerifyFailure::CacheMiss))).1 is Reject
            ==> s.refreshed,
{
    refreshes_bounded(VerifySession { refreshed: false }, events);
}

/// A principal comes only from a token that verified: a step accepts only
/// on a successful check, and then with that token's non-empty user name.
pub proof fn principal_only_from_verified_token(s: VerifySession, e: VerifyEvent)
    ensures
        verify_step(s, e).1 is Accept ==> e == VerifyEvent::Checked(
            Ok(Some(verify_step(s, e).1->Accept_0.username)),
        ) && verify_step(s, e).1->Accept_0.username@.len() > 0,
{
}

/// Relies on jsonwebtokens_cognito::KeySet::try_verify: checks the token's
/// signature and claims against the cached keys without any network I/O,
/// returning the claims, or the error that is passed on variant by variant.
#[verifier::external_body]
fn try_verify_cached(keys: &KeySet, verifier: &Verifier, token: &str) -> (r: Result<
    Value,
    VerifyFailure,
>) {
    keys.try_verify(token, verifier).map_err(
        |e| match e {
            jsonwebtokens_cognito::Error::NoKeyID() => VerifyFailure::NoKeyId,
            jsonwebtokens_cognito::Error::InvalidSignature() => VerifyFailure::InvalidSignature,
            jsonwebtokens_cognito::Error::TokenExpiredAt(t) => VerifyFailure::ExpiredAt(t),
            jsonwebtokens_cognito::Error::NetworkError(_) => VerifyFailure::Network,
            jsonwebtokens_cognito::Error::CacheMiss(_) => VerifyFailure::CacheMiss,
            jsonwebtokens_cognito::Error::MalformedToken(_) => VerifyFailure::Malformed,
            _ => VerifyFailure::Malformed,
        },
    )
}

/// Relies on serde_json::Value::get and Value::as_str: the string member
/// `name` of a JSON object, if it has one.
#[verifier::external_body]
fn string_member(v: &Value, name: &str) -> (r: Option<String>) {
    v.get(name).and_then(|m| m.as_str()).map(|s| s.to_string())
}

/// Checks `token` against the cached keys and reads the user name claim of
/// a token that verified.
pub fn check_token(keys: &KeySet, verifier: &Verifier, token: &str) -> (r: VerifyEvent)
    ensures
        r is Checked,
{
    match try_verify_cached(keys, verifier, token) {
        Ok(claims) => VerifyEvent::Checked(Ok(string_member(&claims, "username"))),
        Err(f) => VerifyEvent::Checked(Err(f)),
    }
}

} // verus!
