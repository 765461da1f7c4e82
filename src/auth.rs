//! The credential lifecycle: what is sent to the identity provider for
//! register, confirm, sign-in and sign-out, and how its answers become one
//! uniform outcome with an HTTP status.

use crate::middleware::{extract_bearer_token, extracted_credential, header_view};
use crate::secret_hash::{generate_secret_hash, secret_hash_of};
use crate::sensor::TokenInformation;
use vstd::prelude::*;

verus! {

/// The app client that every provider call is made for. Loaded once at
/// startup and read-only afterwards.
#[derive(Debug, Clone)]
pub struct ClientConfig {
    pub client_id: String,
    /// The confidential client secret, where the app client has one.
    pub client_secret: Option<String>,
}

impl ClientConfig {
    /// The secret hash to send with a call for `username`: none where the app
    /// client has no secret.
    pub fn secret_hash(&self, username: &str) -> (r: Option<String>)
        ensures
            match self.client_secret {
                None => r is None,
                Some(s) => r is Some && r->0@ == secret_hash_of(s@, username@, self.client_id@),
            },
    {
        match &self.client_secret {
            None => None,
            Some(s) => Some(generate_secret_hash(s.as_str(), username, self.client_id.as_str())),
        }
    }
}

/// Why a provider call did not succeed.
#[derive(Debug, Clone)]
pub enum ProviderFailure {
    /// The provider answered and refused, with its message.
    Rejected(String),
    /// The provider could not be reached in time, with a description.
    Unavailable(String),
}

/// The kind of a failed operation.
#[derive(Debug, Clone, Copy, PartialEq, Eq, Structural)]
pub enum AuthFailure {
    RegistrationRejected,
    ConfirmationRejected,
    AuthenticationRejected,
    SignOutRejected,
    ProviderUnavailable,
    MissingCredential,
}

/// The outcome of one authenticator operation.
#[derive(Debug, Clone)]
pub enum AuthOutcome {
    /// Registration went through; `confirmed` if the provider confirmed the
    /// user at once, else a one-time code is on its way.
    Registered { confirmed: bool },
    /// The one-time code was accepted.
    Confirmed,
    /// Sign-in succeeded with these tokens, as the provider issued them.
    SignedIn(TokenInformation),
    /// Every session of the token's owner was revoked.
    SignedOut,
    /// The operation failed, with a message that is safe to relay.
    Failed(AuthFailure, String),
}

/// The failure outcome of a provider call, where `rejected` is the kind of a
/// refusal.
pub open spec fn failure_outcome(rejected: AuthFailure, f: ProviderFailure) -> AuthOutcome {
    match f {
        ProviderFailure::Rejected(d) => AuthOutcome::Failed(rejected, d),
        ProviderFailure::Unavailable(d) => AuthOutcome::Failed(AuthFailure::ProviderUnavailable, d),
    }
}

fn failure_outcome_of(rejected: AuthFailure, f: ProviderFailure) -> (r: AuthOutcome)
    ensures
        r == failure_outcome(rejected, f),
{
    match f {
        ProviderFailure::Rejected(d) => AuthOutcome::Failed(rejected, d),
        ProviderFailure::Unavailable(d) => AuthOutcome::Failed(AuthFailure::ProviderUnavailable, d),
    }
}

/// Outcome of a registration, from the provider's answer: whether it
/// confirmed the user at once, or why it failed.
pub fn sign_up_outcome(answer: Result<bool, ProviderFailure>) -> (r: AuthOutcome)
    ensures
        r == match answer {
            Ok(c) => AuthOutcome::Registered { confirmed: c },
            Err(f) => failure_outcome(AuthFailure::RegistrationRejected, f),
        },
{
    match answer {
        Ok(c) => AuthOutcome::Registered { confirmed: c },
        Err(f) => failure_outcome_of(AuthFailure::RegistrationRejected, f),
    }
}

/// Outcome of a confirmation, from the provider's answer. A refused code,
/// also one that was used before, is a `ConfirmationRejected` failure.
pub fn confirm_sign_up_outcome(answer: Result<(), ProviderFailure>) -> (r: AuthOutcome)
    ensures
        r == match answer {
            Ok(_) => AuthOutcome::Confirmed,
            Err(f) => failure_outcome(AuthFailure::ConfirmationRejected, f),
        },
{
    match answer {
        Ok(_) => AuthOutcome::Confirmed,
        Err(f) => failure_outcome_of(AuthFailure::ConfirmationRejected, f),
    }
}

/// Message of a sign-in that the provider accepted without issuing tokens
/// (it asked for a further challenge instead).
pub open spec fn no_tokens_message() -> Seq<char> {
    "The identity provider issued no session tokens."@
}

/// Outcome of a sign-in, from the id, access and refresh tokens that the
/// provider returned, or from why it failed. The tokens pass through
/// unchanged; an answer that lacks any of them is a rejection.
pub fn sign_in_outcome(
    answer: Result<(Option<String>, Option<String>, Option<String>), ProviderFailure>,
) -> (r: AuthOutcome)
    ensures
        match answer {
            Ok((Some(id), Some(access), Some(refresh))) => r == AuthOutcome::SignedIn(
                (TokenInformation { id_token: id, access_token: access, refesh_token: refresh }),
            ),
            Ok(_) => r matches AuthOutcome::Failed(k, d) && k == AuthFailure::AuthenticationRejected
                && d@ == no_tokens_message(),
            Err(f) => r == failure_outcome(AuthFailure::AuthenticationRejected, f),
        },
{
    match answer {
        Ok((Some(id), Some(access), Some(refresh))) => AuthOutcome::SignedIn(
            TokenInformation { id_token: id, access_token: access, refesh_token: refresh },
        ),
        Ok(_) => {
            let d = "The identity provider issued no session tokens.".to_owned();
            AuthOutcome::Failed(AuthFailure::AuthenticationRejected, d)
        },
        Err(f) => failure_outcome_of(AuthFailure::AuthenticationRejected, f),
    }
}

/// Message of a sign-out refused locally for want of a bearer credential.
pub open spec fn missing_credential_message() -> Seq<char> {
    "Missing or malformed Authorization header."@
}

/// The access token to revoke, taken from the Authorization header of a
/// sign-out request. Without a usable bearer credential the sign-out fails
/// locally with `MissingCredential` and the provider is not called.
pub fn sign_out_token(header: Option<&str>) -> (r: Result<String, AuthOutcome>)
    ensures
        match extracted_credential(header_view(header)) {
            Ok(t) => r matches Ok(s) && s@ == t,
            Err(_) => r matches Err(AuthOutcome::Failed(k, d)) && k == AuthFailure::MissingCredential
                && d@ == missing_credential_message(),
        },
{
    match extract_bearer_token(header) {
        Ok(t) => Ok(t),
        Err(_) => {
            let d = "Missing or malformed Authorization header.".to_owned();
            Err(AuthOutcome::Failed(AuthFailure::MissingCredential, d))
        },
    }
}

/// Outcome of a global sign-out, from the provider's answer.
pub fn sign_out_outcome(answer: Result<(), ProviderFailure>) -> (r: AuthOutcome)
    ensures
        r == match answer {
            Ok(_) => AuthOutcome::SignedOut,
            Err(f) => failure_outcome(AuthFailure::SignOutRejected, f),
        },
{
    match answer {
        Ok(_) => AuthOutcome::SignedOut,
        Err(f) => failure_outcome_of(AuthFailure::SignOutRejected, f),
    }
}

/// The HTTP status that answers an outcome.
pub open spec fn status_of(o: AuthOutcome) -> u16 {
    match o {
        AuthOutcome::Registered { .. } => 201,
        AuthOutcome::Confirmed => 200,
        AuthOutcome::SignedIn(_) => 200,
        AuthOutcome::SignedOut => 200,
        AuthOutcome::Failed(k, _) => match k {
            AuthFailure::RegistrationRejected => 400,
            AuthFailure::ConfirmationRejected => 200,
            AuthFailure::AuthenticationRejected => 401,
            AuthFailure::SignOutRejected => 200,
            AuthFailure::ProviderUnavailable => 503,
            AuthFailure::MissingCredential => 401,
        },
    }
}

impl AuthOutcome {
    /// Whether the operation succeeded.
    pub fn is_success(&self) -> (r: bool)
        ensures
            r == !(self is Failed),
    {
        !matches!(self, AuthOutcome::Failed(_, _))
    }

    /// The HTTP status that answers this outcome.
    pub fn http_status(&self) -> (r: u16)
        ensures
            r == status_of(*self),
    {
        match self {
            AuthOutcome::Registered { .. } => 201,
            AuthOutcome::Confirmed => 200,
            AuthOutcome::SignedIn(_) => 200,
            AuthOutcome::SignedOut => 200,
            AuthOutcome::Failed(k, _) => match k {
                AuthFailure::RegistrationRejected => 400,
                AuthFailure::ConfirmationRejected => 200,
                AuthFailure::AuthenticationRejected => 401,
                AuthFailure::SignOutRejected => 200,
                AuthFailure::ProviderUnavailable => 503,
                AuthFailure::MissingCredential => 401,
            },
        }
    }

    /// The message that goes with this outcome: the provider's own for a
    /// failure, a fixed one for each success, empty for a sign-in, whose
    /// body is the tokens.
    pub fn message(&self) -> (r: String)
        ensures
            match *self {
                AuthOutcome::Registered { confirmed } => r@ == if confirmed {
                    "user confirmed succesfully."@
                } else {
                    "User requires confirmation. Check email for a verification code."@
                },
                AuthOutcome::Confirmed => r@ == "User is confirmed and ready to use."@,
                AuthOutcome::SignedIn(_) => r@.len() == 0,
                AuthOutcome::SignedOut => r@ == "User is logged out"@,
                AuthOutcome::Failed(_, d) => r@ == d@,
            },
    {
        match self {
            AuthOutcome::Registered { confirmed } => if *confirmed {
                "user confirmed succesfully.".to_owned()
            } else {
                "User requires confirmation. Check email for a verification code.".to_owned()
            },
            AuthOutcome::Confirmed => "User is confirmed and ready to use.".to_owned(),
            AuthOutcome::SignedIn(_) => String::new(),
            AuthOutcome::SignedOut => "User is logged out".to_owned(),
            AuthOutcome::Failed(_, d) => d.clone(),
        }
    }
}

/// Where a user stands in the credential lifecycle, as this service has
/// seen it from the provider's answers.
#[derive(Debug, Clone, Copy, PartialEq, Eq, Structural)]
pub enum AccountPhase {
    Unregistered,
    PendingConfirmation,
    Confirmed,
    SignedIn,
    SignedOut,
}

/// The phase after an outcome. Only a registration leaves `Unregistered`,
/// only an accepted code leaves `PendingConfirmation`, sign-in needs a
/// confirmed user, sign-out a signed-in one, and a failure changes nothing.
pub open spec fn phase_after(p: AccountPhase, o: AuthOutcome) -> AccountPhase {
    match (p, o) {
        (AccountPhase::Unregistered, AuthOutcome::Registered { confirmed }) => if confirmed {
            AccountPhase::Confirmed
        } else {
            AccountPhase::PendingConfirmation
        },
        (AccountPhase::PendingConfirmation, AuthOutcome::Confirmed) => AccountPhase::Confirmed,
        (AccountPhase::Confirmed, AuthOutcome::SignedIn(_)) => AccountPhase::SignedIn,
        (AccountPhase::SignedOut, AuthOutcome::SignedIn(_)) => AccountPhase::SignedIn,
        (AccountPhase::SignedIn, AuthOutcome::SignedIn(_)) => AccountPhase::SignedIn,
        (AccountPhase::SignedIn, AuthOutcome::SignedOut) => AccountPhase::SignedOut,
        _ => p,
    }
}

impl AccountPhase {
    /// The phase after `o`.
    pub fn advance(self, o: &AuthOutcome) -> (r: AccountPhase)
        ensures
            r == phase_after(self, *o),
    {
        match (self, o) {
            (AccountPhase::Unregistered, AuthOutcome::Registered { confirmed }) => if *confirmed {
                AccountPhase::Confirmed
            } else {
                AccountPhase::PendingConfirmation
            },
            (AccountPhase::PendingConfirmation, AuthOutcome::Confirmed) => AccountPhase::Confirmed,
            (AccountPhase::Confirmed, AuthOutcome::SignedIn(_)) => AccountPhase::SignedIn,
            (AccountPhase::SignedOut, AuthOutcome::SignedIn(_)) => AccountPhase::SignedIn,
            (AccountPhase::SignedIn, AuthOutcome::SignedIn(_)) => AccountPhase::SignedIn,
            (AccountPhase::SignedIn, AuthOutcome::SignedOut) => AccountPhase::SignedOut,
            _ => self,
        }
    }
}

/// A confirmation code works once: a refused confirmation is always a
/// failure and leaves the phase as it was, and once a user is confirmed no
/// later confirmation moves the phase again.
pub proof fn confirmation_is_single_use(p: AccountPhase, f: ProviderFailure)
    ensures
        failure_outcome(AuthFailure::ConfirmationRejected, f) is Failed,
        phase_after(p, failure_outcome(AuthFailure::ConfirmationRejected, f)) == p,
        p != AccountPhase::Unregistered && p != AccountPhase::PendingConfirmation ==> phase_after(
            p,
            AuthOutcome::Confirmed,
        ) == p,
{
}

/// A failed operation never changes where a user stands.
pub proof fn failure_keeps_phase(p: AccountPhase, k: AuthFailure, d: String)
    ensures
        phase_after(p, AuthOutcome::Failed(k, d)) == p,
{
}

} // verus!
