//! Request screening: the bearer credential is taken from the Authorization
//! header and checked for shape before any key lookup or signature work.

use vstd::prelude::*;

verus! {

/// Why a protected request is turned away. The HTTP layer answers every one
/// of them with the same 401, whatever the kind.
#[derive(Debug, Clone, Copy, PartialEq, Eq, Structural)]
pub enum AuthError {
    /// No Authorization header.
    MissingCredential,
    /// The header does not read `Bearer <token>`.
    MalformedCredential,
    /// The token is not three non-empty base64url segments joined by dots,
    /// or the verifier could not decode or validate its header or claims.
    MalformedToken,
    /// The token names no key id, or one that is absent after a refresh.
    UnknownSigningKey,
    /// The signature does not validate against the resolved key.
    InvalidSignature,
    /// The token's expiry lies in the past.
    Expired,
    /// The key set could not be fetched.
    KeyFetchError,
    /// The token verified but carries no user name.
    MissingClaim,
}

/// The scheme word and the space that follows it.
pub open spec fn bearer_prefix() -> Seq<char> {
    seq!['B', 'e', 'a', 'r', 'e', 'r', ' ']
}

/// The credential of an Authorization header value, if it reads
/// `Bearer <credential>` with a non-empty credential.
pub open spec fn bearer_credential_of(h: Seq<char>) -> Option<Seq<char>> {
    if h.len() > 7 && h.subrange(0, 7) == bearer_prefix() {
        Some(h.subrange(7, h.len() as int))
    } else {
        None
    }
}

/// A character of a base64url segment, or the dot between segments.
pub open spec fn is_token_char(c: char) -> bool {
    ('A' <= c && c <= 'Z') || ('a' <= c && c <= 'z') || ('0' <= c && c <= '9') || c == '-'
        || c == '_' || c == '.'
}

/// Number of dots in `t`.
pub open spec fn dots_in(t: Seq<char>) -> nat
    decreases t.len(),
{
    if t.len() == 0 {
        0
    } else {
        dots_in(t.drop_last()) + if t.last() == '.' {
            1nat
        } else {
            0nat
        }
    }
}

/// `t` has the compact shape `header.claims.signature`: three non-empty
/// base64url segments joined by two dots.
pub open spec fn is_compact_token(t: Seq<char>) -> bool {
    &&& t.len() > 0
    &&& forall|i: int| 0 <= i < t.len() ==> is_token_char(#[trigger] t[i])
    &&& dots_in(t) == 2
    &&& t[0] != '.'
    &&& t.last() != '.'
    &&& forall|i: int| 0 <= i < t.len() - 1 ==> !(#[trigger] t[i] == '.' && t[i + 1] == '.')
}

/// The result of reading the Authorization header: the credential to
/// verify, or the reason to reject the request at once.
pub open spec fn extracted_credential(header: Option<Seq<char>>) -> Result<Seq<char>, AuthError> {
    match header {
        None => Err(AuthError::MissingCredential),
        Some(h) => match bearer_credential_of(h) {
            None => Err(AuthError::MalformedCredential),
            Some(t) => if is_compact_token(t) {
                Ok(t)
            } else {
                Err(AuthError::MalformedToken)
            },
        },
    }
}

/// The text of a header value, if there is one.
pub open spec fn header_view(header: Option<&str>) -> Option<Seq<char>> {
    match header {
        Some(h) => Some(h@),
        None => None,
    }
}

/// Only a credential of the compact token shape is handed on to
/// verification, and without a header the request is refused as lacking a
/// credential.
pub proof fn only_compact_tokens_pass(header: Option<Seq<char>>)
    ensures
        extracted_credential(header) is Ok ==> is_compact_token(extracted_credential(header)->Ok_0),
        header is None ==> extracted_credential(header) == Err::<Seq<char>, AuthError>(
            AuthError::MissingCredential,
        ),
{
}

/// Decides whether `t` has the compact token shape.
pub fn is_compact_token_text(t: &str) -> (r: bool)
    ensures
        r == is_compact_token(t@),
{
    let n = t.unicode_len();
    if n == 0 {
        return false;
    }
    let mut dots: usize = 0;
    let mut chars_ok = true;
    let mut no_double = true;
    let mut i: usize = 0;
    while i < n
        invariant
            n == t@.len(),
            0 < n,
            i <= n,
            dots as nat == dots_in(t@.subrange(0, i as int)),
            dots <= i,
            chars_ok == (forall|k: int| 0 <= k < i ==> is_token_char(#[trigger] t@[k])),
            no_double == (forall|k: int|
                0 <= k < i - 1 ==> !(#[trigger] t@[k] == '.' && t@[k + 1] == '.')),
        decreases n - i,
    {
        let c = t.get_char(i);
        assert(t@.subrange(0, i + 1).drop_last() =~= t@.subrange(0, i as int));
        if c == '.' {
            dots = dots + 1;
        }
        if !is_token_char_exec(c) {
            chars_ok = false;
        }
        if i > 0 && c == '.' && t.get_char(i - 1) == '.' {
            no_double = false;
        }
        i = i + 1;
    }
    assert(t@.subrange(0, n as int) =~= t@);
    let first = t.get_char(0);
    let last = t.get_char(n - 1);
    chars_ok && no_double && dots == 2 && first != '.' && last != '.'
}

fn is_token_char_exec(c: char) -> (r: bool)
    ensures
        r == is_token_char(c),
{
    ('A' <= c && c <= 'Z') || ('a' <= c && c <= 'z') || ('0' <= c && c <= '9') || c == '-'
        || c == '_' || c == '.'
}

/// Takes the credential out of the Authorization header value, if any.
///
/// No header gives `MissingCredential`, a header that does not read
/// `Bearer <credential>` gives `MalformedCredential`, and a credential that is
/// not a compact token gives `MalformedToken`. Nothing here touches the
/// network or a key.
pub fn extract_bearer_token(header: Option<&str>) -> (r: Result<String, AuthError>)
    ensures
        match extracted_credential(header_view(header)) {
            Ok(t) => r matches Ok(s) && s@ == t,
            Err(e) => r matches Err(f) && f == e,
        },
{
    match header {
        None => Err(AuthError::MissingCredential),
        Some(h) => {
            let n = h.unicode_len();
            if n <= 7 {
                return Err(AuthError::MalformedCredential);
            }
            let p = h.substring_char(0, 7);
            let prefix = "Bearer ";
            proof {
                reveal_strlit("Bearer ");
            }
            assert(prefix@ =~= bearer_prefix());
            if !same_text(p, prefix) {
                return Err(AuthError::MalformedCredential);
            }
            let token = h.substring_char(7, n);
            if is_compact_token_text(token) {
                Ok(token.to_owned())
            } else {
                Err(AuthError::MalformedToken)
            }
        },
    }
}

/// Character-by-character equality of two texts.
fn same_text(a: &str, b: &str) -> (r: bool)
    ensures
        r == (a@ == b@),
{
    let n = a.unicode_len();
    let m = b.unicode_len();
    if n != m {
        return false;
    }
    let mut i: usize = 0;
    while i < n
        invariant
            n == a@.len(),
            m == b@.len(),
            n == m,
            i <= n,
            forall|k: int| 0 <= k < i ==> a@[k] == b@[k],
        decreases n - i,
    {
        if a.get_char(i) != b.get_char(i) {
            return false;
        }
        i = i + 1;
    }
    assert(a@ =~= b@);
    true
}

} // verus!
