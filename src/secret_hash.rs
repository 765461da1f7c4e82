//! The per-user secret hash that the identity provider asks for when the app
//! client has a confidential secret.

use base64::Engine;
use ring::hmac;
use vstd::prelude::*;
use vstd::string::StringSliceAdditionalSpecFns;
use vstd::utf8::encode_utf8;

verus! {

/// HMAC-SHA256 tag of `msg` keyed by `key`.
pub uninterp spec fn hmac_sha256_of(key: Seq<u8>, msg: Seq<u8>) -> Seq<u8>;

/// Text of `bytes` in standard base64, with padding.
pub uninterp spec fn base64_standard_of(bytes: Seq<u8>) -> Seq<char>;

/// Length of the padded base64 text of `n` bytes: four characters for each
/// started group of three bytes.
pub open spec fn base64_padded_len(n: nat) -> nat {
    4 * ((n + 2) / 3)
}

/// The secret hash of a user for an app client: base64 of the HMAC-SHA256 of
/// the UTF-8 bytes of the user name followed by those of the client id, keyed
/// by the UTF-8 bytes of the client secret.
pub open spec fn secret_hash_of(
    client_secret: Seq<char>,
    user_name: Seq<char>,
    client_id: Seq<char>,
) -> Seq<char> {
    base64_standard_of(
        hmac_sha256_of(encode_utf8(client_secret), encode_utf8(user_name) + encode_utf8(client_id)),
    )
}

/// Relies on ring::hmac::Key::new and ring::hmac::sign with HMAC_SHA256: the
/// tag depends on key and message alone and is as long as a SHA-256 digest.
#[verifier::external_body]
fn hmac_sha256(key: &[u8], msg: &[u8]) -> (r: Vec<u8>)
    ensures
        r@ == hmac_sha256_of(key@, msg@),
        r@.len() == 32,
{
    let k = hmac::Key::new(hmac::HMAC_SHA256, key);
    hmac::sign(&k, msg).as_ref().to_vec()
}

/// Relies on base64's Engine::encode with general_purpose::STANDARD: padded
/// standard-alphabet text, four characters per started group of three bytes.
#[verifier::external_body]
fn base64_standard(bytes: &[u8]) -> (r: String)
    ensures
        r@ == base64_standard_of(bytes@),
        r@.len() == base64_padded_len(bytes@.len() as nat),
{
    base64::engine::general_purpose::STANDARD.encode(bytes)
}

/// Computes the secret hash of `user_name` for the app client `client_id`.
///
/// The result is a function of the three arguments alone, and it is always
/// 44 characters long: the padded base64 text of a 32-byte tag.
pub fn generate_secret_hash(client_secret: &str, user_name: &str, client_id: &str) -> (r: String)
    ensures
        r@ == secret_hash_of(client_secret@, user_name@, client_id@),
        r@.len() == 44,
{
    let mut msg: Vec<u8> = Vec::new();
    let user = user_name.as_bytes();
    let client = client_id.as_bytes();
    let mut i: usize = 0;
    while i < user.len()
        invariant
            i <= user@.len(),
            msg@ == user@.subrange(0, i as int),
        decreases user@.len() - i,
    {
        msg.push(user[i]);
        i = i + 1;
    }
    let mut j: usize = 0;
    while j < client.len()
        invariant
            j <= client@.len(),
            msg@ == user@ + client@.subrange(0, j as int),
        decreases client@.len() - j,
    {
        msg.push(client[j]);
        j = j + 1;
    }
    assert(msg@ =~= user@ + client@);
    let tag = hmac_sha256(client_secret.as_bytes(), msg.as_slice());
    base64_standard(tag.as_slice())
}

/// The secret hash is deterministic: equal inputs give equal hashes.
pub proof fn secret_hash_deterministic(
    s1: Seq<char>,
    u1: Seq<char>,
    c1: Seq<char>,
    s2: Seq<char>,
    u2: Seq<char>,
    c2: Seq<char>,
)
    requires
        s1 == s2,
        u1 == u2,
        c1 == c2,
    ensures
        secret_hash_of(s1, u1, c1) == secret_hash_of(s2, u2, c2),
{
}

} // verus!
