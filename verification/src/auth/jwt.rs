//! Signing and reading of compact tokens, as the `jsonwebtoken` crate performs
//! them with HMAC-SHA256 and a shared secret.

use crate::auth::error::TokenFault;
use jsonwebtoken::errors::ErrorKind;
use jsonwebtoken::{DecodingKey, EncodingKey, Header, Validation};
use serde_json::Value;
use std::collections::BTreeMap;
use vstd::prelude::*;

verus! {

/// The token that signing gives for a header with the key id `key_id` and
/// claims that hold the one text claim `name` with the value `value`, under
/// `secret`; `None` when signing is refused.
pub uninterp spec fn jwt_encoding(
    key_id: Seq<char>,
    name: Seq<char>,
    value: Seq<char>,
    secret: Seq<u8>,
) -> Option<Seq<char>>;

/// What reading `token` under `secret` gives: the refusal, or else the text of
/// the claim `subject` and the number of the claim `expiry`, each where the
/// claims hold one. The expiry is only read, never held against a clock.
pub uninterp spec fn jwt_decoding(
    token: Seq<char>,
    secret: Seq<u8>,
    subject: Seq<char>,
    expiry: Seq<char>,
) -> Result<(Option<Seq<char>>, Option<u64>), TokenFault>;

/// The key id in the header of `token`, read without any check of the
/// signature: `None` when the header cannot be read, `Some(None)` when it
/// holds no key id.
pub uninterp spec fn jwt_key_id(token: Seq<char>) -> Option<Option<Seq<char>>>;

/// The claims read from a token, as plain text and number.
pub open spec fn reading_view(
    reading: Result<(Option<String>, Option<u64>), TokenFault>,
) -> Result<(Option<Seq<char>>, Option<u64>), TokenFault> {
    match reading {
        Ok((Some(subject), expiry)) => Ok((Some(subject@), expiry)),
        Ok((None, expiry)) => Ok((None, expiry)),
        Err(fault) => Err(fault),
    }
}

/// The key id read from a header, as plain text.
pub open spec fn key_id_view(key_id: Option<Option<String>>) -> Option<Option<Seq<char>>> {
    match key_id {
        Some(Some(id)) => Some(Some(id@)),
        Some(None) => Some(None),
        None => None,
    }
}

/// Whether `token`, read under `secret`, gives `value` for the claim `name`
/// and no number for any other claim.
pub open spec fn reads_back(
    token: Seq<char>,
    secret: Seq<u8>,
    name: Seq<char>,
    value: Seq<char>,
) -> bool {
    forall|expiry: Seq<char>|
        expiry != name ==> #[trigger] jwt_decoding(token, secret, name, expiry) == Ok::<
            (Option<Seq<char>>, Option<u64>),
            TokenFault,
        >((Some(value), None))
}

/// Calls `jsonwebtoken::encode` with the default header (HMAC-SHA256, type
/// JWT) carrying `key_id`, and claims made of the one pair `name: value`.
/// Trusted: the result is the one named by [`jwt_encoding`]; and a token that
/// comes out has `key_id` in its header and, read back under the same secret,
/// gives `value` for the claim `name` and no number for any other claim.
#[verifier::external_body]
pub(crate) fn sign(key_id: &str, name: &str, value: &str, secret: &[u8]) -> (r: Option<String>)
    ensures
        r matches Some(token) ==> jwt_encoding(key_id@, name@, value@, secret@) == Some(token@),
        r is None ==> jwt_encoding(key_id@, name@, value@, secret@) is None,
        r matches Some(token) ==> jwt_key_id(token@) == Some(Some(key_id@)),
        r matches Some(token) ==> reads_back(token@, secret@, name@, value@),
{
    let header = Header { kid: Some(key_id.to_string()), ..Default::default() };
    let mut claims = BTreeMap::new();
    claims.insert(name, value);
    jsonwebtoken::encode(&header, &claims, &EncodingKey::from_secret(secret)).ok()
}

/// Calls `jsonwebtoken::decode` for HMAC-SHA256 under `secret`, with no claim
/// required and neither expiry nor audience validated, and picks the claims
/// `subject` (as text) and `expiry` (as number) out of what it returns.
/// Trusted: the result is the one named by [`jwt_decoding`].
#[verifier::external_body]
pub(crate) fn read(token: &str, secret: &[u8], subject: &str, expiry: &str) -> (r: Result<
    (Option<String>, Option<u64>),
    TokenFault,
>)
    ensures
        reading_view(r) == jwt_decoding(token@, secret@, subject@, expiry@),
{
    let mut rules = Validation::default();
    rules.required_spec_claims.clear();
    rules.validate_exp = false;
    rules.validate_aud = false;
    match jsonwebtoken::decode::<BTreeMap<String, Value>>(token, &DecodingKey::from_secret(secret), &rules) {
        Ok(data) => Ok((data.claims.get(subject).and_then(Value::as_str).map(String::from), data.claims.get(expiry).and_then(Value::as_u64))),
        Err(e) => Err(match e.kind() {
            ErrorKind::InvalidToken => TokenFault::InvalidToken,
            ErrorKind::InvalidSignature => TokenFault::InvalidSignature,
            ErrorKind::InvalidAlgorithm => TokenFault::InvalidAlgorithm,
            ErrorKind::Base64(_) => TokenFault::Base64,
            ErrorKind::Json(_) => TokenFault::Json,
            _ => TokenFault::Other,
        }),
    }
}

/// Calls `jsonwebtoken::decode_header`, which reads the header of a token and
/// checks no signature, and takes the key id from it. Trusted: the result is
/// the one named by [`jwt_key_id`].
#[verifier::external_body]
pub(crate) fn key_id(token: &str) -> (r: Option<Option<String>>)
    ensures
        key_id_view(r) == jwt_key_id(token@),
{
    jsonwebtoken::decode_header(token).ok().map(|header| header.kid)
}

} // verus!
