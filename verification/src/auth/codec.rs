//! The signed token codec: a token binds a user to a session id and is signed
//! with the secret of its class.

use crate::auth::error::{error_of_fault, Error, TokenFault};
use crate::auth::jwt::{jwt_decoding, jwt_encoding, jwt_key_id, key_id, read, reading_view, sign};
use vstd::prelude::*;

verus! {

/// Seconds by which a token may be past its expiry and still be accepted.
pub const LEEWAY: u64 = 60;

/// The name of the claim that holds the user.
pub open spec fn user_claim() -> Seq<char> {
    "user_id"@
}

/// The name of the claim that holds the expiry time, in seconds since the
/// epoch.
pub open spec fn expiry_claim() -> Seq<char> {
    "exp"@
}

/// Whether a token with the expiry `expiry` is out of date at `now`. A token
/// without expiry never is.
pub open spec fn expired(expiry: Option<u64>, now: u64) -> bool {
    expiry matches Some(until) && until + LEEWAY < now
}

/// What the claims read from a token come to at the time `now`: the user, or
/// the error. A token that was refused for its signature is reported so, any
/// other refusal and a token without user as malformed, and one past its
/// expiry as expired.
pub open spec fn settled(
    reading: Result<(Option<Seq<char>>, Option<u64>), TokenFault>,
    now: u64,
) -> Result<Seq<char>, Error> {
    match reading {
        Err(fault) => Err(error_of_fault(fault)),
        Ok((None, _)) => Err(Error::Malformed),
        Ok((Some(user), expiry)) => if expired(expiry, now) {
            Err(Error::Expired)
        } else {
            Ok(user)
        },
    }
}

/// The user that `token` proves under `secret` at the time `now`, or the error.
pub open spec fn decoded(token: Seq<char>, secret: Seq<u8>, now: u64) -> Result<Seq<char>, Error> {
    settled(jwt_decoding(token, secret, user_claim(), expiry_claim()), now)
}

/// The session id that `token` names in its header, or the error. Nothing is
/// verified: the id only serves to find the liveness marker.
pub open spec fn session_of(token: Seq<char>) -> Result<Seq<char>, Error> {
    match jwt_key_id(token) {
        Some(Some(id)) => Ok(id),
        _ => Err(Error::Malformed),
    }
}

/// The token for `user_id` in the session `session_id` under `secret`, or the
/// error when it cannot be signed.
pub open spec fn encoded(session_id: Seq<char>, secret: Seq<u8>, user_id: Seq<char>) -> Result<
    Seq<char>,
    Error,
> {
    match jwt_encoding(session_id, user_claim(), user_id, secret) {
        Some(token) => Ok(token),
        None => Err(Error::SigningError),
    }
}

/// A result that holds text, as plain text.
pub open spec fn text_result(r: Result<String, Error>) -> Result<Seq<char>, Error> {
    match r {
        Ok(text) => Ok(text@),
        Err(e) => Err(e),
    }
}

/// Tells whether a token with the expiry `expiry` is out of date at `now`.
pub fn is_expired(expiry: Option<u64>, now: u64) -> (r: bool)
    ensures
        r == expired(expiry, now),
{
    match expiry {
        Some(until) => until < now && now - until > LEEWAY,
        None => false,
    }
}

/// Turns what signing gave into the token or the signing error.
pub fn sealed(outcome: Option<String>) -> (r: Result<String, Error>)
    ensures
        outcome matches Some(token) ==> r is Ok && r->Ok_0@ == token@,
        outcome is None ==> r == Err::<String, Error>(Error::SigningError),
{
    match outcome {
        Some(token) => Ok(token),
        None => Err(Error::SigningError),
    }
}

/// Turns the claims read from a token into the user they name at the time
/// `now`, or into the error.
pub fn settle(reading: Result<(Option<String>, Option<u64>), TokenFault>, now: u64) -> (r: Result<
    String,
    Error,
>)
    ensures
        text_result(r) == settled(reading_view(reading), now),
{
    match reading {
        Err(fault) => Err(Error::from(fault)),
        Ok((None, _)) => Err(Error::Malformed),
        Ok((Some(user), expiry)) => {
            if is_expired(expiry, now) {
                Err(Error::Expired)
            } else {
                Ok(user)
            }
        },
    }
}

/// Turns the key id read from a header into the session id, or into the error
/// when the header cannot be read or names no session.
pub fn session_id_from(header_key_id: Option<Option<String>>) -> (r: Result<String, Error>)
    ensures
        header_key_id matches Some(Some(id)) ==> r is Ok && r->Ok_0@ == id@,
        !(header_key_id matches Some(Some(_))) ==> r == Err::<String, Error>(Error::Malformed),
{
    match header_key_id {
        Some(Some(id)) => Ok(id),
        _ => Err(Error::Malformed),
    }
}

/// Signs a token for `user_id` with the session id in its header.
///
/// A token that comes out names the session in its header, and proves the
/// user under the same secret at any time.
pub fn encode(session_id: &str, secret: &[u8], user_id: &str) -> (r: Result<String, Error>)
    ensures
        text_result(r) == encoded(session_id@, secret@, user_id@),
        r matches Ok(token) ==> session_of(token@) == Ok::<Seq<char>, Error>(session_id@),
        r matches Ok(token) ==> forall|now: u64| #[trigger]
            decoded(token@, secret@, now) == Ok::<Seq<char>, Error>(user_id@),
{
    let outcome = sign(session_id, "user_id", user_id, secret);
    proof {
        reveal_strlit("user_id");
        reveal_strlit("exp");
        assert(expiry_claim() != user_claim()) by {
            assert(expiry_claim().len() == 3);
            assert(user_claim().len() == 7);
        }
    }
    sealed(outcome)
}

/// Verifies the signature of `token` under `secret` and returns the user it
/// names, unless the token carries an expiry that has passed at `now`.
pub fn decode(token: &str, secret: &[u8], now: u64) -> (r: Result<String, Error>)
    ensures
        text_result(r) == decoded(token@, secret@, now),
{
    settle(read(token, secret, "user_id", "exp"), now)
}

/// Reads the session id from the header of `token` without verifying the
/// signature.
pub fn peek_session_id(token: &str) -> (r: Result<String, Error>)
    ensures
        text_result(r) == session_of(token@),
{
    session_id_from(key_id(token))
}

} // verus!
