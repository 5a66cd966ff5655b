//! Token classes, the secrets they are signed with, and what it means for a
//! token to be verified against the liveness store.

use crate::auth::codec::{
    decode, decoded, encode, encoded, peek_session_id, session_of, text_result,
};
use crate::auth::error::{CacheFault, Error};
use crate::auth::jwt::{jwt_key_id, key_id};
use crate::auth::store::{extended, written, SessionStore};
use vstd::prelude::*;

verus! {

/// Lifetime of the marker that an access token writes, in seconds.
pub const ACCESS_TTL: i64 = 3600;

/// Lifetime of the marker that a refresh token writes, in seconds.
pub const REFRESH_TTL: i64 = 86400;

/// The two classes of token. They are never interchangeable: each is signed
/// with its own secret.
#[derive(Debug, Clone, Copy, PartialEq, Eq, Structural)]
pub enum TokenClass {
    Access,
    Refresh,
}

impl TokenClass {
    pub open spec fn lifetime(self) -> int {
        match self {
            TokenClass::Access => ACCESS_TTL as int,
            TokenClass::Refresh => REFRESH_TTL as int,
        }
    }

    /// The lifetime that a token of this class gives the session marker.
    pub fn ttl(self) -> (r: i64)
        ensures
            r == self.lifetime(),
    {
        match self {
            TokenClass::Access => ACCESS_TTL,
            TokenClass::Refresh => REFRESH_TTL,
        }
    }
}

/// The signing secrets, one per token class.
#[derive(Debug)]
pub struct Keys {
    pub access: Vec<u8>,
    pub refresh: Vec<u8>,
}

impl Keys {
    pub open spec fn secret_of(&self, class: TokenClass) -> Seq<u8> {
        match class {
            TokenClass::Access => self.access@,
            TokenClass::Refresh => self.refresh@,
        }
    }

    /// The secret of a class.
    pub fn secret(&self, class: TokenClass) -> (r: &[u8])
        ensures
            r@ == self.secret_of(class),
    {
        match class {
            TokenClass::Access => self.access.as_slice(),
            TokenClass::Refresh => self.refresh.as_slice(),
        }
    }
}

/// The user that `token` stands for at the time `now`, given the markers of
/// the store: the token has to prove the user under `secret`, and the session
/// that its header names has to be alive.
pub open spec fn verified(
    token: Seq<char>,
    secret: Seq<u8>,
    markers: Map<Seq<char>, int>,
    now: u64,
) -> Result<Seq<char>, Error> {
    match decoded(token, secret, now) {
        Err(e) => Err(e),
        Ok(user) => match session_of(token) {
            Err(e) => Err(e),
            Ok(session) => if markers.contains_key(session) {
                Ok(user)
            } else {
                Err(Error::InvalidSession)
            },
        },
    }
}

/// Whether the verification of `token` gets as far as asking the store.
pub open spec fn asks_store(token: Seq<char>, secret: Seq<u8>, now: u64) -> bool {
    decoded(token, secret, now) is Ok && session_of(token) is Ok
}

/// Decides a verification from the answer of the store: a session that is
/// alive gives the user, one that is not gives `InvalidSession`, and a store
/// that did not answer gives `CacheUnavailable`, never "not alive".
pub fn admitted(user: String, alive: Result<bool, CacheFault>) -> (r: Result<
    String,
    Error,
>)
    ensures
        alive == Ok::<bool, CacheFault>(true) ==> r is Ok && r->Ok_0@ == user@,
        alive == Ok::<bool, CacheFault>(false) ==> r == Err::<String, Error>(
            Error::InvalidSession,
        ),
        alive is Err ==> r == Err::<String, Error>(Error::CacheUnavailable),
{
    match alive {
        Ok(true) => Ok(user),
        Ok(false) => Err(Error::InvalidSession),
        Err(fault) => Err(Error::from(fault)),
    }
}

/// Verifies the signature of `token` under `secret`, reads its session id,
/// and asks the store whether the session is alive. The store is left as it
/// is.
pub fn verify_token<C: SessionStore>(token: &str, secret: &[u8], cache: &mut C, now: u64) -> (r:
    Result<String, Error>)
    requires
        old(cache).valid(),
    ensures
        final(cache).valid(),
        final(cache).dependable() == old(cache).dependable(),
        final(cache).markers() == old(cache).markers(),
        text_result(r) == verified(token@, secret@, old(cache).markers(), now) || (r == Err::<
            String,
            Error,
        >(Error::CacheUnavailable) && !old(cache).dependable() && asks_store(
            token@,
            secret@,
            now,
        )),
{
    let user = match decode(token, secret, now) {
        Ok(user) => user,
        Err(e) => {
            return Err(e);
        },
    };
    let session = match peek_session_id(token) {
        Ok(session) => session,
        Err(e) => {
            return Err(e);
        },
    };
    let alive = cache.is_alive(session.as_str());
    admitted(user, alive)
}

/// The markers after the session that `token` names was revoked, or the error
/// when the token names none.
pub open spec fn revoked(token: Seq<char>, markers: Map<Seq<char>, int>) -> Result<
    Map<Seq<char>, int>,
    Error,
> {
    match session_of(token) {
        Ok(session) => Ok(markers.remove(session)),
        Err(e) => Err(e),
    }
}

/// The markers after the lifetime of the session that `token` names was reset
/// to `ttl`, or the error when the token names none.
pub open spec fn renewed(token: Seq<char>, markers: Map<Seq<char>, int>, ttl: int) -> Result<
    Map<Seq<char>, int>,
    Error,
> {
    match session_of(token) {
        Ok(session) => Ok(extended(markers, session, ttl)),
        Err(e) => Err(e),
    }
}

/// What a change of the store came to: `wanted` is what the change is meant
/// to leave in the store. A failure that is not the store's leaves the
/// markers as they were; after one of the store's they may be either.
pub open spec fn store_changed(
    wanted: Result<Map<Seq<char>, int>, Error>,
    dependable: bool,
    before: Map<Seq<char>, int>,
    failure: Option<Error>,
    after: Map<Seq<char>, int>,
) -> bool {
    match wanted {
        Err(e) => failure == Some(e) && after == before,
        Ok(markers) => match failure {
            None => after == markers,
            Some(e) => e == Error::CacheUnavailable && !dependable && (after == before || after
                == markers),
        },
    }
}

/// The failure of a result, if it is one.
pub open spec fn failure_of<T>(r: Result<T, Error>) -> Option<Error> {
    match r {
        Ok(_) => None,
        Err(e) => Some(e),
    }
}

/// Removes the marker of the session that `token` names. A session without
/// marker is no error.
pub fn destroy_token<C: SessionStore>(token: &str, cache: &mut C) -> (r: Result<(), Error>)
    requires
        old(cache).valid(),
    ensures
        final(cache).valid(),
        final(cache).dependable() == old(cache).dependable(),
        store_changed(
            revoked(token@, old(cache).markers()),
            old(cache).dependable(),
            old(cache).markers(),
            failure_of(r),
            final(cache).markers(),
        ),
{
    let session = match peek_session_id(token) {
        Ok(session) => session,
        Err(e) => {
            return Err(e);
        },
    };
    match cache.revoke(session.as_str()) {
        Ok(()) => Ok(()),
        Err(fault) => Err(Error::from(fault)),
    }
}

/// Resets the lifetime of the marker of the session that `token` names to
/// `seconds_to_live`. A session without marker stays without.
pub fn update_token<C: SessionStore>(token: &str, cache: &mut C, seconds_to_live: i64) -> (r:
    Result<(), Error>)
    requires
        old(cache).valid(),
    ensures
        final(cache).valid(),
        final(cache).dependable() == old(cache).dependable(),
        store_changed(
            renewed(token@, old(cache).markers(), seconds_to_live as int),
            old(cache).dependable(),
            old(cache).markers(),
            failure_of(r),
            final(cache).markers(),
        ),
{
    let session = match peek_session_id(token) {
        Ok(session) => session,
        Err(e) => {
            return Err(e);
        },
    };
    match cache.extend(session.as_str(), seconds_to_live) {
        Ok(()) => Ok(()),
        Err(fault) => Err(Error::from(fault)),
    }
}

/// Whether `token` proves `user` under `secret` at any time.
pub open spec fn proves(token: Seq<char>, secret: Seq<u8>, user: Seq<char>) -> bool {
    forall|now: u64| #[trigger] decoded(token, secret, now) == Ok::<Seq<char>, Error>(user)
}

/// What signing a token and writing the marker of its session came to.
///
/// Where the token cannot be signed, nothing is written. Otherwise the token
/// comes out and the marker holds the lifetime `ttl`, unless the store failed:
/// then the marker may or may not have been written.
pub open spec fn mint_post(
    before: Map<Seq<char>, int>,
    dependable: bool,
    session: Seq<char>,
    secret: Seq<u8>,
    user: Seq<char>,
    ttl: int,
    r: Result<Seq<char>, Error>,
    after: Map<Seq<char>, int>,
) -> bool {
    match encoded(session, secret, user) {
        Err(e) => r == Err::<Seq<char>, Error>(e) && after == before,
        Ok(token) => match r {
            Ok(made) => made == token && after == written(before, session, ttl) && session_of(
                token,
            ) == Ok::<Seq<char>, Error>(session) && proves(token, secret, user),
            Err(e) => e == Error::CacheUnavailable && !dependable && (after == before || after
                == written(before, session, ttl)),
        },
    }
}

/// Signs a token for `user_id` in the session `key_id` and writes the marker
/// of the session with the lifetime `seconds_to_live`.
pub fn mint<C: SessionStore>(
    cache: &mut C,
    secret: &[u8],
    key_id: &str,
    seconds_to_live: i64,
    user_id: &str,
) -> (r: Result<String, Error>)
    requires
        old(cache).valid(),
    ensures
        final(cache).valid(),
        final(cache).dependable() == old(cache).dependable(),
        mint_post(
            old(cache).markers(),
            old(cache).dependable(),
            key_id@,
            secret@,
            user_id@,
            seconds_to_live as int,
            text_result(r),
            final(cache).markers(),
        ),
{
    let token = match encode(key_id, secret, user_id) {
        Ok(token) => token,
        Err(e) => {
            return Err(e);
        },
    };
    match cache.mark_alive(key_id, seconds_to_live) {
        Ok(()) => Ok(token),
        Err(fault) => Err(Error::from(fault)),
    }
}

/// The claims of an access token.
#[derive(Debug)]
pub struct AccessTokenBody {
    pub user_id: String,
}

/// The claims of a refresh token.
#[derive(Debug)]
pub struct RefreshTokenBody {
    pub user_id: String,
}

/// Whether the header of `token` can be read.
pub open spec fn readable(token: Seq<char>) -> bool {
    jwt_key_id(token) is Some
}

/// Takes `token_string` as a token when its header can be read.
pub fn parse_token(token_string: String) -> (r: Result<String, Error>)
    ensures
        readable(token_string@) ==> r is Ok && r->Ok_0@ == token_string@,
        !readable(token_string@) ==> r == Err::<String, Error>(Error::Malformed),
{
    match key_id(token_string.as_str()) {
        Some(_) => Ok(token_string),
        None => Err(Error::Malformed),
    }
}

/// A short-lived token, used on each request.
#[derive(Debug)]
pub struct AccessToken(pub String);

impl View for AccessToken {
    type V = Seq<char>;

    open spec fn view(&self) -> Seq<char> {
        self.0@
    }
}

impl AccessToken {
    /// Signs an access token for the user of `body` in the session `key_id`
    /// and writes the marker of the session with `seconds_to_live`.
    pub fn encode<C: SessionStore>(
        cache: &mut C,
        secret: &[u8],
        key_id: &str,
        seconds_to_live: i64,
        body: AccessTokenBody,
    ) -> (r: Result<Self, Error>)
        requires
            old(cache).valid(),
        ensures
            final(cache).valid(),
            final(cache).dependable() == old(cache).dependable(),
            mint_post(
                old(cache).markers(),
                old(cache).dependable(),
                key_id@,
                secret@,
                body.user_id@,
                seconds_to_live as int,
                match r {
                    Ok(token) => Ok(token@),
                    Err(e) => Err(e),
                },
                final(cache).markers(),
            ),
    {
        match mint(cache, secret, key_id, seconds_to_live, body.user_id.as_str()) {
            Ok(token) => Ok(AccessToken(token)),
            Err(e) => Err(e),
        }
    }

    /// Verifies the signature under `secret` and returns the claims, unless
    /// the token carries an expiry that has passed at `now`.
    pub fn decode(&self, secret: &[u8], now: u64) -> (r: Result<AccessTokenBody, Error>)
        ensures
            match r {
                Ok(body) => decoded(self@, secret@, now) == Ok::<Seq<char>, Error>(body.user_id@),
                Err(e) => decoded(self@, secret@, now) == Err::<Seq<char>, Error>(e),
            },
    {
        match decode(self.0.as_str(), secret, now) {
            Ok(user_id) => Ok(AccessTokenBody { user_id }),
            Err(e) => Err(e),
        }
    }

    /// Verifies the token under `secret` and asks the store whether its
    /// session is alive.
    pub fn verify<C: SessionStore>(&self, cache: &mut C, secret: &[u8], now: u64) -> (r: Result<
        AccessTokenBody,
        Error,
    >)
        requires
            old(cache).valid(),
        ensures
            final(cache).valid(),
            final(cache).dependable() == old(cache).dependable(),
            final(cache).markers() == old(cache).markers(),
            (match r {
                Ok(body) => Ok(body.user_id@),
                Err(e) => Err(e),
            }) == verified(self@, secret@, old(cache).markers(), now) || (r is Err && r->Err_0
                == Error::CacheUnavailable && !old(cache).dependable() && asks_store(
                self@,
                secret@,
                now,
            )),
    {
        match verify_token(self.0.as_str(), secret, cache, now) {
            Ok(user_id) => Ok(AccessTokenBody { user_id }),
            Err(e) => Err(e),
        }
    }

    /// Removes the marker of the token's session.
    pub fn destroy<C: SessionStore>(&self, cache: &mut C) -> (r: Result<&Self, Error>)
        requires
            old(cache).valid(),
        ensures
            final(cache).valid(),
            final(cache).dependable() == old(cache).dependable(),
            r matches Ok(token) ==> token == self,
            store_changed(
                revoked(self@, old(cache).markers()),
                old(cache).dependable(),
                old(cache).markers(),
                failure_of(r),
                final(cache).markers(),
            ),
    {
        match destroy_token(self.0.as_str(), cache) {
            Ok(()) => Ok(self),
            Err(e) => Err(e),
        }
    }

    /// Resets the lifetime of the marker of the token's session.
    pub fn update<C: SessionStore>(&self, cache: &mut C, seconds_to_live: i64) -> (r: Result<
        &Self,
        Error,
    >)
        requires
            old(cache).valid(),
        ensures
            final(cache).valid(),
            final(cache).dependable() == old(cache).dependable(),
            r matches Ok(token) ==> token == self,
            store_changed(
                renewed(self@, old(cache).markers(), seconds_to_live as int),
                old(cache).dependable(),
                old(cache).markers(),
                failure_of(r),
                final(cache).markers(),
            ),
    {
        match update_token(self.0.as_str(), cache, seconds_to_live) {
            Ok(()) => Ok(self),
            Err(e) => Err(e),
        }
    }

    /// Takes `token_string` as an access token when its header can be read.
    /// Neither the signature nor the session is looked at.
    pub fn parse(token_string: String) -> (r: Result<Self, Error>)
        ensures
            readable(token_string@) ==> r is Ok && r->Ok_0@ == token_string@,
            !readable(token_string@) ==> r is Err && r->Err_0 == Error::Malformed,
    {
        match parse_token(token_string) {
            Ok(token) => Ok(AccessToken(token)),
            Err(e) => Err(e),
        }
    }
}

/// A long-lived token, used only to get a new pair.
#[derive(Debug)]
pub struct RefreshToken(pub String);

impl View for RefreshToken {
    type V = Seq<char>;

    open spec fn view(&self) -> Seq<char> {
        self.0@
    }
}

impl RefreshToken {
    /// Signs a refresh token for the user of `body` in the session `key_id`
    /// and writes the marker of the session with `seconds_to_live`.
    pub fn encode<C: SessionStore>(
        cache: &mut C,
        secret: &[u8],
        key_id: &str,
        seconds_to_live: i64,
        body: RefreshTokenBody,
    ) -> (r: Result<Self, Error>)
        requires
            old(cache).valid(),
        ensures
            final(cache).valid(),
            final(cache).dependable() == old(cache).dependable(),
            mint_post(
                old(cache).markers(),
                old(cache).dependable(),
                key_id@,
                secret@,
                body.user_id@,
                seconds_to_live as int,
                match r {
                    Ok(token) => Ok(token@),
                    Err(e) => Err(e),
                },
                final(cache).markers(),
            ),
    {
        match mint(cache, secret, key_id, seconds_to_live, body.user_id.as_str()) {
            Ok(token) => Ok(RefreshToken(token)),
            Err(e) => Err(e),
        }
    }

    /// Verifies the signature under `secret` and returns the claims, unless
    /// the token carries an expiry that has passed at `now`.
    pub fn decode(&self, secret: &[u8], now: u64) -> (r: Result<RefreshTokenBody, Error>)
        ensures
            match r {
                Ok(body) => decoded(self@, secret@, now) == Ok::<Seq<char>, Error>(body.user_id@),
                Err(e) => decoded(self@, secret@, now) == Err::<Seq<char>, Error>(e),
            },
    {
        match decode(self.0.as_str(), secret, now) {
            Ok(user_id) => Ok(RefreshTokenBody { user_id }),
            Err(e) => Err(e),
        }
    }

    /// Verifies the token under `secret` and asks the store whether its
    /// session is alive.
    pub fn verify<C: SessionStore>(&self, cache: &mut C, secret: &[u8], now: u64) -> (r: Result<
        RefreshTokenBody,
        Error,
    >)
        requires
            old(cache).valid(),
        ensures
            final(cache).valid(),
            final(cache).dependable() == old(cache).dependable(),
            final(cache).markers() == old(cache).markers(),
            (match r {
                Ok(body) => Ok(body.user_id@),
                Err(e) => Err(e),
            }) == verified(self@, secret@, old(cache).markers(), now) || (r is Err && r->Err_0
                == Error::CacheUnavailable && !old(cache).dependable() && asks_store(
                self@,
                secret@,
                now,
            )),
    {
        match verify_token(self.0.as_str(), secret, cache, now) {
            Ok(user_id) => Ok(RefreshTokenBody { user_id }),
            Err(e) => Err(e),
        }
    }

    /// Removes the marker of the token's session.
    pub fn destroy<C: SessionStore>(&self, cache: &mut C) -> (r: Result<&Self, Error>)
        requires
            old(cache).valid(),
        ensures
            final(cache).valid(),
            final(cache).dependable() == old(cache).dependable(),
            r matches Ok(token) ==> token == self,
            store_changed(
                revoked(self@, old(cache).markers()),
                old(cache).dependable(),
                old(cache).markers(),
                failure_of(r),
                final(cache).markers(),
            ),
    {
        match destroy_token(self.0.as_str(), cache) {
            Ok(()) => Ok(self),
            Err(e) => Err(e),
        }
    }

    /// Resets the lifetime of the marker of the token's session.
    pub fn update<C: SessionStore>(&self, cache: &mut C, seconds_to_live: i64) -> (r: Result<
        &Self,
        Error,
    >)
        requires
            old(cache).valid(),
        ensures
            final(cache).valid(),
            final(cache).dependable() == old(cache).dependable(),
            r matches Ok(token) ==> token == self,
            store_changed(
                renewed(self@, old(cache).markers(), seconds_to_live as int),
                old(cache).dependable(),
                old(cache).markers(),
                failure_of(r),
                final(cache).markers(),
            ),
    {
        match update_token(self.0.as_str(), cache, seconds_to_live) {
            Ok(()) => Ok(self),
            Err(e) => Err(e),
        }
    }

    /// Takes `token_string` as a refresh token when its header can be read.
    /// Neither the signature nor the session is looked at.
    pub fn parse(token_string: String) -> (r: Result<Self, Error>)
        ensures
            readable(token_string@) ==> r is Ok && r->Ok_0@ == token_string@,
            !readable(token_string@) ==> r is Err && r->Err_0 == Error::Malformed,
    {
        match parse_token(token_string) {
            Ok(token) => Ok(RefreshToken(token)),
            Err(e) => Err(e),
        }
    }
}

} // verus!
