//! The operations on a token pair as a machine that never touches the store
//! itself: it says what to ask the store, and goes on from the answer.

use crate::auth::codec::{decode, decoded, encode, encoded, peek_session_id, session_of};
use crate::auth::error::{CacheFault, Error};
use crate::auth::store::{extended, written, SessionStore};
use crate::auth::token::{
    admitted, proves, AccessToken, Keys, RefreshToken, TokenClass, ACCESS_TTL, REFRESH_TTL,
};
use vstd::prelude::*;

verus! {

/// The access and the refresh token of one session.
#[derive(Debug)]
pub struct TokenPair {
    pub access: AccessToken,
    pub refresh: RefreshToken,
}

impl View for TokenPair {
    type V = (Seq<char>, Seq<char>);

    /// The access token first, then the refresh token.
    open spec fn view(&self) -> (Seq<char>, Seq<char>) {
        (self.access@, self.refresh@)
    }
}

/// One request to the liveness store.
#[derive(Debug)]
pub enum Command {
    /// Create or overwrite the marker with this lifetime.
    MarkAlive { session_id: String, ttl: i64 },
    /// Tell whether the session has a marker.
    IsAlive { session_id: String },
    /// Reset the lifetime of the marker, if there is one.
    Extend { session_id: String, ttl: i64 },
    /// Remove the marker.
    Revoke { session_id: String },
}

/// A request to the store, as plain values.
pub enum Request {
    MarkAlive(Seq<char>, int),
    IsAlive(Seq<char>),
    Extend(Seq<char>, int),
    Revoke(Seq<char>),
}

impl View for Command {
    type V = Request;

    open spec fn view(&self) -> Request {
        match self {
            Command::MarkAlive { session_id, ttl } => Request::MarkAlive(session_id@, *ttl as int),
            Command::IsAlive { session_id } => Request::IsAlive(session_id@),
            Command::Extend { session_id, ttl } => Request::Extend(session_id@, *ttl as int),
            Command::Revoke { session_id } => Request::Revoke(session_id@),
        }
    }
}

/// What an operation that waits for an answer of the store goes on with.
#[derive(Debug)]
pub enum Pending {
    /// A verification asked whether the session is alive.
    Verify { user: String },
    /// A destruction asked for the marker to be removed.
    Destroy,
    /// An issuing wrote the marker for the access token.
    IssueAccess { session: String, user: String, access: String },
    /// An issuing wrote the marker for the refresh token.
    IssueRefresh { access: String, refresh: String },
    /// A renewal asked whether the session of the access token is alive.
    RefreshAccess { pair: TokenPair, now: u64, fresh: String, holder: Option<String> },
    /// A renewal extended the session of the access token.
    ExtendAccess { pair: TokenPair },
    /// A renewal extended the session of the refresh token.
    ExtendRefresh { pair: TokenPair },
    /// A renewal asked whether the session of the refresh token is alive.
    RefreshFallback { proved: String, fresh: String, holder: Option<String> },
}

/// What an operation waits with, as plain values.
pub enum Waiting {
    Verify { user: Seq<char> },
    Destroy,
    IssueAccess { session: Seq<char>, user: Seq<char>, access: Seq<char> },
    IssueRefresh { access: Seq<char>, refresh: Seq<char> },
    RefreshAccess {
        pair: (Seq<char>, Seq<char>),
        now: u64,
        fresh: Seq<char>,
        holder: Option<Seq<char>>,
    },
    ExtendAccess { pair: (Seq<char>, Seq<char>) },
    ExtendRefresh { pair: (Seq<char>, Seq<char>) },
    RefreshFallback { proved: Seq<char>, fresh: Seq<char>, holder: Option<Seq<char>> },
}

/// A holder that may be given, as plain text.
pub open spec fn holder_text(holder: Option<String>) -> Option<Seq<char>> {
    match holder {
        Some(user) => Some(user@),
        None => None,
    }
}

impl View for Pending {
    type V = Waiting;

    open spec fn view(&self) -> Waiting {
        match self {
            Pending::Verify { user } => Waiting::Verify { user: user@ },
            Pending::Destroy => Waiting::Destroy,
            Pending::IssueAccess { session, user, access } => Waiting::IssueAccess {
                session: session@,
                user: user@,
                access: access@,
            },
            Pending::IssueRefresh { access, refresh } => Waiting::IssueRefresh {
                access: access@,
                refresh: refresh@,
            },
            Pending::RefreshAccess { pair, now, fresh, holder } => Waiting::RefreshAccess {
                pair: pair@,
                now: *now,
                fresh: fresh@,
                holder: holder_text(*holder),
            },
            Pending::ExtendAccess { pair } => Waiting::ExtendAccess { pair: pair@ },
            Pending::ExtendRefresh { pair } => Waiting::ExtendRefresh { pair: pair@ },
            Pending::RefreshFallback { proved, fresh, holder } => Waiting::RefreshFallback {
                proved: proved@,
                fresh: fresh@,
                holder: holder_text(*holder),
            },
        }
    }
}

/// What an operation that succeeded gives.
#[derive(Debug)]
pub enum Finished {
    /// The user a token stands for.
    User(String),
    /// An issued or renewed pair.
    Pair(TokenPair),
    /// Nothing: the session is closed.
    Closed,
}

/// What an operation gives, as plain values.
pub enum Given {
    User(Seq<char>),
    Pair((Seq<char>, Seq<char>)),
    Closed,
}

impl View for Finished {
    type V = Given;

    open spec fn view(&self) -> Given {
        match self {
            Finished::User(user) => Given::User(user@),
            Finished::Pair(pair) => Given::Pair(pair@),
            Finished::Closed => Given::Closed,
        }
    }
}

/// Where an operation stands: it either asks the store something, or is done.
#[derive(Debug)]
pub enum Step {
    Ask(Command, Pending),
    Finish(Result<Finished, Error>),
}

/// Where an operation stands, as plain values.
pub enum Stage {
    Ask(Request, Waiting),
    Finish(Result<Given, Error>),
}

impl View for Step {
    type V = Stage;

    open spec fn view(&self) -> Stage {
        match self {
            Step::Ask(command, pending) => Stage::Ask(command@, pending@),
            Step::Finish(Ok(finished)) => Stage::Finish(Ok(finished@)),
            Step::Finish(Err(e)) => Stage::Finish(Err(*e)),
        }
    }
}

/// The user a new pair is issued for: the holder where one is given,
/// otherwise the user that the refresh token proved.
pub open spec fn reissue_user(holder: Option<Seq<char>>, proved: Seq<char>) -> Seq<char> {
    match holder {
        Some(user) => user,
        None => proved,
    }
}

/// How a verification starts: a token that proves its user and names a
/// session asks whether the session is alive.
pub open spec fn began_verify(token: Seq<char>, secret: Seq<u8>, now: u64) -> Stage {
    match decoded(token, secret, now) {
        Err(e) => Stage::Finish(Err(e)),
        Ok(user) => match session_of(token) {
            Err(e) => Stage::Finish(Err(e)),
            Ok(session) => Stage::Ask(Request::IsAlive(session), Waiting::Verify { user }),
        },
    }
}

/// How a destruction starts: with the removal of the marker of the session
/// that the access token names.
pub open spec fn began_destroy(pair: (Seq<char>, Seq<char>)) -> Stage {
    match session_of(pair.0) {
        Err(e) => Stage::Finish(Err(e)),
        Ok(session) => Stage::Ask(Request::Revoke(session), Waiting::Destroy),
    }
}

/// How an issuing starts: the access token is signed and the marker of the
/// session is written with the access lifetime.
pub open spec fn began_issue(keys: &Keys, session: Seq<char>, user: Seq<char>) -> Stage {
    match encoded(session, keys.access@, user) {
        Err(e) => Stage::Finish(Err(e)),
        Ok(access) => Stage::Ask(
            Request::MarkAlive(session, ACCESS_TTL as int),
            Waiting::IssueAccess { session, user, access },
        ),
    }
}

/// How a renewal falls back on the refresh token: one that proves its user
/// and names a session asks whether that session is alive.
pub open spec fn began_fallback(
    keys: &Keys,
    pair: (Seq<char>, Seq<char>),
    now: u64,
    fresh: Seq<char>,
    holder: Option<Seq<char>>,
) -> Stage {
    match decoded(pair.1, keys.refresh@, now) {
        Err(e) => Stage::Finish(Err(e)),
        Ok(proved) => match session_of(pair.1) {
            Err(e) => Stage::Finish(Err(e)),
            Ok(session) => Stage::Ask(
                Request::IsAlive(session),
                Waiting::RefreshFallback { proved, fresh, holder },
            ),
        },
    }
}

/// How a renewal starts: an access token that proves its user and names a
/// session asks whether that session is alive; any other falls back on the
/// refresh token at once.
pub open spec fn began_refresh(
    keys: &Keys,
    pair: (Seq<char>, Seq<char>),
    now: u64,
    fresh: Seq<char>,
    holder: Option<Seq<char>>,
) -> Stage {
    if decoded(pair.0, keys.access@, now) is Ok && session_of(pair.0) is Ok {
        Stage::Ask(
            Request::IsAlive(session_of(pair.0)->Ok_0),
            Waiting::RefreshAccess { pair, now, fresh, holder },
        )
    } else {
        began_fallback(keys, pair, now, fresh, holder)
    }
}

/// How an operation goes on from the answer of the store. An answer that is
/// a failure ends every operation with `CacheUnavailable`, but for the check
/// of an access token in a renewal, which then falls back on the refresh
/// token.
pub open spec fn resumed(keys: &Keys, waiting: Waiting, answer: Result<bool, CacheFault>) -> Stage {
    match waiting {
        Waiting::Verify { user } => match answer {
            Ok(true) => Stage::Finish(Ok(Given::User(user))),
            Ok(false) => Stage::Finish(Err(Error::InvalidSession)),
            Err(_) => Stage::Finish(Err(Error::CacheUnavailable)),
        },
        Waiting::Destroy => match answer {
            Ok(_) => Stage::Finish(Ok(Given::Closed)),
            Err(_) => Stage::Finish(Err(Error::CacheUnavailable)),
        },
        Waiting::IssueAccess { session, user, access } => match answer {
            Ok(_) => match encoded(session, keys.refresh@, user) {
                Err(e) => Stage::Finish(Err(e)),
                Ok(refresh) => Stage::Ask(
                    Request::MarkAlive(session, REFRESH_TTL as int),
                    Waiting::IssueRefresh { access, refresh },
                ),
            },
            Err(_) => Stage::Finish(Err(Error::CacheUnavailable)),
        },
        Waiting::IssueRefresh { access, refresh } => match answer {
            Ok(_) => Stage::Finish(Ok(Given::Pair((access, refresh)))),
            Err(_) => Stage::Finish(Err(Error::CacheUnavailable)),
        },
        Waiting::RefreshAccess { pair, now, fresh, holder } => match answer {
            Ok(true) => match session_of(pair.0) {
                Err(e) => Stage::Finish(Err(e)),
                Ok(session) => Stage::Ask(
                    Request::Extend(session, ACCESS_TTL as int),
                    Waiting::ExtendAccess { pair },
                ),
            },
            _ => began_fallback(keys, pair, now, fresh, holder),
        },
        Waiting::ExtendAccess { pair } => match answer {
            Ok(_) => match session_of(pair.1) {
                Err(e) => Stage::Finish(Err(e)),
                Ok(session) => Stage::Ask(
                    Request::Extend(session, REFRESH_TTL as int),
                    Waiting::ExtendRefresh { pair },
                ),
            },
            Err(_) => Stage::Finish(Err(Error::CacheUnavailable)),
        },
        Waiting::ExtendRefresh { pair } => match answer {
            Ok(_) => Stage::Finish(Ok(Given::Pair(pair))),
            Err(_) => Stage::Finish(Err(Error::CacheUnavailable)),
        },
        Waiting::RefreshFallback { proved, fresh, holder } => match answer {
            Ok(true) => began_issue(keys, fresh, reissue_user(holder, proved)),
            Ok(false) => Stage::Finish(Err(Error::InvalidSession)),
            Err(_) => Stage::Finish(Err(Error::CacheUnavailable)),
        },
    }
}

/// The number of requests that an operation which waits makes at most,
/// the one it waits for included.
pub open spec fn requests_after(waiting: Waiting) -> nat {
    match waiting {
        Waiting::Verify { .. } => 1,
        Waiting::Destroy => 1,
        Waiting::IssueAccess { .. } => 2,
        Waiting::IssueRefresh { .. } => 1,
        Waiting::RefreshAccess { .. } => 4,
        Waiting::ExtendAccess { .. } => 2,
        Waiting::ExtendRefresh { .. } => 1,
        Waiting::RefreshFallback { .. } => 3,
    }
}

/// The number of requests that an operation may still make.
pub open spec fn requests_left(stage: Stage) -> nat {
    match stage {
        Stage::Finish(_) => 0,
        Stage::Ask(_, waiting) => requests_after(waiting),
    }
}

/// Whether the token that signing gives for this session, secret and user,
/// if it gives one, names the session and proves the user.
pub open spec fn sound_encoding(session: Seq<char>, secret: Seq<u8>, user: Seq<char>) -> bool {
    encoded(session, secret, user) matches Ok(token) ==> session_of(token) == Ok::<
        Seq<char>,
        Error,
    >(session) && proves(token, secret, user)
}

/// Whether the token that an operation signs when it goes on from `waiting`
/// with `answer`, if it signs one, is sound.
pub open spec fn signs_soundly(keys: &Keys, waiting: Waiting, answer: Result<bool, CacheFault>) -> bool {
    match waiting {
        Waiting::IssueAccess { session, user, .. } => answer is Ok ==> sound_encoding(
            session,
            keys.refresh@,
            user,
        ),
        Waiting::RefreshFallback { proved, fresh, holder } => answer == Ok::<bool, CacheFault>(
            true,
        ) ==> sound_encoding(fresh, keys.access@, reissue_user(holder, proved)),
        _ => true,
    }
}

/// Starts the verification of `token` under `secret` at the time `now`.
pub fn begin_verify(token: &str, secret: &[u8], now: u64) -> (r: Step)
    ensures
        r@ == began_verify(token@, secret@, now),
{
    let user = match decode(token, secret, now) {
        Ok(user) => user,
        Err(e) => {
            return Step::Finish(Err(e));
        },
    };
    match peek_session_id(token) {
        Ok(session_id) => Step::Ask(Command::IsAlive { session_id }, Pending::Verify { user }),
        Err(e) => Step::Finish(Err(e)),
    }
}

/// Starts the destruction of `pair`.
pub fn begin_destroy(pair: &TokenPair) -> (r: Step)
    ensures
        r@ == began_destroy(pair@),
{
    match peek_session_id(pair.access.0.as_str()) {
        Ok(session_id) => Step::Ask(Command::Revoke { session_id }, Pending::Destroy),
        Err(e) => Step::Finish(Err(e)),
    }
}

/// Starts the issuing of the pair of `user_id` in the session `session_id`.
pub fn begin_issue(keys: &Keys, session_id: &str, user_id: &str) -> (r: Step)
    ensures
        r@ == began_issue(keys, session_id@, user_id@),
        sound_encoding(session_id@, keys.access@, user_id@),
{
    match encode(session_id, keys.secret(TokenClass::Access), user_id) {
        Ok(access) => Step::Ask(
            Command::MarkAlive { session_id: session_id.to_string(), ttl: ACCESS_TTL },
            Pending::IssueAccess {
                session: session_id.to_string(),
                user: user_id.to_string(),
                access,
            },
        ),
        Err(e) => Step::Finish(Err(e)),
    }
}

fn begin_fallback(keys: &Keys, pair: TokenPair, now: u64, fresh: String, holder: Option<String>) -> (r:
    Step)
    ensures
        r@ == began_fallback(keys, pair@, now, fresh@, holder_text(holder)),
{
    let proved = match decode(pair.refresh.0.as_str(), keys.secret(TokenClass::Refresh), now) {
        Ok(user) => user,
        Err(e) => {
            return Step::Finish(Err(e));
        },
    };
    match peek_session_id(pair.refresh.0.as_str()) {
        Ok(session_id) => Step::Ask(
            Command::IsAlive { session_id },
            Pending::RefreshFallback { proved, fresh, holder },
        ),
        Err(e) => Step::Finish(Err(e)),
    }
}

/// Starts the renewal of `pair` at the time `now`, with `fresh` as the
/// session of a new pair, should one be issued, and `holder` as its user
/// where one is given.
pub fn begin_refresh(keys: &Keys, pair: TokenPair, now: u64, fresh: String, holder: Option<String>) -> (r:
    Step)
    ensures
        r@ == began_refresh(keys, pair@, now, fresh@, holder_text(holder)),
{
    let proves_user = decode(pair.access.0.as_str(), keys.secret(TokenClass::Access), now).is_ok();
    if proves_user {
        match peek_session_id(pair.access.0.as_str()) {
            Ok(session_id) => {
                return Step::Ask(
                    Command::IsAlive { session_id },
                    Pending::RefreshAccess { pair, now, fresh, holder },
                );
            },
            Err(_) => {},
        }
    }
    begin_fallback(keys, pair, now, fresh, holder)
}

/// What the removal of a marker came to: any answer but a failure means that
/// the marker is gone.
pub fn closed(answer: Result<bool, CacheFault>) -> (r: Result<(), Error>)
    ensures
        answer is Ok ==> r is Ok,
        answer is Err ==> r == Err::<(), Error>(Error::CacheUnavailable),
{
    match answer {
        Ok(_) => Ok(()),
        Err(fault) => Err(Error::from(fault)),
    }
}

/// Goes on with an operation from the answer that the store gave to its
/// request. For a request that only writes, any answer but a failure means
/// that it was done.
pub fn resume(keys: &Keys, pending: Pending, answer: Result<bool, CacheFault>) -> (r: Step)
    ensures
        r@ == resumed(keys, pending@, answer),
        requests_left(r@) < requests_after(pending@),
        signs_soundly(keys, pending@, answer),
{
    match pending {
        Pending::Verify { user } => match admitted(user, answer) {
            Ok(user) => Step::Finish(Ok(Finished::User(user))),
            Err(e) => Step::Finish(Err(e)),
        },
        Pending::Destroy => match closed(answer) {
            Ok(()) => Step::Finish(Ok(Finished::Closed)),
            Err(e) => Step::Finish(Err(e)),
        },
        Pending::IssueAccess { session, user, access } => match answer {
            Ok(_) => match encode(
                session.as_str(),
                keys.secret(TokenClass::Refresh),
                user.as_str(),
            ) {
                Ok(refresh) => Step::Ask(
                    Command::MarkAlive { session_id: session, ttl: REFRESH_TTL },
                    Pending::IssueRefresh { access, refresh },
                ),
                Err(e) => Step::Finish(Err(e)),
            },
            Err(fault) => Step::Finish(Err(Error::from(fault))),
        },
        Pending::IssueRefresh { access, refresh } => match answer {
            Ok(_) => Step::Finish(
                Ok(
                    Finished::Pair(
                        TokenPair { access: AccessToken(access), refresh: RefreshToken(refresh) },
                    ),
                ),
            ),
            Err(fault) => Step::Finish(Err(Error::from(fault))),
        },
        Pending::RefreshAccess { pair, now, fresh, holder } => match answer {
            Ok(true) => match peek_session_id(pair.access.0.as_str()) {
                Ok(session_id) => Step::Ask(
                    Command::Extend { session_id, ttl: ACCESS_TTL },
                    Pending::ExtendAccess { pair },
                ),
                Err(e) => Step::Finish(Err(e)),
            },
            _ => begin_fallback(keys, pair, now, fresh, holder),
        },
        Pending::ExtendAccess { pair } => match answer {
            Ok(_) => match peek_session_id(pair.refresh.0.as_str()) {
                Ok(session_id) => Step::Ask(
                    Command::Extend { session_id, ttl: REFRESH_TTL },
                    Pending::ExtendRefresh { pair },
                ),
                Err(e) => Step::Finish(Err(e)),
            },
            Err(fault) => Step::Finish(Err(Error::from(fault))),
        },
        Pending::ExtendRefresh { pair } => match answer {
            Ok(_) => Step::Finish(Ok(Finished::Pair(pair))),
            Err(fault) => Step::Finish(Err(Error::from(fault))),
        },
        Pending::RefreshFallback { proved, fresh, holder } => match answer {
            Ok(true) => match holder {
                Some(user) => begin_issue(keys, fresh.as_str(), user.as_str()),
                None => begin_issue(keys, fresh.as_str(), proved.as_str()),
            },
            Ok(false) => Step::Finish(Err(Error::InvalidSession)),
            Err(fault) => Step::Finish(Err(Error::from(fault))),
        },
    }
}

/// The markers after a request that writes: what was wanted where the store
/// answered, and either that or what was there before where it failed.
pub open spec fn changed(
    before: Map<Seq<char>, int>,
    wanted: Map<Seq<char>, int>,
    answer: Result<bool, CacheFault>,
    after: Map<Seq<char>, int>,
) -> bool {
    match answer {
        Ok(_) => after == wanted,
        Err(_) => after == before || after == wanted,
    }
}

/// What a store that held `before` may answer to `request`, and what it holds
/// afterwards.
pub open spec fn performed(
    before: Map<Seq<char>, int>,
    dependable: bool,
    request: Request,
    answer: Result<bool, CacheFault>,
    after: Map<Seq<char>, int>,
) -> bool {
    &&& dependable ==> answer is Ok
    &&& match request {
        Request::MarkAlive(session, ttl) => changed(
            before,
            written(before, session, ttl),
            answer,
            after,
        ),
        Request::Extend(session, ttl) => changed(
            before,
            extended(before, session, ttl),
            answer,
            after,
        ),
        Request::Revoke(session) => changed(before, before.remove(session), answer, after),
        Request::IsAlive(session) => after == before && (answer matches Ok(alive) ==> alive
            == before.contains_key(session)),
    }
}

/// Hands one request to a store and returns its answer.
pub fn perform<C: SessionStore>(cache: &mut C, command: &Command) -> (answer: Result<
    bool,
    CacheFault,
>)
    requires
        old(cache).valid(),
    ensures
        final(cache).valid(),
        final(cache).dependable() == old(cache).dependable(),
        performed(
            old(cache).markers(),
            old(cache).dependable(),
            command@,
            answer,
            final(cache).markers(),
        ),
{
    match command {
        Command::MarkAlive { session_id, ttl } => match cache.mark_alive(
            session_id.as_str(),
            *ttl,
        ) {
            Ok(()) => Ok(true),
            Err(fault) => Err(fault),
        },
        Command::IsAlive { session_id } => cache.is_alive(session_id.as_str()),
        Command::Extend { session_id, ttl } => match cache.extend(session_id.as_str(), *ttl) {
            Ok(()) => Ok(true),
            Err(fault) => Err(fault),
        },
        Command::Revoke { session_id } => match cache.revoke(session_id.as_str()) {
            Ok(()) => Ok(true),
            Err(fault) => Err(fault),
        },
    }
}

/// What one round with the store makes of a stage: one that asks is answered
/// and goes on from the answer, one that is done stays as it is.
pub open spec fn advanced(
    before: Map<Seq<char>, int>,
    dependable: bool,
    keys: &Keys,
    stage: Stage,
    next: Stage,
    after: Map<Seq<char>, int>,
) -> bool {
    match stage {
        Stage::Finish(_) => next == stage && after == before,
        Stage::Ask(request, waiting) => exists|answer: Result<bool, CacheFault>|
            #![trigger resumed(keys, waiting, answer)]
            performed(before, dependable, request, answer, after) && next == resumed(
                keys,
                waiting,
                answer,
            ) && signs_soundly(keys, waiting, answer),
    }
}

/// Makes one round with the store: hands it the request of `step`, if there
/// is one, and goes on from the answer.
pub fn advance<C: SessionStore>(cache: &mut C, keys: &Keys, step: Step) -> (r: Step)
    requires
        old(cache).valid(),
    ensures
        final(cache).valid(),
        final(cache).dependable() == old(cache).dependable(),
        advanced(
            old(cache).markers(),
            old(cache).dependable(),
            keys,
            step@,
            r@,
            final(cache).markers(),
        ),
        requests_left(step@) > 0 ==> requests_left(r@) < requests_left(step@),
{
    match step {
        Step::Ask(command, pending) => {
            let answer = perform(cache, &command);
            resume(keys, pending, answer)
        },
        Step::Finish(result) => Step::Finish(result),
    }
}

} // verus!
