//! The access / refresh pair of one session: how it is issued, verified,
//! renewed and destroyed.

use crate::auth::codec::{decoded, encoded, session_of, text_result};
use crate::auth::error::{CacheFault, Error};
use crate::auth::machine::{
    advance, advanced, began_fallback, began_issue, began_refresh, begin_destroy, begin_issue,
    begin_refresh, begin_verify, closed, holder_text, perform, performed, reissue_user, resumed,
    signs_soundly, sound_encoding, Finished, Given, Request, Stage, Step, Waiting,
};
pub use crate::auth::machine::TokenPair;
use crate::auth::store::{written, SessionStore};
use crate::auth::token::{
    asks_store, failure_of, proves, renewed, revoked, store_changed, verified, Keys, TokenClass,
    ACCESS_TTL, REFRESH_TTL,
};
use crate::user::identifier::Uuid;
use vstd::pervasive::unreached;
use vstd::prelude::*;

verus! {

/// A result that holds a pair, as plain text.
pub open spec fn pair_result(r: Result<TokenPair, Error>) -> Result<(Seq<char>, Seq<char>), Error> {
    match r {
        Ok(pair) => Ok(pair@),
        Err(e) => Err(e),
    }
}

/// The pair or the error that an operation on a pair ended with.
fn concluded_pair(step: Step) -> (r: Result<TokenPair, Error>)
    requires
        step@ matches Stage::Finish(given) && (given matches Ok(what) ==> what is Pair),
    ensures
        step@ == Stage::Finish(
            match r {
                Ok(pair) => Ok(Given::Pair(pair@)),
                Err(e) => Err(e),
            },
        ),
{
    match step {
        Step::Finish(Ok(Finished::Pair(pair))) => Ok(pair),
        Step::Finish(Err(e)) => Err(e),
        _ => unreached(),
    }
}

/// The user or the error that a verification ended with.
fn concluded_user(step: Step) -> (r: Result<String, Error>)
    requires
        step@ matches Stage::Finish(given) && (given matches Ok(what) ==> what is User),
    ensures
        step@ == Stage::Finish(
            match r {
                Ok(user) => Ok(Given::User(user@)),
                Err(e) => Err(e),
            },
        ),
{
    match step {
        Step::Finish(Ok(Finished::User(user))) => Ok(user),
        Step::Finish(Err(e)) => Err(e),
        _ => unreached(),
    }
}

/// Whether `pair` is the pair of `user` in the session `session`: both tokens
/// are the ones signing gives, both name the session, and each proves the user
/// under the secret of its class.
pub open spec fn well_issued(
    pair: (Seq<char>, Seq<char>),
    keys: &Keys,
    session: Seq<char>,
    user: Seq<char>,
) -> bool {
    &&& encoded(session, keys.access@, user) == Ok::<Seq<char>, Error>(pair.0)
    &&& encoded(session, keys.refresh@, user) == Ok::<Seq<char>, Error>(pair.1)
    &&& session_of(pair.0) == Ok::<Seq<char>, Error>(session)
    &&& session_of(pair.1) == Ok::<Seq<char>, Error>(session)
    &&& proves(pair.0, keys.access@, user)
    &&& proves(pair.1, keys.refresh@, user)
}

/// Whether both tokens of `pair` verify for `user` at any time, given the
/// markers of the store.
pub open spec fn both_verify(
    pair: (Seq<char>, Seq<char>),
    keys: &Keys,
    markers: Map<Seq<char>, int>,
    user: Seq<char>,
) -> bool {
    forall|now: u64|
        #![trigger verified(pair.0, keys.access@, markers, now)]
        #![trigger verified(pair.1, keys.refresh@, markers, now)]
        verified(pair.0, keys.access@, markers, now) == Ok::<Seq<char>, Error>(user) && verified(
            pair.1,
            keys.refresh@,
            markers,
            now,
        ) == Ok::<Seq<char>, Error>(user)
}

/// What issuing a pair for `user` in the session `session` came to.
///
/// On success the pair is the one of the user and the session, and the marker
/// of the session holds the refresh lifetime: it is written after the access
/// lifetime and replaces it. A token that cannot be signed ends the issuing
/// with what was written before it. A failure of the store leaves the marker
/// in any of the states on the way.
pub open spec fn issue_post(
    before: Map<Seq<char>, int>,
    dependable: bool,
    keys: &Keys,
    session: Seq<char>,
    user: Seq<char>,
    r: Result<(Seq<char>, Seq<char>), Error>,
    after: Map<Seq<char>, int>,
) -> bool {
    let access = encoded(session, keys.access@, user);
    let refresh = encoded(session, keys.refresh@, user);
    let first = written(before, session, ACCESS_TTL as int);
    let last = written(before, session, REFRESH_TTL as int);
    match r {
        Ok(pair) => well_issued(pair, keys, session, user) && after == last,
        Err(Error::SigningError) => (access is Err && after == before) || (access is Ok
            && refresh is Err && after == first),
        Err(Error::CacheUnavailable) => !dependable && access is Ok && (after == before || after
            == first || (refresh is Ok && after == last)),
        Err(_) => false,
    }
}

/// Issues the pair of `user_id` in the session `session_id`: signs the access
/// token and writes the marker with the access lifetime, then signs the
/// refresh token and writes the same marker with the refresh lifetime.
pub fn issue_with<C: SessionStore>(cache: &mut C, keys: &Keys, session_id: &str, user_id: &str) -> (r:
    Result<TokenPair, Error>)
    requires
        old(cache).valid(),
    ensures
        final(cache).valid(),
        final(cache).dependable() == old(cache).dependable(),
        issue_post(
            old(cache).markers(),
            old(cache).dependable(),
            keys,
            session_id@,
            user_id@,
            pair_result(r),
            final(cache).markers(),
        ),
        r matches Ok(pair) ==> both_verify(pair@, keys, final(cache).markers(), user_id@),
{
    let ghost before = cache.markers();
    let step = begin_issue(keys, session_id, user_id);
    let step = advance(cache, keys, step);
    let step = advance(cache, keys, step);
    proof {
        lemma_written_twice(before, session_id@, ACCESS_TTL as int, REFRESH_TTL as int);
    }
    let r = concluded_pair(step);
    proof {
        if r is Ok {
            lemma_issued_pair_verifies(r->Ok_0@, keys, session_id@, user_id@, cache.markers());
        }
    }
    r
}

/// A marker that is written twice holds the lifetime that was written last.
pub proof fn lemma_written_twice(
    markers: Map<Seq<char>, int>,
    session: Seq<char>,
    first: int,
    last: int,
)
    ensures
        written(written(markers, session, first), session, last) == written(
            markers,
            session,
            last,
        ),
{
    assert(written(written(markers, session, first), session, last) =~= written(
        markers,
        session,
        last,
    ));
}

/// Both tokens of an issued pair verify for its user as long as the marker of
/// its session is there.
pub proof fn lemma_issued_pair_verifies(
    pair: (Seq<char>, Seq<char>),
    keys: &Keys,
    session: Seq<char>,
    user: Seq<char>,
    markers: Map<Seq<char>, int>,
)
    requires
        well_issued(pair, keys, session, user),
        markers.contains_key(session),
    ensures
        both_verify(pair, keys, markers, user),
{
    assert forall|now: u64|
        #![trigger verified(pair.0, keys.access@, markers, now)]
        #![trigger verified(pair.1, keys.refresh@, markers, now)]
        verified(pair.0, keys.access@, markers, now) == Ok::<Seq<char>, Error>(user) && verified(
            pair.1,
            keys.refresh@,
            markers,
            now,
        ) == Ok::<Seq<char>, Error>(user) by {
        assert(decoded(pair.0, keys.access@, now) == Ok::<Seq<char>, Error>(user));
        assert(decoded(pair.1, keys.refresh@, now) == Ok::<Seq<char>, Error>(user));
    }
}

/// Issues a pair for `user_id` in a fresh session.
pub fn issue<C: SessionStore>(cache: &mut C, keys: &Keys, user_id: &str) -> (r: Result<
    TokenPair,
    Error,
>)
    requires
        old(cache).valid(),
    ensures
        final(cache).valid(),
        final(cache).dependable() == old(cache).dependable(),
        exists|session: Seq<char>|
            #[trigger] issue_post(
                old(cache).markers(),
                old(cache).dependable(),
                keys,
                session,
                user_id@,
                pair_result(r),
                final(cache).markers(),
            ),
        r matches Ok(pair) ==> both_verify(pair@, keys, final(cache).markers(), user_id@),
{
    let session = Uuid::generate().to_text();
    issue_with(cache, keys, session.as_str(), user_id)
}

/// Tells what user a token of the class `class` stands for at the time `now`:
/// its signature has to verify under the secret of the class, and its session
/// has to be alive. The store is left as it is.
pub fn verify<C: SessionStore>(
    token: &str,
    class: TokenClass,
    cache: &mut C,
    keys: &Keys,
    now: u64,
) -> (r: Result<String, Error>)
    requires
        old(cache).valid(),
    ensures
        final(cache).valid(),
        final(cache).dependable() == old(cache).dependable(),
        final(cache).markers() == old(cache).markers(),
        text_result(r) == verified(token@, keys.secret_of(class), old(cache).markers(), now) || (
        r == Err::<String, Error>(Error::CacheUnavailable) && !old(cache).dependable()
            && asks_store(token@, keys.secret_of(class), now)),
{
    let step = begin_verify(token, keys.secret(class), now);
    let step = advance(cache, keys, step);
    concluded_user(step)
}

/// Ends the session of `pair`: removes the marker of the session that its
/// access token names. Doing so again changes nothing.
pub fn destroy<C: SessionStore>(pair: &TokenPair, cache: &mut C) -> (r: Result<(), Error>)
    requires
        old(cache).valid(),
    ensures
        final(cache).valid(),
        final(cache).dependable() == old(cache).dependable(),
        store_changed(
            revoked(pair.access@, old(cache).markers()),
            old(cache).dependable(),
            old(cache).markers(),
            failure_of(r),
            final(cache).markers(),
        ),
{
    match begin_destroy(pair) {
        Step::Ask(command, _) => closed(perform(cache, &command)),
        Step::Finish(Err(e)) => Err(e),
        Step::Finish(Ok(_)) => unreached(),
    }
}

/// What extending the session of a pair whose access token verified came to.
///
/// The marker of the session that the access token names is reset to the
/// access lifetime, then the marker of the session that the refresh token
/// names to the refresh lifetime, and the pair comes back as it was. A
/// failure of the store ends the extension where it happens.
pub open spec fn extension_post(
    before: Map<Seq<char>, int>,
    dependable: bool,
    pair: (Seq<char>, Seq<char>),
    r: Result<(Seq<char>, Seq<char>), Error>,
    after: Map<Seq<char>, int>,
) -> bool {
    match renewed(pair.0, before, ACCESS_TTL as int) {
        Err(e) => r == Err::<(Seq<char>, Seq<char>), Error>(e) && after == before,
        Ok(first) => {
            ||| r == Err::<(Seq<char>, Seq<char>), Error>(Error::CacheUnavailable) && !dependable
                && (after == before || after == first)
            ||| store_changed(
                renewed(pair.1, first, REFRESH_TTL as int),
                dependable,
                first,
                failure_of(r),
                after,
            ) && (r is Ok ==> r == Ok::<(Seq<char>, Seq<char>), Error>(pair))
        },
    }
}

/// What falling back on the refresh token came to.
///
/// Where the refresh token does not verify, its error comes back and nothing
/// is written. Where it does, a new pair is issued in the session `fresh`.
pub open spec fn fallback_post(
    before: Map<Seq<char>, int>,
    dependable: bool,
    keys: &Keys,
    pair: (Seq<char>, Seq<char>),
    now: u64,
    fresh: Seq<char>,
    holder: Option<Seq<char>>,
    r: Result<(Seq<char>, Seq<char>), Error>,
    after: Map<Seq<char>, int>,
) -> bool {
    match verified(pair.1, keys.refresh@, before, now) {
        Err(e) => after == before && (r == Err::<(Seq<char>, Seq<char>), Error>(e) || (!dependable
            && r == Err::<(Seq<char>, Seq<char>), Error>(Error::CacheUnavailable))),
        Ok(proved) => {
            ||| !dependable && r == Err::<(Seq<char>, Seq<char>), Error>(Error::CacheUnavailable)
                && after == before
            ||| issue_post(before, dependable, keys, fresh, reissue_user(holder, proved), r, after)
        },
    }
}

/// What renewing a pair at the time `now` came to.
///
/// Where the access token verifies, the session is extended and the pair
/// stays. Where it does not, the refresh token decides. With a store that
/// fails, a verification may end in `CacheUnavailable`, which counts as a
/// failure of the token it was about.
pub open spec fn refresh_post(
    before: Map<Seq<char>, int>,
    dependable: bool,
    keys: &Keys,
    pair: (Seq<char>, Seq<char>),
    now: u64,
    fresh: Seq<char>,
    holder: Option<Seq<char>>,
    r: Result<(Seq<char>, Seq<char>), Error>,
    after: Map<Seq<char>, int>,
) -> bool {
    let access_check = verified(pair.0, keys.access@, before, now);
    ||| access_check is Ok && extension_post(before, dependable, pair, r, after)
    ||| (access_check is Err || !dependable) && fallback_post(
        before,
        dependable,
        keys,
        pair,
        now,
        fresh,
        holder,
        r,
        after,
    )
}

/// The pair or the error of a stage that is done.
pub open spec fn pair_given(stage: Stage) -> Result<(Seq<char>, Seq<char>), Error> {
    match stage {
        Stage::Finish(Ok(Given::Pair(pair))) => Ok(pair),
        Stage::Finish(Err(e)) => Err(e),
        _ => arbitrary(),
    }
}

/// Whether a stage is done and gave a pair or an error.
pub open spec fn ends_with_pair(stage: Stage) -> bool {
    stage matches Stage::Finish(given) && (given matches Ok(what) ==> what is Pair)
}

/// An issuing is done after two rounds with the store, and comes to what
/// [`issue_post`] says.
proof fn lemma_issue_rounds(
    m0: Map<Seq<char>, int>,
    dependable: bool,
    keys: &Keys,
    session: Seq<char>,
    user: Seq<char>,
    s1: Stage,
    m1: Map<Seq<char>, int>,
    s2: Stage,
    m2: Map<Seq<char>, int>,
)
    requires
        sound_encoding(session, keys.access@, user),
        advanced(m0, dependable, keys, began_issue(keys, session, user), s1, m1),
        advanced(m1, dependable, keys, s1, s2, m2),
    ensures
        ends_with_pair(s2),
        issue_post(m0, dependable, keys, session, user, pair_given(s2), m2),
{
    lemma_written_twice(m0, session, ACCESS_TTL as int, REFRESH_TTL as int);
}

/// An extension is done after two rounds with the store, and comes to what
/// [`extension_post`] says.
proof fn lemma_extension_rounds(
    m0: Map<Seq<char>, int>,
    dependable: bool,
    keys: &Keys,
    pair: (Seq<char>, Seq<char>),
    s1: Stage,
    m1: Map<Seq<char>, int>,
    s2: Stage,
    m2: Map<Seq<char>, int>,
)
    requires
        session_of(pair.0) is Ok,
        advanced(
            m0,
            dependable,
            keys,
            Stage::Ask(
                Request::Extend(session_of(pair.0)->Ok_0, ACCESS_TTL as int),
                Waiting::ExtendAccess { pair },
            ),
            s1,
            m1,
        ),
        advanced(m1, dependable, keys, s1, s2, m2),
    ensures
        ends_with_pair(s2),
        extension_post(m0, dependable, pair, pair_given(s2), m2),
{
}

/// A fallback on the refresh token is done after three rounds with the store,
/// and comes to what [`fallback_post`] says.
proof fn lemma_fallback_rounds(
    m0: Map<Seq<char>, int>,
    dependable: bool,
    keys: &Keys,
    pair: (Seq<char>, Seq<char>),
    now: u64,
    fresh: Seq<char>,
    holder: Option<Seq<char>>,
    s1: Stage,
    m1: Map<Seq<char>, int>,
    s2: Stage,
    m2: Map<Seq<char>, int>,
    s3: Stage,
    m3: Map<Seq<char>, int>,
)
    requires
        advanced(m0, dependable, keys, began_fallback(keys, pair, now, fresh, holder), s1, m1),
        advanced(m1, dependable, keys, s1, s2, m2),
        advanced(m2, dependable, keys, s2, s3, m3),
    ensures
        ends_with_pair(s3),
        fallback_post(m0, dependable, keys, pair, now, fresh, holder, pair_given(s3), m3),
{
    let start = began_fallback(keys, pair, now, fresh, holder);
    match start {
        Stage::Finish(_) => {},
        Stage::Ask(request, waiting) => {
            let proved = decoded(pair.1, keys.refresh@, now)->Ok_0;
            let answer = choose|answer: Result<bool, CacheFault>|
                #![trigger resumed(keys, waiting, answer)]
                performed(m0, dependable, request, answer, m1) && s1 == resumed(
                    keys,
                    waiting,
                    answer,
                ) && signs_soundly(keys, waiting, answer);
            if answer == Ok::<bool, CacheFault>(true) {
                lemma_issue_rounds(
                    m1,
                    dependable,
                    keys,
                    fresh,
                    reissue_user(holder, proved),
                    s2,
                    m2,
                    s3,
                    m3,
                );
            }
        },
    }
}

/// A renewal is done after four rounds with the store, and comes to what
/// [`refresh_post`] says.
proof fn lemma_refresh_rounds(
    m0: Map<Seq<char>, int>,
    dependable: bool,
    keys: &Keys,
    pair: (Seq<char>, Seq<char>),
    now: u64,
    fresh: Seq<char>,
    holder: Option<Seq<char>>,
    s1: Stage,
    m1: Map<Seq<char>, int>,
    s2: Stage,
    m2: Map<Seq<char>, int>,
    s3: Stage,
    m3: Map<Seq<char>, int>,
    s4: Stage,
    m4: Map<Seq<char>, int>,
)
    requires
        advanced(m0, dependable, keys, began_refresh(keys, pair, now, fresh, holder), s1, m1),
        advanced(m1, dependable, keys, s1, s2, m2),
        advanced(m2, dependable, keys, s2, s3, m3),
        advanced(m3, dependable, keys, s3, s4, m4),
    ensures
        ends_with_pair(s4),
        refresh_post(m0, dependable, keys, pair, now, fresh, holder, pair_given(s4), m4),
{
    if decoded(pair.0, keys.access@, now) is Ok && session_of(pair.0) is Ok {
        let request = Request::IsAlive(session_of(pair.0)->Ok_0);
        let waiting = Waiting::RefreshAccess { pair, now, fresh, holder };
        let answer = choose|answer: Result<bool, CacheFault>|
            #![trigger resumed(keys, waiting, answer)]
            performed(m0, dependable, request, answer, m1) && s1 == resumed(keys, waiting, answer)
                && signs_soundly(keys, waiting, answer);
        if answer == Ok::<bool, CacheFault>(true) {
            lemma_extension_rounds(m1, dependable, keys, pair, s2, m2, s3, m3);
        } else {
            lemma_fallback_rounds(
                m1,
                dependable,
                keys,
                pair,
                now,
                fresh,
                holder,
                s2,
                m2,
                s3,
                m3,
                s4,
                m4,
            );
        }
    } else {
        lemma_fallback_rounds(m0, dependable, keys, pair, now, fresh, holder, s1, m1, s2, m2, s3, m3);
    }
}

/// A holder that may be given, as plain text.
pub open spec fn holder_view(holder: Option<&str>) -> Option<Seq<char>> {
    match holder {
        Some(user) => Some(user@),
        None => None,
    }
}

/// Renews `pair` at the time `now`, with `fresh_session` as the session of a
/// new pair, should one be issued. A new pair is issued for `holder` where one
/// is given, and otherwise for the user that the refresh token proves.
pub fn refresh_with<C: SessionStore>(
    cache: &mut C,
    keys: &Keys,
    pair: TokenPair,
    now: u64,
    fresh_session: &str,
    holder: Option<&str>,
) -> (r: Result<TokenPair, Error>)
    requires
        old(cache).valid(),
    ensures
        final(cache).valid(),
        final(cache).dependable() == old(cache).dependable(),
        refresh_post(
            old(cache).markers(),
            old(cache).dependable(),
            keys,
            pair@,
            now,
            fresh_session@,
            holder_view(holder),
            pair_result(r),
            final(cache).markers(),
        ),
{
    let holder = match holder {
        Some(user) => Some(user.to_string()),
        None => None,
    };
    let ghost m0 = cache.markers();
    let ghost view = pair@;
    let step = begin_refresh(keys, pair, now, fresh_session.to_string(), holder);
    let step = advance(cache, keys, step);
    let ghost (s1, m1) = (step@, cache.markers());
    let step = advance(cache, keys, step);
    let ghost (s2, m2) = (step@, cache.markers());
    let step = advance(cache, keys, step);
    let ghost (s3, m3) = (step@, cache.markers());
    let step = advance(cache, keys, step);
    proof {
        lemma_refresh_rounds(
            m0,
            cache.dependable(),
            keys,
            view,
            now,
            fresh_session@,
            holder_text(holder),
            s1,
            m1,
            s2,
            m2,
            s3,
            m3,
            step@,
            cache.markers(),
        );
    }
    concluded_pair(step)
}

/// Renews `pair` at the time `now`: a pair whose access token verifies is
/// extended and comes back as it is; otherwise, where the refresh token
/// verifies, a new pair is issued for its user in a fresh session.
pub fn refresh<C: SessionStore>(cache: &mut C, keys: &Keys, pair: TokenPair, now: u64) -> (r:
    Result<TokenPair, Error>)
    requires
        old(cache).valid(),
    ensures
        final(cache).valid(),
        final(cache).dependable() == old(cache).dependable(),
        exists|fresh: Seq<char>|
            #[trigger] refresh_post(
                old(cache).markers(),
                old(cache).dependable(),
                keys,
                pair@,
                now,
                fresh,
                None,
                pair_result(r),
                final(cache).markers(),
            ),
{
    let fresh = Uuid::generate().to_text();
    refresh_with(cache, keys, pair, now, fresh.as_str(), None)
}

} // verus!
