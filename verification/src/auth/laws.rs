//! What holds of the operations on a token pair, taken together.

use crate::auth::codec::{decoded, encoded, session_of};
use crate::auth::error::Error;
use crate::auth::pair::{
    both_verify, issue_post, lemma_issued_pair_verifies, refresh_post, well_issued,
};
use crate::auth::store::{extended, written};
use crate::auth::token::{revoked, verified, Keys, ACCESS_TTL, REFRESH_TTL};
use vstd::prelude::*;

verus! {

/// A pair that was issued verifies at once: after a successful issuing, both
/// tokens stand for the user they were issued for, at any time, as long as the
/// store holds what the issuing left in it.
pub proof fn lemma_issued_pair_is_alive(
    before: Map<Seq<char>, int>,
    dependable: bool,
    keys: &Keys,
    session: Seq<char>,
    user: Seq<char>,
    pair: (Seq<char>, Seq<char>),
    after: Map<Seq<char>, int>,
)
    requires
        issue_post(
            before,
            dependable,
            keys,
            session,
            user,
            Ok::<(Seq<char>, Seq<char>), Error>(pair),
            after,
        ),
    ensures
        both_verify(pair, keys, after, user),
        after.contains_key(session),
        after[session] == REFRESH_TTL,
{
    lemma_issued_pair_verifies(pair, keys, session, user, after);
}

/// A pair that was destroyed is dead: once the marker of its session is
/// removed, neither token verifies any more, and the error is `InvalidSession`
/// although both signatures are still good.
pub proof fn lemma_destroyed_pair_is_dead(
    keys: &Keys,
    session: Seq<char>,
    user: Seq<char>,
    pair: (Seq<char>, Seq<char>),
    markers: Map<Seq<char>, int>,
    now: u64,
)
    requires
        well_issued(pair, keys, session, user),
    ensures
        revoked(pair.0, markers) == Ok::<Map<Seq<char>, int>, Error>(markers.remove(session)),
        verified(pair.0, keys.access@, markers.remove(session), now) == Err::<Seq<char>, Error>(
            Error::InvalidSession,
        ),
        verified(pair.1, keys.refresh@, markers.remove(session), now) == Err::<Seq<char>, Error>(
            Error::InvalidSession,
        ),
{
    assert(decoded(pair.0, keys.access@, now) == Ok::<Seq<char>, Error>(user));
    assert(decoded(pair.1, keys.refresh@, now) == Ok::<Seq<char>, Error>(
        user,
    ));
}

/// Destroying a pair twice leaves the store as destroying it once does.
pub proof fn lemma_destroy_is_idempotent(token: Seq<char>, markers: Map<Seq<char>, int>)
    requires
        revoked(token, markers) is Ok,
    ensures
        revoked(token, revoked(token, markers)->Ok_0) == revoked(token, markers),
{
    let session = session_of(token)->Ok_0;
    assert(markers.remove(session).remove(session) =~= markers.remove(session));
}

/// A renewal through the refresh token gives a new pair: where the access
/// token of a pair does not verify but its refresh token does, a renewal that
/// succeeds returns the pair of the proved user in the fresh session, both of
/// whose tokens verify; its session is another than that of the old pair
/// whenever the fresh session id is. With a store that never fails the renewal
/// succeeds exactly when both tokens can be signed.
pub proof fn lemma_refresh_issues_new_pair(
    before: Map<Seq<char>, int>,
    dependable: bool,
    keys: &Keys,
    pair: (Seq<char>, Seq<char>),
    now: u64,
    fresh: Seq<char>,
    r: Result<(Seq<char>, Seq<char>), Error>,
    after: Map<Seq<char>, int>,
)
    requires
        refresh_post(before, dependable, keys, pair, now, fresh, None, r, after),
        verified(pair.0, keys.access@, before, now) is Err,
        verified(pair.1, keys.refresh@, before, now) is Ok,
    ensures
        r matches Ok(renewed) ==> {
            let user = verified(pair.1, keys.refresh@, before, now)->Ok_0;
            &&& well_issued(renewed, keys, fresh, user)
            &&& both_verify(renewed, keys, after, user)
            &&& after == written(before, fresh, REFRESH_TTL as int)
            &&& session_of(pair.1) != Ok::<Seq<char>, Error>(fresh) ==> session_of(renewed.0)
                != session_of(pair.1) && session_of(renewed.1) != session_of(pair.1)
        },
        dependable ==> (r is Ok <==> {
            let user = verified(pair.1, keys.refresh@, before, now)->Ok_0;
            encoded(fresh, keys.access@, user) is Ok && encoded(fresh, keys.refresh@, user) is Ok
        }),
{
    let user = verified(pair.1, keys.refresh@, before, now)->Ok_0;
    if r is Ok {
        lemma_issued_pair_verifies(r->Ok_0, keys, fresh, user, after);
    }
}

/// A renewal through the access token keeps the pair: where the access token
/// of a pair verifies and the store does not fail, the renewal returns the
/// very same pair, and the marker of the session that both tokens name holds
/// the refresh lifetime afterwards.
pub proof fn lemma_refresh_keeps_valid_pair(
    before: Map<Seq<char>, int>,
    keys: &Keys,
    pair: (Seq<char>, Seq<char>),
    now: u64,
    fresh: Seq<char>,
    holder: Option<Seq<char>>,
    r: Result<(Seq<char>, Seq<char>), Error>,
    after: Map<Seq<char>, int>,
)
    requires
        refresh_post(before, true, keys, pair, now, fresh, holder, r, after),
        verified(pair.0, keys.access@, before, now) is Ok,
        session_of(pair.1) == session_of(pair.0),
    ensures
        r == Ok::<(Seq<char>, Seq<char>), Error>(pair),
        after == before.insert(session_of(pair.0)->Ok_0, REFRESH_TTL as int),
{
    let session = session_of(pair.0)->Ok_0;
    let first = extended(before, session, ACCESS_TTL as int);
    assert(before.contains_key(session));
    assert(first == before.insert(session, ACCESS_TTL as int));
    assert(first.contains_key(session));
    assert(extended(first, session, REFRESH_TTL as int) =~= before.insert(
        session,
        REFRESH_TTL as int,
    ));
}

/// A renewal that cannot go through fails and writes nothing: where neither
/// token of a pair verifies, the renewal returns an error and the store holds
/// the markers it held before.
pub proof fn lemma_refresh_of_dead_pair_fails(
    before: Map<Seq<char>, int>,
    dependable: bool,
    keys: &Keys,
    pair: (Seq<char>, Seq<char>),
    now: u64,
    fresh: Seq<char>,
    holder: Option<Seq<char>>,
    r: Result<(Seq<char>, Seq<char>), Error>,
    after: Map<Seq<char>, int>,
)
    requires
        refresh_post(before, dependable, keys, pair, now, fresh, holder, r, after),
        verified(pair.0, keys.access@, before, now) is Err,
        verified(pair.1, keys.refresh@, before, now) is Err,
    ensures
        r is Err,
        after == before,
        dependable ==> r == Err::<(Seq<char>, Seq<char>), Error>(
            verified(pair.1, keys.refresh@, before, now)->Err_0,
        ),
{
}

/// A dead session stays dead for both tokens: without the marker of its
/// session no token verifies, whatever its signature.
pub proof fn lemma_no_marker_no_session(
    token: Seq<char>,
    secret: Seq<u8>,
    markers: Map<Seq<char>, int>,
    now: u64,
)
    requires
        session_of(token) matches Ok(session) && !markers.contains_key(session),
    ensures
        verified(token, secret, markers, now) is Err,
{
}

/// The writes to the store are safe to repeat: one that is made twice leaves
/// what it leaves when it is made once.
pub proof fn lemma_writes_can_be_repeated(markers: Map<Seq<char>, int>, session: Seq<char>, ttl: int)
    ensures
        written(written(markers, session, ttl), session, ttl) == written(markers, session, ttl),
        extended(extended(markers, session, ttl), session, ttl) == extended(
            markers,
            session,
            ttl,
        ),
        markers.remove(session).remove(session) == markers.remove(session),
{
    assert(written(written(markers, session, ttl), session, ttl) =~= written(
        markers,
        session,
        ttl,
    ));
    assert(extended(extended(markers, session, ttl), session, ttl) =~= extended(
        markers,
        session,
        ttl,
    ));
    assert(markers.remove(session).remove(session) =~= markers.remove(session));
}

/// Sessions do not touch each other: a write for one session leaves the
/// marker of every other session as it was.
pub proof fn lemma_sessions_are_independent(
    markers: Map<Seq<char>, int>,
    session: Seq<char>,
    other: Seq<char>,
    ttl: int,
)
    requires
        other != session,
    ensures
        written(markers, session, ttl).contains_key(other) == markers.contains_key(other),
        extended(markers, session, ttl).contains_key(other) == markers.contains_key(other),
        markers.remove(session).contains_key(other) == markers.contains_key(other),
        markers.contains_key(other) ==> written(markers, session, ttl)[other] == markers[other]
            && extended(markers, session, ttl)[other] == markers[other] && markers.remove(
            session,
        )[other] == markers[other],
{
}

} // verus!
