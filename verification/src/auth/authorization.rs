//! Who can be given tokens.

use crate::auth::error::Error;
use crate::auth::pair::{
    both_verify, holder_view, issue, issue_post, pair_result, refresh_post, refresh_with,
    TokenPair,
};
use crate::auth::store::SessionStore;
use crate::auth::token::Keys;
use crate::user::identifier::{uuid_text, Uuid};
use crate::user::record::User;
use vstd::prelude::*;

verus! {

/// Something that sessions are opened for, with `T` as the liveness store.
pub trait Authorization<T: SessionStore> {
    /// The user id that the tokens carry.
    spec fn subject(&self) -> Seq<char>;

    /// Issues a pair for the subject in a fresh session.
    fn genrate_tokens(&self, cache: &mut T, keys: &Keys) -> (r: Result<TokenPair, Error>)
        requires
            old(cache).valid(),
        ensures
            final(cache).valid(),
            final(cache).dependable() == old(cache).dependable(),
            exists|session: Seq<char>|
                #[trigger] issue_post(
                    old(cache).markers(),
                    old(cache).dependable(),
                    keys,
                    session,
                    self.subject(),
                    pair_result(r),
                    final(cache).markers(),
                ),
            r matches Ok(pair) ==> both_verify(pair@, keys, final(cache).markers(), self.subject()),
    ;

    /// Renews `tokens` at the time `now`: a pair whose access token verifies
    /// is extended and comes back as it is; otherwise, where the refresh
    /// token verifies, a new pair is issued for the subject.
    fn refresh_tokens(&self, cache: &mut T, keys: &Keys, tokens: TokenPair, now: u64) -> (r: Result<
        TokenPair,
        Error,
    >)
        requires
            old(cache).valid(),
        ensures
            final(cache).valid(),
            final(cache).dependable() == old(cache).dependable(),
            exists|fresh: Seq<char>|
                #[trigger] refresh_post(
                    old(cache).markers(),
                    old(cache).dependable(),
                    keys,
                    tokens@,
                    now,
                    fresh,
                    Some(self.subject()),
                    pair_result(r),
                    final(cache).markers(),
                ),
    ;
}

impl<T: SessionStore> Authorization<T> for User {
    /// A user is known to the tokens by the text of its id.
    open spec fn subject(&self) -> Seq<char> {
        uuid_text(self.id@)
    }

    fn genrate_tokens(&self, cache: &mut T, keys: &Keys) -> (r: Result<TokenPair, Error>) {
        let user_id = self.id.to_text();
        assert(user_id@ == Authorization::<T>::subject(self));
        issue(cache, keys, user_id.as_str())
    }

    fn refresh_tokens(&self, cache: &mut T, keys: &Keys, tokens: TokenPair, now: u64) -> (r: Result<
        TokenPair,
        Error,
    >) {
        let user_id = self.id.to_text();
        let fresh = Uuid::generate().to_text();
        let holder = Some(user_id.as_str());
        assert(holder_view(holder) == Some(Authorization::<T>::subject(self)));
        refresh_with(cache, keys, tokens, now, fresh.as_str(), holder)
    }
}

} // verus!
