use user_auth::auth::codec::{encode, peek_session_id};
use user_auth::auth::error::{CacheFault, Error};
use user_auth::auth::machine::{
    advance, begin_destroy, begin_issue, begin_refresh, begin_verify, closed, perform, resume,
    Command, Finished, Pending, Step, TokenPair,
};
use user_auth::auth::store::{MemoryStore, OfflineStore};
use user_auth::auth::token::{AccessToken, Keys, RefreshToken};

fn keys() -> Keys {
    Keys { access: b"access-secret".to_vec(), refresh: b"refresh-secret".to_vec() }
}

fn pair_in(session: &str, user: &str) -> TokenPair {
    let keys = keys();
    TokenPair {
        access: AccessToken(encode(session, &keys.access, user).unwrap()),
        refresh: RefreshToken(encode(session, &keys.refresh, user).unwrap()),
    }
}

fn asked(step: Step) -> (Command, Pending) {
    match step {
        Step::Ask(command, pending) => (command, pending),
        Step::Finish(result) => panic!("done too early: {:?}", result),
    }
}

fn done(step: Step) -> Result<Finished, Error> {
    match step {
        Step::Finish(result) => result,
        Step::Ask(command, _) => panic!("still asks: {:?}", command),
    }
}

fn error_of(step: Step) -> Error {
    done(step).unwrap_err()
}

#[test]
fn issuing_writes_the_marker_twice() {
    let keys = keys();
    let (command, pending) = asked(begin_issue(&keys, "s", "u1"));
    assert!(matches!(&command, Command::MarkAlive { session_id, ttl: 3600 } if session_id == "s"));
    let (command, pending) = asked(resume(&keys, pending, Ok(true)));
    assert!(matches!(&command, Command::MarkAlive { session_id, ttl: 86400 } if session_id == "s"));
    match done(resume(&keys, pending, Ok(true))) {
        Ok(Finished::Pair(pair)) => {
            assert_eq!(pair.access.0, encode("s", &keys.access, "u1").unwrap());
            assert_eq!(pair.refresh.0, encode("s", &keys.refresh, "u1").unwrap());
        },
        other => panic!("no pair: {:?}", other),
    }
}

#[test]
fn a_failing_store_ends_an_issuing() {
    let keys = keys();
    let (_, pending) = asked(begin_issue(&keys, "s", "u1"));
    assert_eq!(error_of(resume(&keys, pending, Err(CacheFault))), Error::CacheUnavailable);
    let (_, pending) = asked(begin_issue(&keys, "s", "u1"));
    let (_, pending) = asked(resume(&keys, pending, Ok(false)));
    assert_eq!(error_of(resume(&keys, pending, Err(CacheFault))), Error::CacheUnavailable);
}

#[test]
fn a_verification_asks_for_the_session_of_the_token() {
    let keys = keys();
    let token = encode("s", &keys.access, "u1").unwrap();
    let (command, pending) = asked(begin_verify(&token, &keys.access, 0));
    assert!(matches!(&command, Command::IsAlive { session_id } if session_id == "s"));
    assert!(matches!(done(resume(&keys, pending, Ok(true))), Ok(Finished::User(user)) if user == "u1"));
    let (_, pending) = asked(begin_verify(&token, &keys.access, 0));
    assert_eq!(error_of(resume(&keys, pending, Ok(false))), Error::InvalidSession);
    let (_, pending) = asked(begin_verify(&token, &keys.access, 0));
    assert_eq!(error_of(resume(&keys, pending, Err(CacheFault))), Error::CacheUnavailable);
    assert_eq!(error_of(begin_verify(&token, &keys.refresh, 0)), Error::InvalidSignature);
    assert_eq!(error_of(begin_verify("not a token", &keys.access, 0)), Error::Malformed);
}

#[test]
fn a_destruction_asks_for_the_marker_to_go() {
    let keys = keys();
    let pair = pair_in("s", "u1");
    let (command, pending) = asked(begin_destroy(&pair));
    assert!(matches!(&command, Command::Revoke { session_id } if session_id == "s"));
    assert!(matches!(done(resume(&keys, pending, Ok(true))), Ok(Finished::Closed)));
    let (_, pending) = asked(begin_destroy(&pair));
    assert_eq!(error_of(resume(&keys, pending, Err(CacheFault))), Error::CacheUnavailable);
    let broken = TokenPair {
        access: AccessToken("not a token".to_string()),
        refresh: RefreshToken(pair.refresh.0.clone()),
    };
    assert_eq!(error_of(begin_destroy(&broken)), Error::Malformed);
    assert_eq!(closed(Ok(false)), Ok(()));
    assert_eq!(closed(Err(CacheFault)), Err(Error::CacheUnavailable));
}

#[test]
fn a_renewal_extends_access_before_refresh() {
    let keys = keys();
    let pair = pair_in("s", "u1");
    let access = pair.access.0.clone();
    let (command, pending) = asked(begin_refresh(&keys, pair, 0, "new".to_string(), None));
    assert!(matches!(&command, Command::IsAlive { session_id } if session_id == "s"));
    let (command, pending) = asked(resume(&keys, pending, Ok(true)));
    assert!(matches!(&command, Command::Extend { session_id, ttl: 3600 } if session_id == "s"));
    let (command, pending) = asked(resume(&keys, pending, Ok(true)));
    assert!(matches!(&command, Command::Extend { session_id, ttl: 86400 } if session_id == "s"));
    match done(resume(&keys, pending, Ok(true))) {
        Ok(Finished::Pair(same)) => assert_eq!(same.access.0, access),
        other => panic!("no pair: {:?}", other),
    }
}

#[test]
fn a_renewal_falls_back_when_the_access_session_is_not_alive() {
    let keys = keys();
    let pair = TokenPair {
        access: AccessToken(encode("gone", &keys.access, "u1").unwrap()),
        refresh: RefreshToken(encode("s", &keys.refresh, "u1").unwrap()),
    };
    let (_, pending) = asked(begin_refresh(&keys, pair, 0, "new".to_string(), None));
    let (command, pending) = asked(resume(&keys, pending, Ok(false)));
    assert!(matches!(&command, Command::IsAlive { session_id } if session_id == "s"));
    let (command, pending) = asked(resume(&keys, pending, Ok(true)));
    assert!(matches!(&command, Command::MarkAlive { session_id, ttl: 3600 } if session_id == "new"));
    let (command, pending) = asked(resume(&keys, pending, Ok(true)));
    assert!(matches!(&command, Command::MarkAlive { session_id, ttl: 86400 } if session_id == "new"));
    match done(resume(&keys, pending, Ok(true))) {
        Ok(Finished::Pair(renewed)) => {
            assert_eq!(peek_session_id(&renewed.access.0), Ok("new".to_string()));
            assert_eq!(renewed.refresh.0, encode("new", &keys.refresh, "u1").unwrap());
        },
        other => panic!("no pair: {:?}", other),
    }
}

#[test]
fn a_renewal_for_a_holder_issues_for_the_holder() {
    let keys = keys();
    let pair = TokenPair {
        access: AccessToken("not a token".to_string()),
        refresh: RefreshToken(encode("s", &keys.refresh, "u1").unwrap()),
    };
    let (_, pending) =
        asked(begin_refresh(&keys, pair, 0, "new".to_string(), Some("u2".to_string())));
    let (_, pending) = asked(resume(&keys, pending, Ok(true)));
    let (_, pending) = asked(resume(&keys, pending, Ok(true)));
    match done(resume(&keys, pending, Ok(true))) {
        Ok(Finished::Pair(renewed)) => {
            assert_eq!(renewed.access.0, encode("new", &keys.access, "u2").unwrap());
        },
        other => panic!("no pair: {:?}", other),
    }
}

#[test]
fn a_renewal_ends_where_the_refresh_token_fails() {
    let keys = keys();
    let dead = TokenPair {
        access: AccessToken("not a token".to_string()),
        refresh: RefreshToken("neither".to_string()),
    };
    assert_eq!(error_of(begin_refresh(&keys, dead, 0, "new".to_string(), None)), Error::Malformed);
    let pair = pair_in("s", "u1");
    let (_, pending) = asked(begin_refresh(&keys, pair, 0, "new".to_string(), None));
    let (_, pending) = asked(resume(&keys, pending, Err(CacheFault)));
    assert_eq!(error_of(resume(&keys, pending, Ok(false))), Error::InvalidSession);
    let pair = pair_in("s", "u1");
    let (_, pending) = asked(begin_refresh(&keys, pair, 0, "new".to_string(), None));
    let (_, pending) = asked(resume(&keys, pending, Ok(false)));
    assert_eq!(error_of(resume(&keys, pending, Err(CacheFault))), Error::CacheUnavailable);
}

#[test]
fn a_round_with_a_store_answers_the_request() {
    let keys = keys();
    let mut store = MemoryStore::new();
    let step = advance(&mut store, &keys, begin_issue(&keys, "s", "u1"));
    assert_eq!(store.remaining("s"), Some(3600));
    let step = advance(&mut store, &keys, step);
    assert_eq!(store.remaining("s"), Some(86400));
    assert!(matches!(&step, Step::Finish(Ok(Finished::Pair(_)))));
    let step = advance(&mut store, &keys, step);
    assert!(matches!(&step, Step::Finish(Ok(Finished::Pair(_)))));
    assert_eq!(perform(&mut store, &Command::IsAlive { session_id: "s".to_string() }), Ok(true));
    assert_eq!(perform(&mut store, &Command::Extend { session_id: "s".to_string(), ttl: 5 }), Ok(true));
    assert_eq!(store.remaining("s"), Some(5));
    assert_eq!(perform(&mut store, &Command::Revoke { session_id: "s".to_string() }), Ok(true));
    assert_eq!(perform(&mut store, &Command::IsAlive { session_id: "s".to_string() }), Ok(false));
    assert_eq!(
        perform(&mut store, &Command::MarkAlive { session_id: "t".to_string(), ttl: 9 }),
        Ok(true)
    );
    assert_eq!(store.remaining("t"), Some(9));
    let mut offline = OfflineStore;
    assert_eq!(
        perform(&mut offline, &Command::IsAlive { session_id: "s".to_string() }),
        Err(CacheFault)
    );
}
