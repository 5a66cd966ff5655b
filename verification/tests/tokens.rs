use std::collections::BTreeMap;
use user_auth::auth::authorization::Authorization;
use user_auth::auth::codec::{decode, encode, is_expired, peek_session_id, sealed, session_id_from, settle};
use user_auth::auth::error::{CacheFault, Error, TokenFault};
use user_auth::auth::pair::{destroy, issue, issue_with, refresh, refresh_with, verify, TokenPair};
use user_auth::auth::store::{MemoryStore, OfflineStore, SessionStore};
use user_auth::auth::token::{
    admitted, destroy_token, mint, parse_token, update_token, verify_token, AccessToken,
    AccessTokenBody, Keys, RefreshToken, RefreshTokenBody, TokenClass, ACCESS_TTL, REFRESH_TTL,
};
use user_auth::user::fields::{Login, Name, Password};
use user_auth::user::identifier::Uuid;
use user_auth::user::record::User;

fn keys() -> Keys {
    Keys { access: b"access-secret".to_vec(), refresh: b"refresh-secret".to_vec() }
}

fn copy_of(pair: &TokenPair) -> TokenPair {
    TokenPair { access: AccessToken(pair.access.0.clone()), refresh: RefreshToken(pair.refresh.0.clone()) }
}

fn foreign_token(secret: &[u8], key_id: Option<&str>, user: Option<&str>, expiry: Option<u64>) -> String {
    let header = jsonwebtoken::Header { kid: key_id.map(String::from), ..Default::default() };
    let mut claims: BTreeMap<String, serde_json::Value> = BTreeMap::new();
    if let Some(user) = user {
        claims.insert("user_id".to_string(), serde_json::Value::from(user));
    }
    if let Some(expiry) = expiry {
        claims.insert("exp".to_string(), serde_json::Value::from(expiry));
    }
    jsonwebtoken::encode(&header, &claims, &jsonwebtoken::EncodingKey::from_secret(secret)).unwrap()
}

#[test]
fn an_issued_pair_verifies_at_once() {
    let mut store = MemoryStore::new();
    let keys = keys();
    let pair = issue(&mut store, &keys, "u1").unwrap();
    assert_eq!(verify(&pair.access.0, TokenClass::Access, &mut store, &keys, 0), Ok("u1".to_string()));
    assert_eq!(
        verify(&pair.refresh.0, TokenClass::Refresh, &mut store, &keys, u64::MAX),
        Ok("u1".to_string())
    );
}

#[test]
fn both_tokens_share_one_session() {
    let mut store = MemoryStore::new();
    let pair = issue_with(&mut store, &keys(), "session-1", "u1").unwrap();
    assert_eq!(peek_session_id(&pair.access.0), Ok("session-1".to_string()));
    assert_eq!(peek_session_id(&pair.refresh.0), Ok("session-1".to_string()));
    assert_ne!(pair.access.0, pair.refresh.0);
    assert_eq!(store.len(), 1);
}

#[test]
fn the_marker_lives_as_long_as_the_refresh_token() {
    let mut store = MemoryStore::new();
    issue_with(&mut store, &keys(), "session-1", "u1").unwrap();
    assert_eq!(store.remaining("session-1"), Some(86400));
    assert_eq!(REFRESH_TTL, 86400);
    assert_eq!(ACCESS_TTL, 3600);
    assert_eq!(TokenClass::Access.ttl(), 3600);
    assert_eq!(TokenClass::Refresh.ttl(), 86400);
}

#[test]
fn a_destroyed_pair_is_dead() {
    let mut store = MemoryStore::new();
    let keys = keys();
    let pair = issue(&mut store, &keys, "u1").unwrap();
    assert_eq!(destroy(&pair, &mut store), Ok(()));
    assert_eq!(
        verify(&pair.access.0, TokenClass::Access, &mut store, &keys, 0),
        Err(Error::InvalidSession)
    );
    assert_eq!(
        verify(&pair.refresh.0, TokenClass::Refresh, &mut store, &keys, 0),
        Err(Error::InvalidSession)
    );
    assert_eq!(decode(&pair.access.0, &keys.access, 0), Ok("u1".to_string()));
    assert_eq!(destroy(&pair, &mut store), Ok(()));
    assert_eq!(store.len(), 0);
}

#[test]
fn a_token_does_not_decode_under_the_secret_of_the_other_class() {
    let mut store = MemoryStore::new();
    let keys = keys();
    let pair = issue(&mut store, &keys, "u1").unwrap();
    assert_eq!(decode(&pair.access.0, &keys.refresh, 0), Err(Error::InvalidSignature));
    assert_eq!(decode(&pair.refresh.0, &keys.access, 0), Err(Error::InvalidSignature));
    assert_eq!(
        verify(&pair.access.0, TokenClass::Refresh, &mut store, &keys, 0),
        Err(Error::InvalidSignature)
    );
    assert_eq!(
        verify(&pair.refresh.0, TokenClass::Access, &mut store, &keys, 0),
        Err(Error::InvalidSignature)
    );
}

#[test]
fn a_refresh_token_alone_gives_a_new_pair() {
    let mut store = MemoryStore::new();
    let keys = keys();
    let old = issue(&mut store, &keys, "u1").unwrap();
    let old_session = peek_session_id(&old.refresh.0).unwrap();
    let broken = TokenPair {
        access: AccessToken("not a token".to_string()),
        refresh: RefreshToken(old.refresh.0.clone()),
    };
    let renewed = refresh(&mut store, &keys, broken, 0).unwrap();
    let new_session = peek_session_id(&renewed.access.0).unwrap();
    assert_ne!(new_session, old_session);
    assert_eq!(peek_session_id(&renewed.refresh.0), Ok(new_session.clone()));
    assert_eq!(
        verify(&renewed.access.0, TokenClass::Access, &mut store, &keys, 0),
        Ok("u1".to_string())
    );
    assert_eq!(
        verify(&renewed.refresh.0, TokenClass::Refresh, &mut store, &keys, 0),
        Ok("u1".to_string())
    );
    assert_eq!(store.remaining(&new_session), Some(86400));
    assert_eq!(store.remaining(&old_session), Some(86400));
    assert_eq!(store.len(), 2);
}

#[test]
fn an_expired_access_token_falls_back_on_the_refresh_token() {
    let mut store = MemoryStore::new();
    let keys = keys();
    store.mark_alive("old", 10).unwrap();
    let pair = TokenPair {
        access: AccessToken(foreign_token(&keys.access, Some("old"), Some("u1"), Some(1000))),
        refresh: RefreshToken(foreign_token(&keys.refresh, Some("old"), Some("u1"), None)),
    };
    let renewed = refresh_with(&mut store, &keys, pair, 5000, "new", None).unwrap();
    assert_eq!(peek_session_id(&renewed.access.0), Ok("new".to_string()));
    assert_eq!(store.remaining("new"), Some(86400));
    assert_eq!(store.remaining("old"), Some(10));
}

#[test]
fn a_valid_pair_is_extended_and_stays_the_same() {
    let mut store = MemoryStore::new();
    let keys = keys();
    let pair = issue_with(&mut store, &keys, "session-1", "u1").unwrap();
    store.elapse(86000);
    assert_eq!(store.remaining("session-1"), Some(400));
    let renewed = refresh(&mut store, &keys, copy_of(&pair), 0).unwrap();
    assert_eq!(renewed.access.0, pair.access.0);
    assert_eq!(renewed.refresh.0, pair.refresh.0);
    assert_eq!(store.remaining("session-1"), Some(86400));
    assert_eq!(store.len(), 1);
}

#[test]
fn a_dead_pair_cannot_be_renewed() {
    let mut store = MemoryStore::new();
    let keys = keys();
    let pair = issue(&mut store, &keys, "u1").unwrap();
    destroy(&pair, &mut store).unwrap();
    store.mark_alive("other", 7).unwrap();
    assert_eq!(refresh(&mut store, &keys, copy_of(&pair), 0).unwrap_err(), Error::InvalidSession);
    assert_eq!(store.len(), 1);
    assert_eq!(store.remaining("other"), Some(7));
    let forged = TokenPair {
        access: AccessToken(pair.refresh.0.clone()),
        refresh: RefreshToken(pair.access.0.clone()),
    };
    assert_eq!(refresh(&mut store, &keys, forged, 0).unwrap_err(), Error::InvalidSignature);
    assert_eq!(store.len(), 1);
}

#[test]
fn issue_verify_destroy_issue_again() {
    let mut store = MemoryStore::new();
    let keys = keys();
    let first = issue(&mut store, &keys, "u1").unwrap();
    assert_eq!(verify(&first.access.0, TokenClass::Access, &mut store, &keys, 0), Ok("u1".to_string()));
    destroy(&first, &mut store).unwrap();
    assert_eq!(
        verify(&first.access.0, TokenClass::Access, &mut store, &keys, 0),
        Err(Error::InvalidSession)
    );
    let second = issue(&mut store, &keys, "u1").unwrap();
    assert_ne!(peek_session_id(&second.access.0), peek_session_id(&first.access.0));
    assert_eq!(verify(&second.access.0, TokenClass::Access, &mut store, &keys, 0), Ok("u1".to_string()));
    assert_eq!(
        verify(&first.access.0, TokenClass::Access, &mut store, &keys, 0),
        Err(Error::InvalidSession)
    );
}

#[test]
fn a_session_ends_when_its_marker_runs_out() {
    let mut store = MemoryStore::new();
    let keys = keys();
    let pair = issue(&mut store, &keys, "u1").unwrap();
    store.elapse(86399);
    assert_eq!(verify(&pair.access.0, TokenClass::Access, &mut store, &keys, 0), Ok("u1".to_string()));
    store.elapse(1);
    assert_eq!(
        verify(&pair.access.0, TokenClass::Access, &mut store, &keys, 0),
        Err(Error::InvalidSession)
    );
    assert_eq!(store.len(), 0);
}

#[test]
fn encoding_is_the_same_for_the_same_input() {
    let first = encode("session-1", b"secret", "u1").unwrap();
    let second = encode("session-1", b"secret", "u1").unwrap();
    assert_eq!(first, second);
    assert_eq!(first.split('.').count(), 3);
    assert_ne!(first, encode("session-2", b"secret", "u1").unwrap());
    assert_ne!(first, encode("session-1", b"secret", "u2").unwrap());
    assert_ne!(first, encode("session-1", b"other", "u1").unwrap());
    assert_eq!(decode(&first, b"secret", 12345), Ok("u1".to_string()));
    assert_eq!(peek_session_id(&first), Ok("session-1".to_string()));
}

#[test]
fn a_token_that_cannot_be_read_is_malformed() {
    assert_eq!(decode("not a token", b"secret", 0), Err(Error::Malformed));
    assert_eq!(decode("a.b.c", b"secret", 0), Err(Error::Malformed));
    assert_eq!(decode("", b"secret", 0), Err(Error::Malformed));
    assert_eq!(peek_session_id("not a token"), Err(Error::Malformed));
    assert_eq!(peek_session_id("a.b.c"), Err(Error::Malformed));
    let without_user = foreign_token(b"secret", Some("s"), None, None);
    assert_eq!(decode(&without_user, b"secret", 0), Err(Error::Malformed));
    let without_session = foreign_token(b"secret", None, Some("u1"), None);
    assert_eq!(decode(&without_session, b"secret", 0), Ok("u1".to_string()));
    assert_eq!(peek_session_id(&without_session), Err(Error::Malformed));
}

#[test]
fn a_tampered_token_has_an_invalid_signature() {
    let token = encode("session-1", b"secret", "u1").unwrap();
    let other = encode("session-1", b"secret", "u2").unwrap();
    let parts: Vec<&str> = token.split('.').collect();
    let other_parts: Vec<&str> = other.split('.').collect();
    let forged = format!("{}.{}.{}", parts[0], other_parts[1], parts[2]);
    assert_eq!(decode(&forged, b"secret", 0), Err(Error::InvalidSignature));
    assert_eq!(peek_session_id(&forged), Ok("session-1".to_string()));
}

#[test]
fn a_token_expires_a_minute_after_its_expiry() {
    let token = foreign_token(b"secret", Some("s"), Some("u1"), Some(1000));
    assert_eq!(decode(&token, b"secret", 0), Ok("u1".to_string()));
    assert_eq!(decode(&token, b"secret", 1000), Ok("u1".to_string()));
    assert_eq!(decode(&token, b"secret", 1060), Ok("u1".to_string()));
    assert_eq!(decode(&token, b"secret", 1061), Err(Error::Expired));
    assert_eq!(decode(&token, b"other", 1061), Err(Error::InvalidSignature));
    assert!(!is_expired(None, u64::MAX));
    assert!(!is_expired(Some(u64::MAX), u64::MAX));
    assert!(is_expired(Some(0), 61));
    assert!(!is_expired(Some(0), 60));
}

#[test]
fn what_the_token_library_reports_becomes_an_error() {
    assert_eq!(settle(Err(TokenFault::InvalidSignature), 0), Err(Error::InvalidSignature));
    assert_eq!(settle(Err(TokenFault::InvalidToken), 0), Err(Error::Malformed));
    assert_eq!(settle(Err(TokenFault::InvalidAlgorithm), 0), Err(Error::Malformed));
    assert_eq!(settle(Err(TokenFault::Base64), 0), Err(Error::Malformed));
    assert_eq!(settle(Err(TokenFault::Json), 0), Err(Error::Malformed));
    assert_eq!(settle(Err(TokenFault::Other), 0), Err(Error::Malformed));
    assert_eq!(settle(Ok((None, None)), 0), Err(Error::Malformed));
    assert_eq!(settle(Ok((None, Some(0))), 1000), Err(Error::Malformed));
    assert_eq!(settle(Ok((Some("u1".to_string()), None)), 1000), Ok("u1".to_string()));
    assert_eq!(settle(Ok((Some("u1".to_string()), Some(5))), 1000), Err(Error::Expired));
    assert_eq!(settle(Ok((Some("u1".to_string()), Some(2000))), 1000), Ok("u1".to_string()));
    assert_eq!(Error::from(TokenFault::InvalidSignature), Error::InvalidSignature);
    assert_eq!(Error::from(TokenFault::Json), Error::Malformed);
    assert_eq!(Error::from(CacheFault), Error::CacheUnavailable);
}

#[test]
fn a_token_that_cannot_be_signed_is_a_signing_error() {
    assert_eq!(sealed(None), Err(Error::SigningError));
    assert_eq!(sealed(Some("token".to_string())), Ok("token".to_string()));
}

#[test]
fn a_header_without_session_is_malformed() {
    assert_eq!(session_id_from(None), Err(Error::Malformed));
    assert_eq!(session_id_from(Some(None)), Err(Error::Malformed));
    assert_eq!(session_id_from(Some(Some("s".to_string()))), Ok("s".to_string()));
}

#[test]
fn the_answer_of_the_store_decides_the_session() {
    assert_eq!(admitted("u1".to_string(), Ok(true)), Ok("u1".to_string()));
    assert_eq!(admitted("u1".to_string(), Ok(false)), Err(Error::InvalidSession));
    assert_eq!(admitted("u1".to_string(), Err(CacheFault)), Err(Error::CacheUnavailable));
}

#[test]
fn a_store_that_cannot_be_reached_is_not_a_dead_session() {
    let mut live = MemoryStore::new();
    let keys = keys();
    let pair = issue(&mut live, &keys, "u1").unwrap();
    let mut offline = OfflineStore;
    assert_eq!(
        verify(&pair.access.0, TokenClass::Access, &mut offline, &keys, 0),
        Err(Error::CacheUnavailable)
    );
    assert_eq!(issue(&mut offline, &keys, "u1").unwrap_err(), Error::CacheUnavailable);
    assert_eq!(destroy(&pair, &mut offline), Err(Error::CacheUnavailable));
    assert_eq!(
        refresh(&mut offline, &keys, copy_of(&pair), 0).unwrap_err(),
        Error::CacheUnavailable
    );
    assert_eq!(
        verify("not a token", TokenClass::Access, &mut offline, &keys, 0),
        Err(Error::Malformed)
    );
    assert_eq!(destroy_token("not a token", &mut offline), Err(Error::Malformed));
    assert_eq!(offline.is_alive("s"), Err(CacheFault));
    assert_eq!(offline.mark_alive("s", 1), Err(CacheFault));
    assert_eq!(offline.extend("s", 1), Err(CacheFault));
    assert_eq!(offline.revoke("s"), Err(CacheFault));
}

#[test]
fn the_store_keeps_one_marker_per_session() {
    let mut store = MemoryStore::new();
    assert_eq!(store.len(), 0);
    assert_eq!(store.is_alive("a"), Ok(false));
    store.mark_alive("a", 10).unwrap();
    store.mark_alive("b", 20).unwrap();
    store.mark_alive("a", 30).unwrap();
    assert_eq!(store.len(), 2);
    assert_eq!(store.remaining("a"), Some(30));
    assert_eq!(store.remaining("b"), Some(20));
    assert_eq!(store.is_alive("a"), Ok(true));
    store.extend("b", 5).unwrap();
    assert_eq!(store.remaining("b"), Some(5));
    store.extend("c", 5).unwrap();
    assert_eq!(store.is_alive("c"), Ok(false));
    store.revoke("a").unwrap();
    store.revoke("a").unwrap();
    assert_eq!(store.is_alive("a"), Ok(false));
    assert_eq!(store.len(), 1);
}

#[test]
fn a_lifetime_that_is_not_positive_removes_the_marker() {
    let mut store = MemoryStore::new();
    store.mark_alive("a", 10).unwrap();
    store.mark_alive("a", 0).unwrap();
    assert_eq!(store.is_alive("a"), Ok(false));
    store.mark_alive("b", -5).unwrap();
    assert_eq!(store.is_alive("b"), Ok(false));
    store.mark_alive("c", 10).unwrap();
    store.extend("c", -1).unwrap();
    assert_eq!(store.is_alive("c"), Ok(false));
    assert_eq!(store.len(), 0);
}

#[test]
fn time_shortens_every_lifetime() {
    let mut store = MemoryStore::new();
    store.mark_alive("a", 10).unwrap();
    store.mark_alive("b", 20).unwrap();
    store.mark_alive("c", 30).unwrap();
    store.elapse(0);
    assert_eq!(store.len(), 3);
    store.elapse(10);
    assert_eq!(store.remaining("a"), None);
    assert_eq!(store.remaining("b"), Some(10));
    assert_eq!(store.remaining("c"), Some(20));
    store.elapse(u64::MAX);
    assert_eq!(store.len(), 0);
}

#[test]
fn a_token_is_minted_with_its_marker() {
    let mut store = MemoryStore::new();
    let token = mint(&mut store, b"secret", "s", 42, "u1").unwrap();
    assert_eq!(store.remaining("s"), Some(42));
    assert_eq!(verify_token(&token, b"secret", &mut store, 0), Ok("u1".to_string()));
    assert_eq!(update_token(&token, &mut store, 7), Ok(()));
    assert_eq!(store.remaining("s"), Some(7));
    assert_eq!(destroy_token(&token, &mut store), Ok(()));
    assert_eq!(verify_token(&token, b"secret", &mut store, 0), Err(Error::InvalidSession));
    assert_eq!(update_token(&token, &mut store, 7), Ok(()));
    assert_eq!(store.len(), 0);
    assert_eq!(update_token("not a token", &mut store, 7), Err(Error::Malformed));
}

#[test]
fn the_token_types_keep_the_classes_apart() {
    let mut store = MemoryStore::new();
    let keys = keys();
    let access = AccessToken::encode(
        &mut store,
        &keys.access,
        "s",
        3600,
        AccessTokenBody { user_id: "u1".to_string() },
    )
    .unwrap();
    assert_eq!(store.remaining("s"), Some(3600));
    let refresh = RefreshToken::encode(
        &mut store,
        &keys.refresh,
        "s",
        86400,
        RefreshTokenBody { user_id: "u1".to_string() },
    )
    .unwrap();
    assert_eq!(store.remaining("s"), Some(86400));
    assert_eq!(access.decode(&keys.access, 0).unwrap().user_id, "u1");
    assert_eq!(refresh.decode(&keys.refresh, 0).unwrap().user_id, "u1");
    assert_eq!(access.decode(&keys.refresh, 0).unwrap_err(), Error::InvalidSignature);
    assert_eq!(access.verify(&mut store, &keys.access, 0).unwrap().user_id, "u1");
    assert_eq!(refresh.verify(&mut store, &keys.refresh, 0).unwrap().user_id, "u1");
    assert_eq!(access.update(&mut store, 5).unwrap().0, access.0);
    assert_eq!(store.remaining("s"), Some(5));
    assert_eq!(refresh.update(&mut store, 9).unwrap().0, refresh.0);
    assert_eq!(store.remaining("s"), Some(9));
    assert_eq!(access.destroy(&mut store).unwrap().0, access.0);
    assert_eq!(refresh.verify(&mut store, &keys.refresh, 0).unwrap_err(), Error::InvalidSession);
    assert_eq!(refresh.destroy(&mut store).unwrap().0, refresh.0);
}

#[test]
fn parsing_a_token_only_reads_its_header() {
    let token = encode("s", b"secret", "u1").unwrap();
    assert_eq!(AccessToken::parse(token.clone()).unwrap().0, token);
    assert_eq!(RefreshToken::parse(token.clone()).unwrap().0, token);
    assert_eq!(AccessToken::parse("not a token".to_string()).unwrap_err(), Error::Malformed);
    assert_eq!(RefreshToken::parse("a.b.c".to_string()).unwrap_err(), Error::Malformed);
    assert_eq!(parse_token(token.clone()), Ok(token));
    let without_session = foreign_token(b"secret", None, Some("u1"), None);
    assert!(AccessToken::parse(without_session).is_ok());
}

#[test]
fn every_error_has_its_text() {
    assert_eq!(Error::Malformed.message(), "Invalid token");
    assert_eq!(Error::InvalidSignature.message(), "Invalid token");
    assert_eq!(Error::Expired.message(), "Invalid token");
    assert_eq!(Error::SigningError.message(), "Invalid token");
    assert_eq!(Error::InvalidSession.message(), "Invalid session");
    assert_eq!(Error::CacheUnavailable.message(), "Cache unavailable");
}

#[test]
fn a_user_is_given_tokens_for_its_id() {
    let user = User {
        id: Uuid::from([0u8; 16]),
        name: Name::from("Bob".to_string()),
        login: Login::from("bob".to_string()),
        password: Password::from("Apanki1@".to_string()),
    };
    let mut store = MemoryStore::new();
    let keys = keys();
    let pair = user.genrate_tokens(&mut store, &keys).unwrap();
    let id = "00000000-0000-0000-0000-000000000000".to_string();
    assert_eq!(verify(&pair.access.0, TokenClass::Access, &mut store, &keys, 0), Ok(id.clone()));
    let same = user.refresh_tokens(&mut store, &keys, copy_of(&pair), 0).unwrap();
    assert_eq!(same.access.0, pair.access.0);
    let other = TokenPair {
        access: AccessToken("not a token".to_string()),
        refresh: RefreshToken(foreign_token(
            &keys.refresh,
            Some(&peek_session_id(&pair.refresh.0).unwrap()),
            Some("somebody else"),
            None,
        )),
    };
    let renewed = user.refresh_tokens(&mut store, &keys, other, 0).unwrap();
    assert_eq!(verify(&renewed.access.0, TokenClass::Access, &mut store, &keys, 0), Ok(id));
    assert_ne!(peek_session_id(&renewed.access.0), peek_session_id(&pair.access.0));
}

#[test]
fn secrets_that_differ_in_trailing_zero_bytes_sign_alike() {
    let short = encode("session-1", b"k", "u1").unwrap();
    let padded = encode("session-1", b"k\0", "u1").unwrap();
    assert_eq!(short, padded);
    assert_eq!(decode(&short, b"k\0\0", 0), Ok("u1".to_string()));
    assert_eq!(decode(&short, b"j", 0), Err(Error::InvalidSignature));
}
