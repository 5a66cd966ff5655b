use user_auth::user::fields::{CustomRules, Login, Name, Password};
use user_auth::user::identifier::Uuid;
use user_auth::user::record::{Builder, UserSearch};
use user_auth::validation::rules::{Error, Rule, Validate};

fn messages(errors: Vec<Error>) -> Vec<String> {
    errors.iter().map(|e| e.message()).collect()
}

#[test]
fn a_name_needs_three_characters_and_no_digit() {
    assert_eq!(Name::parse("Bob".to_string()).unwrap().to_text(), "Bob");
    assert_eq!(
        messages(Name::parse("Bo".to_string()).unwrap_err()),
        vec!["Minimum length must be: 3".to_string()]
    );
    assert_eq!(
        messages(Name::parse("Bob1".to_string()).unwrap_err()),
        vec!["Must not contain digits".to_string()]
    );
    assert_eq!(
        messages(Name::parse("B1".to_string()).unwrap_err()),
        vec!["Minimum length must be: 3".to_string(), "Must not contain digits".to_string()]
    );
}

#[test]
fn a_login_has_three_to_twenty_plain_characters() {
    assert_eq!(Login::parse("bob_99.x".to_string()).unwrap().to_text(), "bob_99.x");
    assert_eq!(
        messages(Login::parse("bo".to_string()).unwrap_err()),
        vec!["Minimum length must be: 3".to_string()]
    );
    assert_eq!(
        messages(Login::parse("a".repeat(21)).unwrap_err()),
        vec!["Maximum length must be: 20".to_string()]
    );
    assert!(Login::parse("a".repeat(20)).is_ok());
    assert_eq!(
        messages(Login::parse("b@".to_string()).unwrap_err()),
        vec![
            "Minimum length must be: 3".to_string(),
            "Can contain only letters, numbers, underscores, and periods.".to_string()
        ]
    );
}

#[test]
fn a_password_needs_all_four_kinds_of_character() {
    assert_eq!(Password::parse("Apanki1@".to_string()).unwrap().to_text(), "Apanki1@");
    assert_eq!(
        messages(Password::parse("apanki".to_string()).unwrap_err()),
        vec![
            "Must contain at least one uppercase character".to_string(),
            "Must contain at least one digit".to_string(),
            "Must contain at least one special character".to_string()
        ]
    );
    assert_eq!(
        messages(Password::parse("".to_string()).unwrap_err()),
        vec![
            "Must contain at least one lowercase character".to_string(),
            "Must contain at least one uppercase character".to_string(),
            "Must contain at least one digit".to_string(),
            "Must contain at least one special character".to_string()
        ]
    );
}

#[test]
fn try_parse_agrees_with_parse() {
    assert_eq!(Name::try_parse("Bob".to_string()).unwrap().unwrap().to_text(), "Bob");
    assert!(Name::try_parse("B1".to_string()).unwrap().is_err());
    assert_eq!(Login::try_parse("bob".to_string()).unwrap().unwrap().to_text(), "bob");
    assert!(Login::try_parse("b@".to_string()).unwrap().is_err());
    assert_eq!(Password::try_parse("Apanki1@".to_string()).unwrap().unwrap().to_text(), "Apanki1@");
    assert!(Password::try_parse("apanki".to_string()).unwrap().is_err());
}

#[test]
fn a_field_can_be_taken_without_validation() {
    assert_eq!(Name::from("x1".to_string()).to_text(), "x1");
    assert_eq!(Login::from("@".to_string()).to_text(), "@");
    assert_eq!(Password::from("weak".to_string()).to_text(), "weak");
}

#[test]
fn the_login_rule_of_the_application() {
    let rule = CustomRules::LoginCanContain;
    assert!(rule.validate(&"Bob_1.x".to_string()).is_ok());
    assert!(rule.validate(&String::new()).is_ok());
    let error = rule.validate(&"bob!".to_string()).unwrap_err();
    assert_eq!(error.message(), "Can contain only letters, numbers, underscores, and periods.");
    assert_eq!(rule.message(), "Can contain only letters, numbers, underscores, and periods.");
    assert!(rule.applies(&"anything".to_string()));
    assert!(rule.verdict(true).is_ok());
    assert!(rule.verdict(false).is_err());
}

#[test]
fn an_identifier_is_written_with_hyphens() {
    let id = Uuid::parse([
        0x12, 0x34, 0x56, 0x78, 0x9a, 0xbc, 0xde, 0xf0, 0x01, 0x23, 0x45, 0x67, 0x89, 0xab, 0xcd,
        0xef,
    ]);
    assert_eq!(id.to_text(), "12345678-9abc-def0-0123-456789abcdef");
    assert_eq!(Uuid::from([0u8; 16]).to_text(), "00000000-0000-0000-0000-000000000000");
}

#[test]
fn an_identifier_keeps_its_bytes() {
    let bytes: [u8; 16] = [1, 2, 3, 4, 5, 6, 7, 8, 9, 10, 11, 12, 13, 14, 15, 16];
    assert_eq!(Uuid::parse(bytes).into_bytes(), bytes);
    assert_eq!(Uuid::from(bytes).into_bytes(), bytes);
    assert_eq!(Uuid::from_slice(&bytes).into_bytes(), bytes);
    assert_eq!(Uuid::from_vec(bytes.to_vec()).into_bytes(), bytes);
    assert_eq!(Uuid::from_string("0123456789abcdef".to_string()).into_bytes(), *b"0123456789abcdef");
}

#[test]
fn fresh_identifiers_differ() {
    let first = Uuid::generate();
    let second = Uuid::generate();
    assert_ne!(first.into_bytes(), second.into_bytes());
    assert_eq!(first.to_text().len(), 36);
}

#[test]
fn a_builder_gives_a_user_once_every_field_is_there() {
    let mut builder = Builder::new();
    assert!(builder.id.is_none() && builder.name.is_none());
    assert!(builder.login.is_none() && builder.password.is_none());
    builder.name(Name::from("Bob".to_string()));
    builder.login(Login::from("bob".to_string()));
    builder.password(Password::from("Apanki1@".to_string()));
    let mut complete = Builder::new();
    complete.name(Name::from("Bob".to_string()));
    complete.login(Login::from("bob".to_string()));
    complete.password(Password::from("Apanki1@".to_string()));
    assert!(builder.try_get().is_none());
    complete.id(Uuid::from([7u8; 16]));
    let user = complete.try_get().unwrap();
    assert_eq!(user.id.into_bytes(), [7u8; 16]);
    assert_eq!(user.name.to_text(), "Bob");
    assert_eq!(user.login.to_text(), "bob");
    assert_eq!(user.password.to_text(), "Apanki1@");
}

#[test]
fn a_later_field_replaces_an_earlier_one() {
    let mut builder = Builder::new();
    builder.name(Name::from("Bob".to_string()));
    builder.name(Name::from("Rob".to_string()));
    assert_eq!(builder.name.unwrap().to_text(), "Rob");
}

#[test]
fn a_search_names_the_fields_that_are_given() {
    let search = UserSearch {
        id: None,
        name: None,
        login: Some(Login::from("bob".to_string())),
        password: Some(Password::from("Apanki1@".to_string())),
    };
    assert_eq!(
        search.query(),
        "SELECT id, name, login, password FROM users WHERE login = 'bob' AND password = 'Apanki1@'"
    );
    let by_all = UserSearch {
        id: Some(Uuid::from([0u8; 16])),
        name: Some(Name::from("Bob".to_string())),
        login: Some(Login::from("bob".to_string())),
        password: Some(Password::from("pw".to_string())),
    };
    assert_eq!(
        by_all.query(),
        "SELECT id, name, login, password FROM users WHERE id = '00000000-0000-0000-0000-000000000000' AND name = 'Bob' AND login = 'bob' AND password = 'pw'"
    );
    let by_nothing = UserSearch { id: None, name: None, login: None, password: None };
    assert_eq!(by_nothing.query(), "SELECT id, name, login, password FROM users WHERE");
    let by_name = UserSearch {
        id: None,
        name: Some(Name::from("Bob".to_string())),
        login: None,
        password: None,
    };
    assert_eq!(by_name.query(), "SELECT id, name, login, password FROM users WHERE name = 'Bob'");
}

#[test]
fn a_fresh_identifier_is_marked_as_random() {
    for _ in 0..32 {
        let bytes = Uuid::generate().into_bytes();
        assert_eq!(bytes[6] & 0xf0, 0x40);
        assert_eq!(bytes[8] & 0xc0, 0x80);
    }
    let text = Uuid::generate().to_text();
    assert_eq!(text.as_bytes()[14], b'4');
}
