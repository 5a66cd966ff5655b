use std::collections::HashMap;
use user_auth::controllers::{
    check_sign_in, check_sign_up, sign_in_failure_reply, sign_up_reply, status_code, DbFault,
    FieldReport, BAD_REQUEST, CONFLICT, CREATED, INTERNAL_SERVER_ERROR, NOT_FOUND, OK,
};
use user_auth::validation::report::ValidationError;

fn fields(reports: &[FieldReport]) -> Vec<(String, Vec<String>)> {
    reports
        .iter()
        .map(|r| (r.field.clone(), r.errors.iter().map(|e| e.message()).collect()))
        .collect()
}

#[test]
fn a_good_sign_up_fills_the_builder() {
    let builder =
        check_sign_up("bob".to_string(), "Apanki1@".to_string(), "Bob".to_string()).unwrap().unwrap();
    assert!(builder.id.is_none());
    assert_eq!(builder.login.unwrap().to_text(), "bob");
    assert_eq!(builder.password.unwrap().to_text(), "Apanki1@");
    assert_eq!(builder.name.unwrap().to_text(), "Bob");
}

#[test]
fn a_bad_sign_up_names_every_field_that_is_wrong() {
    let reports =
        check_sign_up("b@".to_string(), "Apanki1".to_string(), "Bob".to_string()).unwrap().unwrap_err();
    assert_eq!(
        fields(&reports),
        vec![
            (
                "Password".to_string(),
                vec!["Must contain at least one special character".to_string()]
            ),
            (
                "Login".to_string(),
                vec![
                    "Minimum length must be: 3".to_string(),
                    "Can contain only letters, numbers, underscores, and periods.".to_string()
                ]
            ),
        ]
    );
    let reports =
        check_sign_up("bob".to_string(), "Apanki1@".to_string(), "B0".to_string()).unwrap().unwrap_err();
    assert_eq!(
        fields(&reports),
        vec![(
            "Name".to_string(),
            vec!["Minimum length must be: 3".to_string(), "Must not contain digits".to_string()]
        )]
    );
}

#[test]
fn a_good_sign_in_searches_by_login_and_password() {
    let search = check_sign_in("bob".to_string(), "Apanki1@".to_string()).unwrap().unwrap();
    assert!(search.id.is_none() && search.name.is_none());
    assert_eq!(
        search.query(),
        "SELECT id, name, login, password FROM users WHERE login = 'bob' AND password = 'Apanki1@'"
    );
}

#[test]
fn a_bad_sign_in_names_login_before_password() {
    let reports = check_sign_in("bo".to_string(), "apanki".to_string()).unwrap().unwrap_err();
    assert_eq!(
        fields(&reports),
        vec![
            ("Login".to_string(), vec!["Minimum length must be: 3".to_string()]),
            (
                "Password".to_string(),
                vec![
                    "Must contain at least one uppercase character".to_string(),
                    "Must contain at least one digit".to_string(),
                    "Must contain at least one special character".to_string()
                ]
            ),
        ]
    );
}

#[test]
fn a_missing_row_is_not_found() {
    assert_eq!(status_code(DbFault::RowNotFound), 404);
    assert_eq!(status_code(DbFault::Other), 500);
    assert_eq!((OK, CREATED, BAD_REQUEST), (200, 201, 400));
    assert_eq!((NOT_FOUND, CONFLICT, INTERNAL_SERVER_ERROR), (404, 409, 500));
}

#[test]
fn the_answer_to_a_sign_up() {
    let created = sign_up_reply(Ok(()));
    assert_eq!((created.status, created.body), (201, None));
    let missing = sign_up_reply(Err(DbFault::RowNotFound));
    assert_eq!((missing.status, missing.body), (404, None));
    let failed = sign_up_reply(Err(DbFault::Other));
    assert_eq!((failed.status, failed.body), (500, None));
}

#[test]
fn the_answer_to_a_failed_sign_in() {
    let missing = sign_in_failure_reply(DbFault::RowNotFound);
    assert_eq!((missing.status, missing.body), (404, Some("Wrong login or password".to_string())));
    let failed = sign_in_failure_reply(DbFault::Other);
    assert_eq!((failed.status, failed.body), (500, None));
}

#[test]
fn a_validation_error_keeps_message_and_details() {
    let mut details = HashMap::new();
    details.insert("Login".to_string(), vec!["Minimum length must be: 3".to_string()]);
    let error = ValidationError::new("Validation error", details.clone());
    assert_eq!(error.message(), "Validation error");
    assert_eq!(error.details(), &details);
}
