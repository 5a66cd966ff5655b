//! What the sign-up and sign-in requests decide: which input is accepted, and
//! what is answered.

use crate::user::fields::{Login, Name, Password};
use crate::user::record::{Builder, UserSearch};
use crate::validation::rules::{error_texts, Error};
use vstd::prelude::*;

verus! {

pub const OK: u16 = 200;

pub const CREATED: u16 = 201;

pub const BAD_REQUEST: u16 = 400;

pub const NOT_FOUND: u16 = 404;

pub const CONFLICT: u16 = 409;

pub const INTERNAL_SERVER_ERROR: u16 = 500;

/// The errors of one field of a request.
#[derive(Debug)]
pub struct FieldReport {
    pub field: String,
    pub errors: Vec<Error>,
}

/// The reports of a request as plain text: the name of each field with the
/// messages about it.
pub open spec fn reports_view(reports: Seq<FieldReport>) -> Seq<(Seq<char>, Seq<Seq<char>>)> {
    Seq::new(reports.len(), |i: int| (reports[i].field@, error_texts(reports[i].errors@)))
}

/// `reports` with one more for `field`, if there is a complaint about it.
pub open spec fn with_report(
    reports: Seq<(Seq<char>, Seq<Seq<char>>)>,
    field: Seq<char>,
    complaints: Seq<Seq<char>>,
) -> Seq<(Seq<char>, Seq<Seq<char>>)> {
    if complaints.len() == 0 {
        reports
    } else {
        reports.push((field, complaints))
    }
}

/// What is wrong with a sign-up request: password first, then login, then
/// name.
pub open spec fn sign_up_reports(login: &String, password: &String, name: &String) -> Seq<
    (Seq<char>, Seq<Seq<char>>),
> {
    with_report(
        with_report(
            with_report(Seq::empty(), "Password"@, Password::complaints(password)),
            "Login"@,
            Login::complaints(login),
        ),
        "Name"@,
        Name::complaints(name),
    )
}

/// What is wrong with a sign-in request: login first, then password.
pub open spec fn sign_in_reports(login: &String, password: &String) -> Seq<
    (Seq<char>, Seq<Seq<char>>),
> {
    with_report(
        with_report(Seq::empty(), "Login"@, Login::complaints(login)),
        "Password"@,
        Password::complaints(password),
    )
}

fn push_report(reports: &mut Vec<FieldReport>, field: &str, errors: Vec<Error>)
    requires
        errors@.len() > 0,
    ensures
        final(reports)@.len() == old(reports)@.len() + 1,
        reports_view(final(reports)@) == with_report(
            reports_view(old(reports)@),
            field@,
            error_texts(errors@),
        ),
{
    let ghost before = reports@;
    reports.push(FieldReport { field: field.to_string(), errors });
    assert(reports_view(reports@) =~= reports_view(before).push((field@, error_texts(errors@))));
}

/// Checks the three fields of a sign-up request. All of them are checked, so
/// that the answer names everything that is wrong. Where nothing is, the
/// builder holds the three fields and still lacks the id. `None` when a rule
/// cannot be checked.
pub fn check_sign_up(login: String, password: String, name: String) -> (r: Option<
    Result<Builder, Vec<FieldReport>>,
>)
    ensures
        r is Some <==> Password::checkable(&password) && Login::checkable(&login)
            && Name::checkable(&name),
        r matches Some(Ok(builder)) ==> {
            &&& sign_up_reports(&login, &password, &name).len() == 0
            &&& builder.id is None
            &&& builder.password matches Some(accepted) && accepted@ == password@
            &&& builder.login matches Some(accepted) && accepted@ == login@
            &&& builder.name matches Some(accepted) && accepted@ == name@
        },
        r matches Some(Err(reports)) ==> {
            &&& reports@.len() > 0
            &&& reports_view(reports@) == sign_up_reports(&login, &password, &name)
        },
{
    let mut reports: Vec<FieldReport> = Vec::new();
    let mut builder = Builder::new();
    assert(reports_view(reports@) =~= Seq::empty());
    match Password::try_parse(password) {
        None => {
            return None;
        },
        Some(Ok(parsed_password)) => {
            builder.password(parsed_password);
        },
        Some(Err(errors)) => {
            push_report(&mut reports, "Password", errors);
        },
    }
    match Login::try_parse(login) {
        None => {
            return None;
        },
        Some(Ok(parsed_login)) => {
            builder.login(parsed_login);
        },
        Some(Err(errors)) => {
            push_report(&mut reports, "Login", errors);
        },
    }
    match Name::try_parse(name) {
        None => {
            return None;
        },
        Some(Ok(parsed_name)) => {
            builder.name(parsed_name);
        },
        Some(Err(errors)) => {
            push_report(&mut reports, "Name", errors);
        },
    }
    if reports.is_empty() {
        Some(Ok(builder))
    } else {
        Some(Err(reports))
    }
}

/// Checks the two fields of a sign-in request and, where nothing is wrong,
/// gives the search for the user with this login and password. `None` when a
/// rule cannot be checked.
pub fn check_sign_in(login: String, password: String) -> (r: Option<
    Result<UserSearch, Vec<FieldReport>>,
>)
    ensures
        r is Some <==> Login::checkable(&login) && Password::checkable(&password),
        r matches Some(Ok(search)) ==> {
            &&& sign_in_reports(&login, &password).len() == 0
            &&& search.id is None
            &&& search.name is None
            &&& search.login matches Some(accepted) && accepted@ == login@
            &&& search.password matches Some(accepted) && accepted@ == password@
        },
        r matches Some(Err(reports)) ==> {
            &&& reports@.len() > 0
            &&& reports_view(reports@) == sign_in_reports(&login, &password)
        },
{
    let mut reports: Vec<FieldReport> = Vec::new();
    assert(reports_view(reports@) =~= Seq::empty());
    let mut accepted_login: Option<Login> = None;
    match Login::try_parse(login) {
        None => {
            return None;
        },
        Some(Ok(parsed_login)) => {
            accepted_login = Some(parsed_login);
        },
        Some(Err(errors)) => {
            push_report(&mut reports, "Login", errors);
        },
    }
    let mut accepted_password: Option<Password> = None;
    match Password::try_parse(password) {
        None => {
            return None;
        },
        Some(Ok(parsed_password)) => {
            accepted_password = Some(parsed_password);
        },
        Some(Err(errors)) => {
            push_report(&mut reports, "Password", errors);
        },
    }
    if !reports.is_empty() {
        return Some(Err(reports));
    }
    Some(Ok(UserSearch { login: accepted_login, password: accepted_password, id: None, name: None }))
}

/// Why the database did not do what it was asked.
#[derive(Debug, Clone, Copy, PartialEq, Eq, Structural)]
pub enum DbFault {
    /// The row that was asked for is not there.
    RowNotFound,
    /// Anything else.
    Other,
}

/// An answer to a request: the status, and a text where there is one.
#[derive(Debug)]
pub struct Reply {
    pub status: u16,
    pub body: Option<String>,
}

impl Reply {
    /// The text of the answer, if it has one.
    pub open spec fn text(&self) -> Option<Seq<char>> {
        match self.body {
            Some(body) => Some(body@),
            None => None,
        }
    }
}

/// The status that stands for a failure of the database.
pub open spec fn status_of(fault: DbFault) -> u16 {
    match fault {
        DbFault::RowNotFound => NOT_FOUND,
        DbFault::Other => INTERNAL_SERVER_ERROR,
    }
}

/// A row that is missing is "not found"; everything else is a server error.
pub fn status_code(fault: DbFault) -> (r: u16)
    ensures
        r == status_of(fault),
{
    match fault {
        DbFault::RowNotFound => NOT_FOUND,
        DbFault::Other => INTERNAL_SERVER_ERROR,
    }
}

/// The answer to a sign-up request after the user was handed to the database:
/// "created" where it took the user; otherwise the status of the failure,
/// with a text only for a conflict.
pub fn sign_up_reply(created: Result<(), DbFault>) -> (r: Reply)
    ensures
        created is Ok ==> r.status == CREATED && r.text() is None,
        created matches Err(fault) ==> r.status == status_of(fault) && r.text() == (if status_of(
            fault,
        ) == CONFLICT {
            Some("User already exist"@)
        } else {
            None
        }),
{
    match created {
        Ok(()) => Reply { status: CREATED, body: None },
        Err(fault) => {
            let status = status_code(fault);
            if status == CONFLICT {
                Reply { status, body: Some("User already exist".to_string()) }
            } else {
                Reply { status, body: None }
            }
        },
    }
}

/// The answer to a sign-in request whose user the database did not give: a
/// server error has no text, everything else says that login or password is
/// wrong.
pub fn sign_in_failure_reply(fault: DbFault) -> (r: Reply)
    ensures
        r.status == status_of(fault),
        r.text() == (if status_of(fault) == INTERNAL_SERVER_ERROR {
            None
        } else {
            Some("Wrong login or password"@)
        }),
{
    let status = status_code(fault);
    if status == INTERNAL_SERVER_ERROR {
        Reply { status, body: None }
    } else {
        Reply { status, body: Some("Wrong login or password".to_string()) }
    }
}

} // verus!
