//! The user record, how one is put together, and how one is searched for.

use crate::user::fields::{Login, Name, Password};
use crate::user::identifier::{uuid_text, Uuid};
use vstd::prelude::*;

verus! {

/// A user as the database holds it.
#[derive(Debug)]
pub struct User {
    pub id: Uuid,
    pub name: Name,
    pub login: Login,
    pub password: Password,
}

/// The fields by which a user is searched for: each that is given has to be
/// equal.
#[derive(Debug)]
pub struct UserSearch {
    pub id: Option<Uuid>,
    pub name: Option<Name>,
    pub login: Option<Login>,
    pub password: Option<Password>,
}

/// The query that selects a user, before any condition.
pub open spec fn selection() -> Seq<char> {
    "SELECT id, name, login, password FROM users WHERE"@
}

/// `query` with one more condition, if `value` is given: `column` opens the
/// condition and ends with the opening quote, and conditions are joined by
/// `AND`.
pub open spec fn with_condition(
    query: Seq<char>,
    first: bool,
    column: Seq<char>,
    value: Option<Seq<char>>,
) -> Seq<char> {
    match value {
        Some(text) => query + (if first {
            Seq::<char>::empty()
        } else {
            " AND"@
        }) + column + text + "'"@,
        None => query,
    }
}

fn push_condition(query: &mut String, first: &mut bool, column: &str, value: Option<String>)
    ensures
        final(query)@ == with_condition(
            old(query)@,
            *old(first),
            column@,
            match value {
                Some(text) => Some(text@),
                None => None,
            },
        ),
        *final(first) == (*old(first) && value is None),
{
    if let Some(text) = value {
        let ghost before = query@;
        if !*first {
            query.append(" AND");
        } else {
            *first = false;
            assert(before + Seq::<char>::empty() =~= before);
        }
        query.append(column);
        query.append(text.as_str());
        query.append("'");
    }
}

impl UserSearch {
    /// The text of the query that finds the user.
    pub open spec fn query_text(&self) -> Seq<char> {
        let by_id = with_condition(
            selection(),
            true,
            " id = '"@,
            match self.id {
                Some(id) => Some(uuid_text(id@)),
                None => None,
            },
        );
        let by_name = with_condition(
            by_id,
            self.id is None,
            " name = '"@,
            match self.name {
                Some(name) => Some(name@),
                None => None,
            },
        );
        let by_login = with_condition(
            by_name,
            self.id is None && self.name is None,
            " login = '"@,
            match self.login {
                Some(login) => Some(login@),
                None => None,
            },
        );
        with_condition(
            by_login,
            self.id is None && self.name is None && self.login is None,
            " password = '"@,
            match self.password {
                Some(password) => Some(password@),
                None => None,
            },
        )
    }

    /// Builds the query that finds the user: one condition for each field
    /// that is given, in the order id, name, login, password.
    pub fn query(&self) -> (r: String)
        ensures
            r@ == self.query_text(),
    {
        let mut query = "SELECT id, name, login, password FROM users WHERE".to_string();
        let mut first = true;
        let id = match &self.id {
            Some(id) => Some(id.to_text()),
            None => None,
        };
        push_condition(&mut query, &mut first, " id = '", id);
        let name = match &self.name {
            Some(name) => Some(name.to_text()),
            None => None,
        };
        push_condition(&mut query, &mut first, " name = '", name);
        let login = match &self.login {
            Some(login) => Some(login.to_text()),
            None => None,
        };
        push_condition(&mut query, &mut first, " login = '", login);
        let password = match &self.password {
            Some(password) => Some(password.to_text()),
            None => None,
        };
        push_condition(&mut query, &mut first, " password = '", password);
        query
    }
}

/// Collects the fields of a user one by one.
#[derive(Debug)]
pub struct Builder {
    pub id: Option<Uuid>,
    pub name: Option<Name>,
    pub login: Option<Login>,
    pub password: Option<Password>,
}

impl Builder {
    /// A builder without any field.
    pub fn new() -> (r: Builder)
        ensures
            r.id is None,
            r.name is None,
            r.login is None,
            r.password is None,
    {
        Builder { id: None, name: None, login: None, password: None }
    }

    pub fn id(&mut self, id: Uuid)
        ensures
            *final(self) == (Builder { id: Some(id), ..*old(self) }),
    {
        self.id = Some(id);
    }

    pub fn name(&mut self, name: Name)
        ensures
            *final(self) == (Builder { name: Some(name), ..*old(self) }),
    {
        self.name = Some(name);
    }

    pub fn login(&mut self, login: Login)
        ensures
            *final(self) == (Builder { login: Some(login), ..*old(self) }),
    {
        self.login = Some(login);
    }

    pub fn password(&mut self, password: Password)
        ensures
            *final(self) == (Builder { password: Some(password), ..*old(self) }),
    {
        self.password = Some(password);
    }

    /// Whether every field has been given.
    pub open spec fn complete(&self) -> bool {
        self.id is Some && self.name is Some && self.login is Some && self.password is Some
    }

    /// The user, if every field has been given.
    pub fn try_get(self) -> (r: Option<User>)
        ensures
            r is Some <==> self.complete(),
            r matches Some(user) ==> self.id == Some(user.id) && self.name == Some(user.name)
                && self.login == Some(user.login) && self.password == Some(user.password),
    {
        match (self.id, self.name, self.login, self.password) {
            (Some(id), Some(name), Some(login), Some(password)) => Some(
                User { id, name, login, password },
            ),
            _ => None,
        }
    }
}

} // verus!
