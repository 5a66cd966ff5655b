//! The text fields of a user record, each with the rules it has to pass.

use crate::validation::pattern::{regex_found, search};
use crate::validation::rules::{
    all_applicable, error_texts, try_validate_rules, validate_rules, violations, Error, Rule,
    Rules, Validate,
};
use vstd::prelude::*;
use vstd::std_specs::convert::FromSpecImpl;

verus! {

/// Rules of this application, beside the standard ones.
#[derive(Debug)]
pub enum CustomRules {
    LoginCanContain,
}

impl CustomRules {
    pub open spec fn pattern(&self) -> Seq<char> {
        "^[a-zA-Z0-9_.]*$"@
    }

    /// Decides the rule from the outcome of the search: the login passes when
    /// the pattern matched.
    pub fn verdict(&self, found: bool) -> (r: Result<&Self, Error>)
        ensures
            found ==> r == Ok::<&Self, Error>(self),
            !found ==> r is Err && r->Err_0.text() == self.text(),
    {
        if found {
            Ok(self)
        } else {
            Err(Error::RuleNotValidated(self.message()))
        }
    }
}

impl Rule for CustomRules {
    open spec fn text(&self) -> Seq<char> {
        "Can contain only letters, numbers, underscores, and periods."@
    }

    fn message(&self) -> (r: String) {
        "Can contain only letters, numbers, underscores, and periods.".to_string()
    }
}

impl Validate<String> for CustomRules {
    open spec fn applicable(&self, value: &String) -> bool {
        regex_found(self.pattern(), value@) is Some
    }

    open spec fn accepts(&self, value: &String) -> bool {
        regex_found(self.pattern(), value@) == Some(true)
    }

    fn applies(&self, value: &String) -> (r: bool) {
        search("^[a-zA-Z0-9_.]*$", value.as_str()).is_some()
    }

    fn validate(&self, value: &String) -> (r: Result<&Self, Error>) {
        let found = search("^[a-zA-Z0-9_.]*$", value.as_str());
        self.verdict(found.unwrap())
    }
}

/// The rules a name has to pass: at least three characters, no digit.
pub open spec fn name_rules() -> Seq<&'static Rules> {
    seq![&Rules::MinLength(3), &Rules::ContainsDidgits(false)]
}

/// The standard rules a login has to pass: three to twenty characters.
pub open spec fn login_rules() -> Seq<&'static Rules> {
    seq![&Rules::MinLength(3), &Rules::MaxLength(20)]
}

/// The rule of this application that a login has to pass.
pub open spec fn login_custom_rules() -> Seq<&'static CustomRules> {
    seq![&CustomRules::LoginCanContain]
}

/// The rules a password has to pass: a lowercase letter, an uppercase letter,
/// a digit and a special character.
pub open spec fn password_rules() -> Seq<&'static Rules> {
    seq![
        &Rules::ContainsLowecaseCharacter(true),
        &Rules::ContainsUppercaseCharacter(true),
        &Rules::ContainsDidgits(true),
        &Rules::ContainsSpecialCharacters(true),
    ]
}

/// The name of a user.
#[derive(Debug)]
pub struct Name(pub String);

impl View for Name {
    type V = Seq<char>;

    open spec fn view(&self) -> Seq<char> {
        self.0@
    }
}

impl Name {
    /// What is wrong with `name`, as messages in the order of the rules.
    pub open spec fn complaints(name: &String) -> Seq<Seq<char>> {
        violations(name, name_rules())
    }

    /// Whether the rules of a name can be checked on `name`.
    pub open spec fn checkable(name: &String) -> bool {
        all_applicable(name, name_rules())
    }

    /// Accepts `name` when it passes every rule of a name, and otherwise
    /// returns the errors of the rules it does not pass.
    pub fn parse(name: String) -> (r: Result<Self, Vec<Error>>)
        requires
            Self::checkable(&name),
        ensures
            Self::complaints(&name).len() == 0 ==> r is Ok && r->Ok_0@ == name@,
            Self::complaints(&name).len() > 0 ==> r is Err && error_texts(r->Err_0@)
                == Self::complaints(&name),
    {
        let min_length = Rules::MinLength(3);
        let no_digits = Rules::ContainsDidgits(false);
        let mut rules: Vec<&Rules> = Vec::new();
        rules.push(&min_length);
        rules.push(&no_digits);
        assert(rules@ =~= name_rules());
        let errors = validate_rules(&name, rules.as_slice());
        if errors.is_empty() {
            Ok(Name(name))
        } else {
            Err(errors)
        }
    }

    /// Like [`Name::parse`], but `None` when a rule cannot be checked.
    pub fn try_parse(name: String) -> (r: Option<Result<Self, Vec<Error>>>)
        ensures
            r is Some <==> Self::checkable(&name),
            r matches Some(parsed) ==> {
                &&& Self::complaints(&name).len() == 0 ==> parsed is Ok && parsed->Ok_0@ == name@
                &&& Self::complaints(&name).len() > 0 ==> parsed is Err && error_texts(
                    parsed->Err_0@,
                ) == Self::complaints(&name)
            },
    {
        let min_length = Rules::MinLength(3);
        let no_digits = Rules::ContainsDidgits(false);
        let mut rules: Vec<&Rules> = Vec::new();
        rules.push(&min_length);
        rules.push(&no_digits);
        assert(rules@ =~= name_rules());
        match try_validate_rules(&name, rules.as_slice()) {
            Some(_) => Some(Self::parse(name)),
            None => None,
        }
    }

    /// The name as text.
    pub fn to_text(&self) -> (r: String)
        ensures
            r@ == self@,
    {
        self.0.clone()
    }
}

impl From<String> for Name {
    /// Takes the text as a name without checking any rule.
    fn from(value: String) -> (r: Name) {
        Name(value)
    }
}

impl FromSpecImpl<String> for Name {
    open spec fn obeys_from_spec() -> bool {
        true
    }

    open spec fn from_spec(value: String) -> Name {
        Name(value)
    }
}

/// The login of a user.
#[derive(Debug)]
pub struct Login(pub String);

impl View for Login {
    type V = Seq<char>;

    open spec fn view(&self) -> Seq<char> {
        self.0@
    }
}

impl Login {
    /// What is wrong with `login`: the messages of the standard rules first,
    /// then that of the application's own rule.
    pub open spec fn complaints(login: &String) -> Seq<Seq<char>> {
        violations(login, login_rules()) + violations(login, login_custom_rules())
    }

    /// Whether the rules of a login can be checked on `login`.
    pub open spec fn checkable(login: &String) -> bool {
        all_applicable(login, login_rules()) && all_applicable(login, login_custom_rules())
    }

    /// Accepts `login` when it passes every rule of a login, and otherwise
    /// returns the errors of the rules it does not pass.
    pub fn parse(login: String) -> (r: Result<Self, Vec<Error>>)
        requires
            Self::checkable(&login),
        ensures
            Self::complaints(&login).len() == 0 ==> r is Ok && r->Ok_0@ == login@,
            Self::complaints(&login).len() > 0 ==> r is Err && error_texts(r->Err_0@)
                == Self::complaints(&login),
    {
        let min_length = Rules::MinLength(3);
        let max_length = Rules::MaxLength(20);
        let mut rules: Vec<&Rules> = Vec::new();
        rules.push(&min_length);
        rules.push(&max_length);
        assert(rules@ =~= login_rules());
        let can_contain = CustomRules::LoginCanContain;
        let mut custom_rules: Vec<&CustomRules> = Vec::new();
        custom_rules.push(&can_contain);
        assert(custom_rules@ =~= login_custom_rules());
        let mut validation_errors = validate_rules(&login, rules.as_slice());
        let mut custom_errors = validate_rules(&login, custom_rules.as_slice());
        let ghost standard = validation_errors@;
        let ghost custom = custom_errors@;
        validation_errors.append(&mut custom_errors);
        assert(error_texts(validation_errors@) =~= error_texts(standard) + error_texts(custom));
        if validation_errors.is_empty() {
            Ok(Login(login))
        } else {
            Err(validation_errors)
        }
    }

    /// Like [`Login::parse`], but `None` when a rule cannot be checked.
    pub fn try_parse(login: String) -> (r: Option<Result<Self, Vec<Error>>>)
        ensures
            r is Some <==> Self::checkable(&login),
            r matches Some(parsed) ==> {
                &&& Self::complaints(&login).len() == 0 ==> parsed is Ok && parsed->Ok_0@
                    == login@
                &&& Self::complaints(&login).len() > 0 ==> parsed is Err && error_texts(
                    parsed->Err_0@,
                ) == Self::complaints(&login)
            },
    {
        let min_length = Rules::MinLength(3);
        let max_length = Rules::MaxLength(20);
        let mut rules: Vec<&Rules> = Vec::new();
        rules.push(&min_length);
        rules.push(&max_length);
        assert(rules@ =~= login_rules());
        let can_contain = CustomRules::LoginCanContain;
        let mut custom_rules: Vec<&CustomRules> = Vec::new();
        custom_rules.push(&can_contain);
        assert(custom_rules@ =~= login_custom_rules());
        if try_validate_rules(&login, rules.as_slice()).is_none() {
            return None;
        }
        if try_validate_rules(&login, custom_rules.as_slice()).is_none() {
            return None;
        }
        Some(Self::parse(login))
    }

    /// The login as text.
    pub fn to_text(&self) -> (r: String)
        ensures
            r@ == self@,
    {
        self.0.clone()
    }
}

impl From<String> for Login {
    /// Takes the text as a login without checking any rule.
    fn from(value: String) -> (r: Login) {
        Login(value)
    }
}

impl FromSpecImpl<String> for Login {
    open spec fn obeys_from_spec() -> bool {
        true
    }

    open spec fn from_spec(value: String) -> Login {
        Login(value)
    }
}

/// The password of a user.
#[derive(Debug)]
pub struct Password(pub String);

impl View for Password {
    type V = Seq<char>;

    open spec fn view(&self) -> Seq<char> {
        self.0@
    }
}

impl Password {
    /// What is wrong with `password`, as messages in the order of the rules.
    pub open spec fn complaints(password: &String) -> Seq<Seq<char>> {
        violations(password, password_rules())
    }

    /// Whether the rules of a password can be checked on `password`.
    pub open spec fn checkable(password: &String) -> bool {
        all_applicable(password, password_rules())
    }

    /// Accepts `password` when it passes every rule of a password, and
    /// otherwise returns the errors of the rules it does not pass.
    pub fn parse(password: String) -> (r: Result<Self, Vec<Error>>)
        requires
            Self::checkable(&password),
        ensures
            Self::complaints(&password).len() == 0 ==> r is Ok && r->Ok_0@ == password@,
            Self::complaints(&password).len() > 0 ==> r is Err && error_texts(r->Err_0@)
                == Self::complaints(&password),
    {
        let lowercase = Rules::ContainsLowecaseCharacter(true);
        let uppercase = Rules::ContainsUppercaseCharacter(true);
        let digits = Rules::ContainsDidgits(true);
        let special = Rules::ContainsSpecialCharacters(true);
        let mut rules: Vec<&Rules> = Vec::new();
        rules.push(&lowercase);
        rules.push(&uppercase);
        rules.push(&digits);
        rules.push(&special);
        assert(rules@ =~= password_rules());
        let validation_errors = validate_rules(&password, rules.as_slice());
        if validation_errors.is_empty() {
            Ok(Password(password))
        } else {
            Err(validation_errors)
        }
    }

    /// Like [`Password::parse`], but `None` when a rule cannot be checked.
    pub fn try_parse(password: String) -> (r: Option<Result<Self, Vec<Error>>>)
        ensures
            r is Some <==> Self::checkable(&password),
            r matches Some(parsed) ==> {
                &&& Self::complaints(&password).len() == 0 ==> parsed is Ok && parsed->Ok_0@
                    == password@
                &&& Self::complaints(&password).len() > 0 ==> parsed is Err && error_texts(
                    parsed->Err_0@,
                ) == Self::complaints(&password)
            },
    {
        let lowercase = Rules::ContainsLowecaseCharacter(true);
        let uppercase = Rules::ContainsUppercaseCharacter(true);
        let digits = Rules::ContainsDidgits(true);
        let special = Rules::ContainsSpecialCharacters(true);
        let mut rules: Vec<&Rules> = Vec::new();
        rules.push(&lowercase);
        rules.push(&uppercase);
        rules.push(&digits);
        rules.push(&special);
        assert(rules@ =~= password_rules());
        match try_validate_rules(&password, rules.as_slice()) {
            Some(_) => Some(Self::parse(password)),
            None => None,
        }
    }

    /// The password as text.
    pub fn to_text(&self) -> (r: String)
        ensures
            r@ == self@,
    {
        self.0.clone()
    }
}

impl From<String> for Password {
    /// Takes the text as a password without checking any rule.
    fn from(value: String) -> (r: Password) {
        Password(value)
    }
}

impl FromSpecImpl<String> for Password {
    open spec fn obeys_from_spec() -> bool {
        true
    }

    open spec fn from_spec(value: String) -> Password {
        Password(value)
    }
}

} // verus!
