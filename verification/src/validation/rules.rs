//! Rules, what it means for a value to pass one, and the standard rules on
//! strings.

use crate::validation::decimal::{integer_text, length_string};
use crate::validation::pattern::{regex_found, search};
use vstd::prelude::*;

verus! {

/// A rule that a value did not pass.
#[derive(Debug, Clone, PartialEq, Eq)]
pub enum Error {
    /// Holds the message of the rule.
    RuleNotValidated(String),
}

impl Error {
    pub open spec fn text(&self) -> Seq<char> {
        match self {
            Error::RuleNotValidated(message) => message@,
        }
    }

    /// The message of the rule that was not passed.
    pub fn message(&self) -> (r: String)
        ensures
            r@ == self.text(),
    {
        match self {
            Error::RuleNotValidated(message) => message.clone(),
        }
    }
}

/// Something a value can be held against. A rule describes itself in words.
pub trait Rule {
    spec fn text(&self) -> Seq<char>;

    fn message(&self) -> (r: String)
        ensures
            r@ == self.text(),
    ;
}

/// A rule on values of type `V`.
pub trait Validate<V>: Rule {
    /// Whether the rule can be checked on `value` at all.
    spec fn applicable(&self, value: &V) -> bool;

    /// Whether `value` passes the rule.
    spec fn accepts(&self, value: &V) -> bool;

    fn applies(&self, value: &V) -> (r: bool)
        ensures
            r == self.applicable(value),
    ;

    /// Returns the rule itself when `value` passes, and otherwise the error
    /// that carries the rule's message.
    fn validate(&self, value: &V) -> (r: Result<&Self, Error>)
        requires
            self.applicable(value),
        ensures
            self.accepts(value) ==> r == Ok::<&Self, Error>(self),
            !self.accepts(value) ==> r is Err && r->Err_0.text() == self.text(),
    ;
}

/// The messages of the rules that `value` does not pass, in the order of the
/// rules.
pub open spec fn violations<T, U: Validate<T>>(value: &T, rules: Seq<&U>) -> Seq<Seq<char>>
    decreases rules.len(),
{
    if rules.len() == 0 {
        Seq::empty()
    } else {
        let earlier = violations(value, rules.drop_last());
        if rules.last().accepts(value) {
            earlier
        } else {
            earlier.push(rules.last().text())
        }
    }
}

/// A value is without complaint exactly when every rule accepts it, and there
/// are never more complaints than rules.
pub proof fn lemma_violations<T, U: Validate<T>>(value: &T, rules: Seq<&U>)
    ensures
        violations(value, rules).len() <= rules.len(),
        violations(value, rules).len() == 0 <==> forall|i: int|
            0 <= i < rules.len() ==> (#[trigger] rules[i]).accepts(value),
    decreases rules.len(),
{
    if rules.len() > 0 {
        let earlier = rules.drop_last();
        lemma_violations(value, earlier);
        if violations(value, rules).len() == 0 {
            assert forall|i: int| 0 <= i < rules.len() implies (#[trigger] rules[i]).accepts(
                value,
            ) by {
                if i < earlier.len() {
                    assert(earlier[i].accepts(value));
                }
            }
        }
        if forall|i: int| 0 <= i < rules.len() ==> (#[trigger] rules[i]).accepts(value) {
            assert forall|i: int| 0 <= i < earlier.len() implies (#[trigger] earlier[i]).accepts(
                value,
            ) by {
                assert(rules[i].accepts(value));
            }
            assert(rules.last() == rules[rules.len() - 1]);
        }
    }
}

/// The messages that a list of errors carries.
pub open spec fn error_texts(errors: Seq<Error>) -> Seq<Seq<char>> {
    Seq::new(errors.len(), |i: int| errors[i].text())
}

/// Whether every rule of the list can be checked on `value`.
pub open spec fn all_applicable<T, U: Validate<T>>(value: &T, rules: Seq<&U>) -> bool {
    forall|i: int| 0 <= i < rules.len() ==> (#[trigger] rules[i]).applicable(value)
}

/// Holds `value` against every rule and collects the errors of those it does
/// not pass.
pub fn validate_rules<T, U: Validate<T>>(value: &T, rules: &[&U]) -> (errors: Vec<Error>)
    requires
        all_applicable(value, rules@),
    ensures
        error_texts(errors@) == violations(value, rules@),
{
    let mut errors: Vec<Error> = Vec::new();
    let mut i: usize = 0;
    assert(rules@.take(0) =~= Seq::<&U>::empty());
    while i < rules.len()
        invariant
            i <= rules@.len(),
            all_applicable(value, rules@),
            error_texts(errors@) == violations(value, rules@.take(i as int)),
        decreases rules@.len() - i,
    {
        let rule = rules[i];
        let outcome = rule.validate(value);
        proof {
            let next = rules@.take(i as int + 1);
            assert(next.drop_last() =~= rules@.take(i as int));
            assert(next.last() == rules@[i as int]);
        }
        if let Err(e) = outcome {
            let ghost before = errors@;
            errors.push(e);
            assert(error_texts(errors@) =~= error_texts(before).push(e.text()));
        }
        i = i + 1;
    }
    assert(rules@.take(i as int) =~= rules@);
    errors
}

/// Like [`validate_rules`], but first finds out whether every rule can be
/// checked on `value`, and returns `None` when one cannot.
pub fn try_validate_rules<T, U: Validate<T>>(value: &T, rules: &[&U]) -> (r: Option<Vec<Error>>)
    ensures
        r is Some <==> all_applicable(value, rules@),
        r matches Some(errors) ==> error_texts(errors@) == violations(value, rules@),
{
    let mut i: usize = 0;
    while i < rules.len()
        invariant
            i <= rules@.len(),
            forall|j: int| 0 <= j < i ==> (#[trigger] rules@[j]).applicable(value),
        decreases rules@.len() - i,
    {
        if !rules[i].applies(value) {
            return None;
        }
        i = i + 1;
    }
    Some(validate_rules(value, rules))
}

/// The standard rules on strings.
#[derive(Debug, Clone, Copy)]
pub enum Rules {
    MaxLength(i16),
    MinLength(i16),
    ContainsDidgits(bool),
    ContainsSpecialCharacters(bool),
    ContainsLowecaseCharacter(bool),
    ContainsUppercaseCharacter(bool),
}

impl Rules {
    /// The regular expression that is searched for in the value.
    pub open spec fn pattern(&self) -> Seq<char> {
        match self {
            Rules::MaxLength(length) => "^.{0,"@ + integer_text(*length as int) + "}$"@,
            Rules::MinLength(length) => "^.{"@ + integer_text(*length as int) + ",}$"@,
            Rules::ContainsDidgits(_) => "\\d"@,
            Rules::ContainsSpecialCharacters(_) => ".*[@$!%*?&]"@,
            Rules::ContainsLowecaseCharacter(_) => ".*[a-z]"@,
            Rules::ContainsUppercaseCharacter(_) => ".*[A-Z]"@,
        }
    }

    /// Whether the rule asks for the pattern to be found or to be absent. The
    /// two length rules ask for their pattern to match.
    pub open spec fn expects(&self) -> bool {
        match self {
            Rules::MaxLength(_) => true,
            Rules::MinLength(_) => true,
            Rules::ContainsDidgits(must_contain) => *must_contain,
            Rules::ContainsSpecialCharacters(must_contain) => *must_contain,
            Rules::ContainsLowecaseCharacter(must_contain) => *must_contain,
            Rules::ContainsUppercaseCharacter(must_contain) => *must_contain,
        }
    }

    /// What the rule says of itself.
    pub open spec fn description(&self) -> Seq<char> {
        match self {
            Rules::MaxLength(length) => "Maximum length must be: "@ + integer_text(*length as int),
            Rules::MinLength(length) => "Minimum length must be: "@ + integer_text(*length as int),
            Rules::ContainsDidgits(must_contain) => if *must_contain {
                "Must contain at least one digit"@
            } else {
                "Must not contain digits"@
            },
            Rules::ContainsSpecialCharacters(must_contain) => if *must_contain {
                "Must contain at least one special character"@
            } else {
                "Must not contain special characters"@
            },
            Rules::ContainsLowecaseCharacter(must_contain) => if *must_contain {
                "Must contain at least one lowercase character"@
            } else {
                "Must not contain lowecase characters"@
            },
            Rules::ContainsUppercaseCharacter(must_contain) => if *must_contain {
                "Must contain at least one uppercase character"@
            } else {
                "Must not contain uppercase characters"@
            },
        }
    }

    /// Builds the regular expression of the rule.
    pub fn regex(&self) -> (r: String)
        ensures
            r@ == self.pattern(),
    {
        match self {
            Rules::MaxLength(length) => {
                let mut pattern = "^.{0,".to_string();
                pattern.append(length_string(*length).as_str());
                pattern.append("}$");
                pattern
            },
            Rules::MinLength(length) => {
                let mut pattern = "^.{".to_string();
                pattern.append(length_string(*length).as_str());
                pattern.append(",}$");
                pattern
            },
            Rules::ContainsDidgits(_) => "\\d".to_string(),
            Rules::ContainsSpecialCharacters(_) => ".*[@$!%*?&]".to_string(),
            Rules::ContainsLowecaseCharacter(_) => ".*[a-z]".to_string(),
            Rules::ContainsUppercaseCharacter(_) => ".*[A-Z]".to_string(),
        }
    }

    /// Decides the rule from the outcome of the search: the value passes when
    /// the pattern was found and the rule asks for it, or was not found and
    /// the rule forbids it.
    pub fn verdict(&self, found: bool) -> (r: Result<&Self, Error>)
        ensures
            found == self.expects() ==> r == Ok::<&Self, Error>(self),
            found != self.expects() ==> r is Err && r->Err_0.text() == self.description(),
    {
        let passes = match self {
            Rules::MaxLength(_) => found,
            Rules::MinLength(_) => found,
            Rules::ContainsDidgits(must_contain) => found == *must_contain,
            Rules::ContainsSpecialCharacters(must_contain) => found == *must_contain,
            Rules::ContainsLowecaseCharacter(must_contain) => found == *must_contain,
            Rules::ContainsUppercaseCharacter(must_contain) => found == *must_contain,
        };
        if passes {
            Ok(self)
        } else {
            Err(Error::RuleNotValidated(self.message()))
        }
    }
}

impl Rule for Rules {
    open spec fn text(&self) -> Seq<char> {
        self.description()
    }

    fn message(&self) -> (r: String) {
        match self {
            Rules::MaxLength(length) => {
                let mut text = "Maximum length must be: ".to_string();
                text.append(length_string(*length).as_str());
                text
            },
            Rules::MinLength(length) => {
                let mut text = "Minimum length must be: ".to_string();
                text.append(length_string(*length).as_str());
                text
            },
            Rules::ContainsDidgits(must_contain) => {
                if *must_contain {
                    "Must contain at least one digit".to_string()
                } else {
                    "Must not contain digits".to_string()
                }
            },
            Rules::ContainsSpecialCharacters(must_contain) => {
                if *must_contain {
                    "Must contain at least one special character".to_string()
                } else {
                    "Must not contain special characters".to_string()
                }
            },
            Rules::ContainsLowecaseCharacter(must_contain) => {
                if *must_contain {
                    "Must contain at least one lowercase character".to_string()
                } else {
                    "Must not contain lowecase characters".to_string()
                }
            },
            Rules::ContainsUppercaseCharacter(must_contain) => {
                if *must_contain {
                    "Must contain at least one uppercase character".to_string()
                } else {
                    "Must not contain uppercase characters".to_string()
                }
            },
        }
    }
}

impl Validate<String> for Rules {
    /// The rule can be checked when its regular expression is accepted.
    open spec fn applicable(&self, value: &String) -> bool {
        regex_found(self.pattern(), value@) is Some
    }

    open spec fn accepts(&self, value: &String) -> bool {
        regex_found(self.pattern(), value@) == Some(self.expects())
    }

    fn applies(&self, value: &String) -> (r: bool) {
        search(self.regex().as_str(), value.as_str()).is_some()
    }

    fn validate(&self, value: &String) -> (r: Result<&Self, Error>) {
        let found = search(self.regex().as_str(), value.as_str());
        self.verdict(found.unwrap())
    }
}

} // verus!
