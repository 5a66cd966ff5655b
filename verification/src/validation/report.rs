//! The validation error that is reported to a client: a message, and for each
//! field the complaints about it.

use std::collections::HashMap;
use vstd::prelude::*;

verus! {

/// The complaints by field.
pub type ValidtionDetails = HashMap<String, Vec<String>>;

/// A validation error with its details.
#[derive(Debug, Clone)]
pub struct ValidationError {
    message: String,
    details: ValidtionDetails,
}

impl ValidationError {
    pub closed spec fn message_text(&self) -> Seq<char> {
        self.message@
    }

    pub closed spec fn details_by_field(&self) -> ValidtionDetails {
        self.details
    }

    /// A validation error with the given message and details.
    pub fn new(message: &str, details: ValidtionDetails) -> (r: Self)
        ensures
            r.message_text() == message@,
            r.details_by_field() == details,
    {
        ValidationError { message: message.to_string(), details }
    }

    /// The message.
    pub fn message(&self) -> (r: &String)
        ensures
            r@ == self.message_text(),
    {
        &self.message
    }

    /// The complaints by field.
    pub fn details(&self) -> (r: &ValidtionDetails)
        ensures
            *r == self.details_by_field(),
    {
        &self.details
    }
}

} // verus!
