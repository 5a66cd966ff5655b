//! Validation of raw input values against rules.

pub mod decimal;
pub mod pattern;
pub mod report;
pub mod rules;

pub use report::{ValidationError, ValidtionDetails};
pub use rules::{try_validate_rules, validate_rules, Error, Rule, Rules, Validate};
