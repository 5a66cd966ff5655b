//! User registration and login: field validation rules, user records, and the
//! lifecycle of the paired access / refresh session tokens.

pub mod auth;
pub mod controllers;
pub mod user;
pub mod validation;
