//! User records and the fields they are made of.

pub mod fields;
pub mod identifier;
pub mod record;

pub use fields::{CustomRules, Login, Name, Password};
pub use identifier::Uuid;
pub use record::{Builder, User, UserSearch};
