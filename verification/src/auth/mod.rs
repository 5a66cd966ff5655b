//! Session tokens: the signed-token codec, the session liveness store, and the
//! operations that issue, verify, renew and destroy a token pair.

pub mod authorization;
pub mod codec;
pub mod error;
pub mod jwt;
pub mod laws;
pub mod machine;
pub mod pair;
pub mod store;
pub mod token;

pub use authorization::Authorization;
pub use error::Error;
pub use pair::{destroy, issue, refresh, verify, TokenPair};
pub use store::{MemoryStore, OfflineStore, SessionStore};
pub use token::{AccessToken, AccessTokenBody, Keys, RefreshToken, RefreshTokenBody, TokenClass};
