//! Authentication core for a classroom management backend.
//!
//! Users register with a username, email and password; passwords are stored
//! as salted Argon2 hashes. A login issues a pair of HMAC-SHA256 signed
//! bearer tokens (a short-lived access token and a longer-lived refresh
//! token, each under its own key), the refresh token being persisted on the
//! user record so that rotation invalidates every older one. Protected
//! operations go through a single access guard that checks signature,
//! expiry and a per-operation role requirement.

pub mod claims;
pub mod codec;
pub mod errors;
pub mod guard;
pub mod hasher;
pub mod keys;
pub mod numstr;
pub mod ops;
pub mod role;
pub mod session;
pub mod store;
pub mod text;

pub use claims::Claims;
pub use errors::{AuthError, CodecError, GuardError, StoreError};
pub use guard::AuthContext;
pub use keys::AuthKeys;
pub use ops::QueryRoot;
pub use session::{LoginResponse, MutationRoot};
pub use role::{Role, RoleReq};
