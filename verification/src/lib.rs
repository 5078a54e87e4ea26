//! Session keys for a multi-user management service.
//!
//! An [`Authkey`] binds an opaque key string to a user until it expires.
//! The [`AuthManager`] holds the keys that were handed out and answers,
//! under a given reading of the clock, whom a key string authenticates; it
//! hands out keys, trades a valid key in for a new one and drops keys. The
//! [`SharedAuthManager`] is one such manager for many callers at a time.
//!
//! What every operation does is stated over a plain model, a map from key
//! strings to keys, in [`authmanager`]; what follows from that for any run
//! of operations is proved in [`lemmas`]. The module [`api`] holds what the
//! endpoints around the keys answer, and [`user`], [`group`],
//! [`permission`] and [`error`] hold the records and errors of the service
//! that the keys are handed out by.

pub mod api;
pub mod authkey;
pub mod authmanager;
pub mod error;
pub mod group;
pub mod lemmas;
pub mod logging;
pub mod permission;
pub mod shared;
pub mod text;
pub mod time;
pub mod user;

pub use authkey::{Authkey, AuthkeyView};
pub use authmanager::AuthManager;
pub use error::{VError, VErrorIn, VErrorType, VResult};
pub use group::{Group, GroupError};
pub use permission::{Permission, PermissionError};
pub use shared::SharedAuthManager;
pub use time::{Timestamp, Validity};
pub use user::{User, UserError};
