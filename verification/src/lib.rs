//! Credential and session lifecycle management for a small fitness-tracking
//! backend: account registration, email verification, login and session
//! tokens, password reset, and the request guard that authorizes protected
//! calls.

pub mod account;
pub mod credential;
pub mod errors;
pub mod guard;
pub mod laws;
pub mod policy;
pub mod reset_code;
pub mod store;
pub mod strutil;
pub mod token;
pub mod users;

pub use errors::AuthError;
pub use errors::Signal;
