//! Account-management core: registration and authentication of user
//! accounts, with credential hashing, a uniqueness-preserving account
//! repository, signed session tokens and a configurable session policy.
//!
//! The flows consume already-decoded typed requests and pre-resolved
//! configuration; transport, decoding and configuration reading live
//! outside the library.

pub mod config;
pub mod error;
pub mod flows;
pub mod hashing;
pub mod laws;
pub mod request;
pub mod session;
pub mod store;
pub mod text;
pub mod token;
pub mod validate;
