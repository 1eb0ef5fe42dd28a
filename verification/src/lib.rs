//! Identity and access-control core of a school-administration backend:
//! signed identity tokens, the request context derived from them, the
//! external-identity login flow, and the per-resource authorization policy.
//!
//! The core decides and computes; it fetches and stores nothing. Whoever
//! runs it hands it the time, the environment, the records it asks for and
//! the answers of the identity service.

pub mod base64url;
pub mod bytes;
pub mod chain;
pub mod config;
pub mod ctx;
pub mod decimal;
pub mod error;
pub mod hex;
pub mod oid;
pub mod policy;
pub mod schema;
pub mod token;
pub mod web;

pub use config::config;
pub use ctx::Context;
pub use error::{Error, Result};
