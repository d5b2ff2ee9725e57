//! Decision core of a pluggable HTTP authentication layer.
//!
//! Given an inbound request, the crate decides whether authentication is
//! required, extracts the credential token, combines the answers of a token
//! backend into one result, and keeps the identity of each request in a
//! slot that no other request can see.

pub mod auth;
pub mod context;
pub mod middleware;
pub mod prelude;
pub mod request;
pub mod router;
pub mod text;
pub mod token;
pub mod validator;
