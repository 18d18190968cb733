//! Typed client library for a remote media-catalog service's authentication
//! and account API.
//!
//! The library owns the session lifecycle (logged out -> logged in) and the
//! response-envelope decoding rule that every remote call shares.  The HTTP
//! transport itself lives outside: callers hand each operation the decoded
//! response body and receive the next session state and result.

pub mod client;
pub mod errors;
pub mod json;
pub mod types;
pub mod urls;

pub use client::Client;
pub use errors::AuthError;
pub use types::{ApiResponse, GenericApiResponse};
