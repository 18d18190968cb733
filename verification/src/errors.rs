//! The error taxonomy of the client.

use vstd::prelude::*;

use crate::types::ApiResponse;

verus! {

/// Why an operation of the client failed.
#[derive(Debug)]
pub enum AuthError {
    /// The transport failed or the response body was not a well-formed
    /// envelope; the text describes what went wrong.
    TransportError(String),
    /// `login` was called on a client that is already logged in.
    AlreadyLoggedIn,
    /// An authenticated operation was called on a client that is not
    /// logged in.
    NotLoggedIn,
    /// The remote call came back without the expected success marker; the
    /// raw envelope is kept for diagnostics.
    LoginRejected(ApiResponse),
    /// The envelope's error field was non-empty on an operation that treats
    /// that as fatal; the payload is the error object's entries.
    RemoteError(Vec<(String, serde_json::Value)>),
    /// As `RemoteError`, for an envelope whose error field is unconstrained
    /// JSON rather than an object.
    RemoteErrorValue(serde_json::Value),
}

} // verus!
