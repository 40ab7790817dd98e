//! Verified core of a web bridge that relays a long-running external
//! process's streamed output to interactive clients.
//!
//! The crate models the session-multiplexing engine: per-session output
//! channels, a registry from session identifiers to channels, decoding of
//! inbound execution requests, construction of the external process's
//! argument vector, and the envelopes streamed back to the client.

use vstd::prelude::*;

pub mod channel;
pub mod dispatcher;
pub mod envelope;
pub mod hub;
pub mod invoke;
pub mod json;
pub mod escape;
pub mod registry;
pub mod request;
pub mod resolver;
pub mod text;

verus! {

/// A response wrapper used by the read-only metadata endpoints: either a
/// payload or an error message, never both.
pub struct ApiResponse<T> {
    pub success: bool,
    pub data: Option<T>,
    pub error: Option<String>,
}

impl<T> ApiResponse<T> {
    /// Wraps a payload as a successful response.
    pub fn success(data: T) -> (r: Self)
        ensures
            r.success,
            r.data == Some(data),
            r.error is None,
    {
        Self { success: true, data: Some(data), error: None }
    }

    /// Wraps an error message as a failed response carrying no payload.
    pub fn error(error: String) -> (r: Self)
        ensures
            !r.success,
            r.data is None,
            r.error == Some(error),
    {
        Self { success: false, data: None, error: Some(error) }
    }
}

/// Query parameters accepted by the metadata endpoints.
pub struct QueryParams {
    pub project_path: Option<String>,
}

} // verus!
