//! Error envelope returned to API clients.
//!
//! Every fallible handler converts its typed error into this JSON-shaped
//! envelope; the kind string decides the HTTP status.
use vstd::prelude::*;

verus! {

/// Detail part of an error reply: a human-readable message, a kind that
/// selects the HTTP status, and an optional machine-readable code.
pub struct ErrorDetail {
    pub message: String,
    pub kind: String,
    pub code: Option<String>,
}

/// Error envelope: `{ "error": { "message", "type", "code?" } }`.
pub struct ErrorResponse {
    pub error: ErrorDetail,
}

/// HTTP status that a kind string maps to: `not_found` is 404,
/// `invalid_request` is 400, everything else 500.
pub open spec fn spec_status_of_kind(kind: Seq<char>) -> u16 {
    if kind == "not_found"@ {
        404u16
    } else if kind == "invalid_request"@ {
        400u16
    } else {
        500u16
    }
}

impl ErrorResponse {
    /// Build an envelope from its three fields verbatim.
    pub fn new(message: String, error_type: String, code: Option<String>) -> (r: Self)
        ensures
            r.error.message == message,
            r.error.kind == error_type,
            r.error.code == code,
    {
        ErrorResponse { error: ErrorDetail { message, kind: error_type, code } }
    }

    /// Envelope for a missing session or response id; maps to 404.
    pub fn not_found(message: String) -> (r: Self)
        ensures
            r.error.message == message,
            r.error.kind@ == "not_found"@,
            r.error.code matches Some(c) && c@ == "model_not_found"@,
            spec_status_of_kind(r.error.kind@) == 404,
    {
        Self::new(message, "not_found".to_owned(), Some("model_not_found".to_owned()))
    }

    /// Envelope for a malformed payload or unsupported mode; maps to 400.
    pub fn invalid_request(message: String) -> (r: Self)
        ensures
            r.error.message == message,
            r.error.kind@ == "invalid_request"@,
            r.error.code is None,
            spec_status_of_kind(r.error.kind@) == 400,
    {
        proof {
            reveal_strlit("invalid_request");
            reveal_strlit("not_found");
            assert("invalid_request"@.len() == 15);
            assert("not_found"@.len() == 9);
        }
        Self::new(message, "invalid_request".to_owned(), None)
    }

    /// Envelope for an internal failure; maps to 500.
    pub fn internal_error(message: String) -> (r: Self)
        ensures
            r.error.message == message,
            r.error.kind@ == "internal_error"@,
            r.error.code is None,
            spec_status_of_kind(r.error.kind@) == 500,
    {
        proof {
            reveal_strlit("internal_error");
            reveal_strlit("not_found");
            reveal_strlit("invalid_request");
            assert("internal_error"@.len() == 14);
            assert("not_found"@.len() == 9);
            assert("invalid_request"@.len() == 15);
        }
        Self::new(message, "internal_error".to_owned(), None)
    }

    /// HTTP status this envelope is served with.
    pub fn status_code(&self) -> (r: u16)
        ensures
            r == spec_status_of_kind(self.error.kind@),
    {
        if self.error.kind == "not_found".to_owned() {
            404
        } else if self.error.kind == "invalid_request".to_owned() {
            400
        } else {
            500
        }
    }
}

/// Wrapper for a JSON-extracted request body; the HTTP layer fills it and
/// converts extraction failures into an `ErrorResponse`.
pub struct ApiJson<T>(pub T);

} // verus!
