use vstd::prelude::*;

verus! {

/// The closed set of failures a single page fetch can produce.
///
/// Every transport/status combination maps to exactly one variant (or to a
/// normalized success value); there is no unclassified escape state.
#[derive(Clone, Copy, Debug, PartialEq, Eq, Structural)]
pub enum ApiError {
    /// The credential could not be obtained; no request is ever attempted.
    MissingCredential,
    /// The transport failed to deliver the request or receive any response.
    ConnectionFailed,
    /// The service answered with HTTP status 401 or 403.
    Unauthorized,
    /// The service answered with HTTP status 404.
    NotFound,
    /// The service answered with a 5xx status.
    ServerError,
    /// A success status whose body could not be read, or any other
    /// non-success status not enumerated above.
    InvalidResponse,
}

/// The fixed display text of each error variant.
pub open spec fn message_of(e: ApiError) -> Seq<char> {
    match e {
        ApiError::MissingCredential => "credential is not set"@,
        ApiError::ConnectionFailed => "failed to send HTTP request"@,
        ApiError::Unauthorized => "unauthorized"@,
        ApiError::NotFound => "not found"@,
        ApiError::ServerError => "server error"@,
        ApiError::InvalidResponse => "request failed"@,
    }
}

impl ApiError {
    /// A short human-readable description; callers print it on the error path.
    pub fn message(&self) -> (r: &'static str)
        ensures
            r@ == message_of(*self),
    {
        match self {
            ApiError::MissingCredential => "credential is not set",
            ApiError::ConnectionFailed => "failed to send HTTP request",
            ApiError::Unauthorized => "unauthorized",
            ApiError::NotFound => "not found",
            ApiError::ServerError => "server error",
            ApiError::InvalidResponse => "request failed",
        }
    }
}

} // verus!
