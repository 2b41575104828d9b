//! Verified core of a small REST client that fetches one remote page.
//!
//! The crate assembles the authenticated request for a page, classifies the
//! transport's outcome into a closed error taxonomy, and normalizes a
//! successful response body for display: pretty-printed JSON when the body
//! parses as JSON, the raw text unchanged otherwise.  Sending the request is
//! left to the caller; the core is a pure mapping from inputs to a
//! `Result<NormalizedResponse, ApiError>`.

pub mod classify;
pub mod errors;
pub mod normalize;
pub mod request;
