use vstd::prelude::*;
use vstd::string::StringExecFns;
use crate::errors::ApiError;

verus! {

/// The URL that fetches the page named by `id`.
pub open spec fn url_of(id: Seq<char>) -> Seq<char> {
    "https://api.notion.com/v1/pages/"@ + id
}

/// The value of the authorization header carrying the bearer `token`.
pub open spec fn auth_value_of(token: Seq<char>) -> Seq<char> {
    "Bearer "@ + token
}

/// The fixed value of the API-version header.
pub open spec fn version_value() -> Seq<char> {
    "2025-09-03"@
}

/// A fully assembled outbound request: a GET of `url` with the two headers
/// whose values are `auth_value` and `version_value`.  Pure data; the caller
/// hands it to a transport unchanged.
pub struct RequestDescriptor {
    pub url: String,
    pub auth_value: String,
    pub version_value: String,
}

/// The descriptor `d` is exactly the request for page `id` under `token`.
pub open spec fn descriptor_for(d: RequestDescriptor, id: Seq<char>, token: Seq<char>) -> bool {
    &&& d.url@ == url_of(id)
    &&& d.auth_value@ == auth_value_of(token)
    &&& d.version_value@ == version_value()
}

/// The HTTP method every request uses.
pub fn method_name() -> (r: &'static str)
    ensures
        r@ == "GET"@,
{
    "GET"
}

/// The name of the header that carries the bearer token.
pub fn auth_header_name() -> (r: &'static str)
    ensures
        r@ == "Authorization"@,
{
    "Authorization"
}

/// The name of the header that advertises the API version.
pub fn version_header_name() -> (r: &'static str)
    ensures
        r@ == "Notion-Version"@,
{
    "Notion-Version"
}

/// Assemble the request for page `page_id` authenticated by `token`.
/// Deterministic, no side effects: same inputs give the same descriptor.
pub fn build_request(page_id: &str, token: &str) -> (d: RequestDescriptor)
    ensures
        descriptor_for(d, page_id@, token@),
{
    RequestDescriptor {
        url: String::from_str("https://api.notion.com/v1/pages/").concat(page_id),
        auth_value: String::from_str("Bearer ").concat(token),
        version_value: String::from_str("2025-09-03"),
    }
}

/// Gate request building on the presence of a credential.
///
/// With no credential the request is refused before anything is built:
/// no descriptor exists, so a caller has nothing to hand to a transport
/// and the error short-circuits every network attempt.
pub fn plan_request(credential: Option<&str>, page_id: &str) -> (r: Result<
    RequestDescriptor,
    ApiError,
>)
    ensures
        credential is None ==> r == Err::<RequestDescriptor, ApiError>(ApiError::MissingCredential),
        credential matches Some(token) ==> r is Ok && descriptor_for(r->Ok_0, page_id@, token@),
{
    match credential {
        Some(token) => Ok(build_request(page_id, token)),
        None => Err(ApiError::MissingCredential),
    }
}

} // verus!
