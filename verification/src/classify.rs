use vstd::prelude::*;
use crate::errors::ApiError;
use crate::normalize::{normalize_body, normalized_of, NormalizedResponse};

verus! {

/// What the transport reported for the single request: either it failed
/// outright (no status available), or it delivered a status code together
/// with the response body, `None` standing for a body that could not be read
/// as text.  This is the sole input to classification.
#[derive(Debug)]
pub enum RawOutcome {
    TransportFailed,
    Delivered { status: u16, body: Option<String> },
}

/// The error owed to a delivered non-success status, in the order the
/// taxonomy ranks the codes: 401/403, then 404, then any 5xx, then the
/// generic fallback for every other code.
pub open spec fn status_error(status: u16) -> ApiError {
    if status == 401 || status == 403 {
        ApiError::Unauthorized
    } else if status == 404 {
        ApiError::NotFound
    } else if 500 <= status <= 599 {
        ApiError::ServerError
    } else {
        ApiError::InvalidResponse
    }
}

/// The full classification table: what every possible outcome maps to, the
/// success value given as the normalized body text.
pub open spec fn classification(o: RawOutcome) -> Result<Seq<char>, ApiError> {
    match o {
        RawOutcome::TransportFailed => Err(ApiError::ConnectionFailed),
        RawOutcome::Delivered { status, body } => if 200 <= status <= 299 {
            match body {
                Some(t) => Ok(normalized_of(t@)),
                None => Err(ApiError::InvalidResponse),
            }
        } else {
            Err(status_error(status))
        },
    }
}

/// Map the transport's outcome onto the final result: a normalized success
/// payload for a readable 2xx body, a typed error for everything else.
/// Classification is total — every outcome lands in exactly one case of
/// `classification` — and pure.
pub fn classify_outcome(outcome: RawOutcome) -> (r: Result<NormalizedResponse, ApiError>)
    ensures
        r is Ok <==> classification(outcome) is Ok,
        r matches Ok(n) ==> n.data@ == classification(outcome)->Ok_0,
        r matches Err(e) ==> e == classification(outcome)->Err_0,
        outcome is TransportFailed ==> r == Err::<NormalizedResponse, ApiError>(
            ApiError::ConnectionFailed,
        ),
        outcome matches RawOutcome::Delivered { status, body } ==> {
            &&& (status == 401 || status == 403) ==> r == Err::<NormalizedResponse, ApiError>(
                ApiError::Unauthorized,
            )
            &&& status == 404 ==> r == Err::<NormalizedResponse, ApiError>(ApiError::NotFound)
            &&& 500 <= status <= 599 ==> r == Err::<NormalizedResponse, ApiError>(
                ApiError::ServerError,
            )
            &&& 200 <= status <= 299 && body is Some ==> r is Ok
        },
{
    match outcome {
        RawOutcome::TransportFailed => Err(ApiError::ConnectionFailed),
        RawOutcome::Delivered { status, body } => {
            if 200 <= status && status <= 299 {
                match body {
                    Some(text) => Ok(normalize_body(text)),
                    None => Err(ApiError::InvalidResponse),
                }
            } else if status == 401 || status == 403 {
                Err(ApiError::Unauthorized)
            } else if status == 404 {
                Err(ApiError::NotFound)
            } else if 500 <= status && status <= 599 {
                Err(ApiError::ServerError)
            } else {
                Err(ApiError::InvalidResponse)
            }
        },
    }
}

} // verus!
