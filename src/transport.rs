//! How the outcome of a request to the server becomes a result of the
//! client's error taxonomy. The requests themselves are made by the caller.

use vstd::prelude::*;
use crate::error::MusicUploaderClientError;

verus! {

/// A success status is one in `200..=299`.
pub open spec fn is_success_status(status: u16) -> bool {
    200 <= status <= 299
}

/// The result of a request that got an answer with `status` and `body`: the
/// body on a success status, else `UnhappyResponse` with both.
pub fn response_outcome(status: u16, body: String) -> (r: Result<String, MusicUploaderClientError>)
    ensures
        is_success_status(status) ==> r == Ok::<String, MusicUploaderClientError>(body),
        !is_success_status(status) ==> r == Err::<String, MusicUploaderClientError>(
            MusicUploaderClientError::UnhappyResponse(status, body),
        ),
{
    if 200 <= status && status <= 299 {
        Ok(body)
    } else {
        Err(MusicUploaderClientError::UnhappyResponse(status, body))
    }
}

} // verus!
