//! Judging the status line of the answer.

use crate::error::{FetchError, FetchErrorView};
use vstd::prelude::*;

verus! {

/// The statuses that count as success: the 2xx class.
pub open spec fn is_success_status(status: u16) -> bool {
    200 <= status < 300
}

/// Decides from the status of the answer how the query goes on: `Ok` where
/// the body is to be read and decoded, the API error where the service
/// refused. Statuses of the 4xx and the 5xx class are not told apart.
pub fn check_status(status: u16) -> (verdict: Result<(), FetchError>)
    ensures
        verdict is Ok <==> is_success_status(status),
        verdict matches Err(error) ==> error@ == FetchErrorView::Api,
{
    if 200 <= status && status < 300 {
        Ok(())
    } else {
        Err(FetchError::Api)
    }
}

} // verus!
