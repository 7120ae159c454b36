//! The item-query client's decision logic: the search endpoint's answer is
//! classified here; a refusal of the refresh policy is propagated unchanged
//! through [`crate::error::QueryError::from_auth`].

use vstd::prelude::*;

use crate::error::QueryError;

verus! {

/// Classifies the search endpoint's answer: a success status hands the body —
/// the page of listings, opaque to this core — back to the caller, and any
/// other status is surfaced with status and body so the caller may decide
/// whether to retry.
pub fn classify_search_response(status: u16, body: String) -> (out: Result<String, QueryError>)
    ensures
        200 <= status < 300 ==> (out matches Ok(page) && page == body),
        !(200 <= status < 300) ==> (out matches Err(QueryError::Server { status: s, body: b }) && s
            == status && b == body),
{
    if 200 <= status && status < 300 {
        Ok(body)
    } else {
        Err(QueryError::Server { status, body })
    }
}

} // verus!
