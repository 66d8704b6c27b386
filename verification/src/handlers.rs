//! The three read operations, from what the store gave to what the client gets.
//!
//! Talking to the store is the caller's business. Each operation here takes
//! the store's answer and decides the response; [`search_pattern`] fixes what
//! the store is asked in the first place.

use crate::models::Drug;
use vstd::prelude::*;

verus! {

/// The most rows a search returns.
pub const SEARCH_LIMIT: i64 = 100;

/// Payload of the health probe.
#[derive(Debug, PartialEq, Eq)]
pub struct HealthCheckResponse {
    pub status: String,
}

/// Query parameters of a search.
#[derive(Debug, PartialEq, Eq)]
pub struct SearchQuery {
    pub q: String,
}

/// A failure of the store or of the connection to it. The detail is for the
/// server's log and never reaches a client.
#[derive(Debug, PartialEq, Eq)]
pub struct DataAccessError {
    pub detail: String,
}

/// The ways a read operation fails towards the client.
#[derive(Clone, Copy, Debug, PartialEq, Eq, Structural)]
pub enum ApiError {
    /// No row has the requested identifier.
    NotFound,
    /// The store could not be read.
    Internal,
}

impl ApiError {
    /// The HTTP status that stands for the error.
    pub open spec fn status_of(&self) -> u16 {
        match self {
            ApiError::NotFound => 404,
            ApiError::Internal => 500,
        }
    }

    /// The HTTP status that stands for the error: 404 for a missing row, 500
    /// for a store that could not be read.
    #[verifier::when_used_as_spec(status_of)]
    pub fn status_code(&self) -> (code: u16)
        ensures
            code == self.status_of(),
    {
        match self {
            ApiError::NotFound => 404,
            ApiError::Internal => 500,
        }
    }
}

/// The pattern that a search for `q` hands to the store: `q` between two
/// wildcard markers, so that it matches anywhere inside a name.
pub open spec fn pattern_of(q: Seq<char>) -> Seq<char> {
    seq!['%'] + q + seq!['%']
}

/// Answers the health probe: always the fixed status. It asks nothing of the
/// store and cannot fail.
pub fn health_check() -> (response: HealthCheckResponse)
    ensures
        response.status@ == "OK"@,
{
    HealthCheckResponse { status: String::from_str("OK") }
}

/// Builds the substring pattern for a search. The query text is taken as it
/// is; an empty query gives the pattern that matches every name.
pub fn search_pattern(query: &SearchQuery) -> (pattern: String)
    ensures
        pattern@ == pattern_of(query.q@),
{
    proof {
        reveal_strlit("%");
        assert("%"@ =~= seq!['%']);
    }
    let mut pattern = String::from_str("%");
    pattern.append(query.q.as_str());
    pattern.append("%");
    pattern
}

/// Decides the response to a search from the store's answer: the rows as they
/// came, an empty list included, or an internal error if the store failed.
pub fn search_drugs(found: Result<Vec<Drug>, DataAccessError>) -> (response: Result<
    Vec<Drug>,
    ApiError,
>)
    ensures
        response == match found {
            Ok(rows) => Ok::<Vec<Drug>, ApiError>(rows),
            Err(_) => Err(ApiError::Internal),
        },
{
    match found {
        Ok(rows) => Ok(rows),
        Err(_) => Err(ApiError::Internal),
    }
}

/// Decides the response to a lookup from the store's answer: the row that was
/// found, not-found if there was none, or an internal error if the store
/// failed. A lookup never succeeds without a row.
pub fn get_drug_by_id(found: Result<Option<Drug>, DataAccessError>) -> (response: Result<
    Drug,
    ApiError,
>)
    ensures
        response == match found {
            Ok(Some(drug)) => Ok::<Drug, ApiError>(drug),
            Ok(None) => Err(ApiError::NotFound),
            Err(_) => Err(ApiError::Internal),
        },
{
    match found {
        Ok(Some(drug)) => Ok(drug),
        Ok(None) => Err(ApiError::NotFound),
        Err(_) => Err(ApiError::Internal),
    }
}

} // verus!
