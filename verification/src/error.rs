//! The closed error taxonomy surfaced by the repository.
//!
//! Heterogeneous store and pool failures are collapsed into these four kinds
//! before they cross the core boundary, so the boundary layer never depends
//! on a specific store client's error types.

use vstd::prelude::*;

verus! {

/// One failure kind per row of the taxonomy:
/// - `PoolExhausted`: an acquisition wait exceeded the pool's timeout;
/// - `ConnectionFailure`: a store session could not be established or kept;
/// - `QueryFailure`: the store rejected the statement (constraint violation,
///   syntax, type mismatch);
/// - `InvalidFilter`: malformed filter input that cannot be safely clamped
///   (reserved for stricter validation; the current clamps are total).
#[derive(Clone, Copy, Debug, PartialEq, Eq, Structural)]
pub enum RepoError {
    PoolExhausted,
    ConnectionFailure,
    QueryFailure,
    InvalidFilter,
}

impl RepoError {
    /// The HTTP status the boundary layer answers with for this kind.
    pub open spec fn http_status_spec(self) -> u16 {
        match self {
            RepoError::PoolExhausted => 503,
            RepoError::ConnectionFailure => 503,
            RepoError::QueryFailure => 500,
            RepoError::InvalidFilter => 400,
        }
    }

    pub fn http_status(&self) -> (status: u16)
        ensures
            status == self.http_status_spec(),
    {
        match self {
            RepoError::PoolExhausted => 503,
            RepoError::ConnectionFailure => 503,
            RepoError::QueryFailure => 500,
            RepoError::InvalidFilter => 400,
        }
    }

    /// The textual message paired with the kind in a structured response.
    pub open spec fn message_spec(self) -> Seq<char> {
        match self {
            RepoError::PoolExhausted => "connection pool exhausted"@,
            RepoError::ConnectionFailure => "could not establish a store connection"@,
            RepoError::QueryFailure => "the store rejected the statement"@,
            RepoError::InvalidFilter => "malformed filter input"@,
        }
    }

    pub fn message(&self) -> (m: String)
        ensures
            m@ == self.message_spec(),
    {
        match self {
            RepoError::PoolExhausted => String::from_str("connection pool exhausted"),
            RepoError::ConnectionFailure => String::from_str("could not establish a store connection"),
            RepoError::QueryFailure => String::from_str("the store rejected the statement"),
            RepoError::InvalidFilter => String::from_str("malformed filter input"),
        }
    }
}

} // verus!
