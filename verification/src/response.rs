//! What the cluster answers for one statement.

use vstd::prelude::*;

verus! {

/// The answer to one statement: its result, or the error that the database
/// reported for it.
#[derive(Debug)]
pub enum RqliteResult<T> {
    Error(QueryError),
    Success(T),
}

/// An error of the database.
#[derive(Debug)]
pub struct QueryError {
    pub error: String,
}

} // verus!
