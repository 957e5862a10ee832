//! The result of one statement of a batch.

use vstd::prelude::*;
use crate::query_result::QueryResult;
use crate::select::RqliteSelectResults;

verus! {

/// What one statement of a batch returned: rows if it read, a report if it
/// wrote.
#[derive(Debug)]
pub enum BatchResult {
    SelectResults(RqliteSelectResults),
    QueryResult(QueryResult),
}

} // verus!
