//! What a statement that writes reports.

use vstd::prelude::*;

verus! {

/// The result of a statement that writes.
#[derive(Debug, Clone, Copy)]
pub struct QueryResult {
    last_insert_id: Option<i64>,
    rows_affected: Option<i64>,
}

impl QueryResult {
    /// A result with what the database reported.
    pub fn new(last_insert_id: Option<i64>, rows_affected: Option<i64>) -> (result: QueryResult)
        ensures
            result.spec_last_insert_id() == last_insert_id,
            result.spec_rows_affected() == rows_affected,
    {
        QueryResult { last_insert_id, rows_affected }
    }

    /// The id of the row inserted last, if the database reported one.
    pub closed spec fn spec_last_insert_id(&self) -> Option<i64> {
        self.last_insert_id
    }

    /// The number of rows affected, if the database reported it.
    pub closed spec fn spec_rows_affected(&self) -> Option<i64> {
        self.rows_affected
    }

    /// The id of the row inserted last, if the database reported one.
    #[verifier::when_used_as_spec(spec_last_insert_id)]
    pub fn last_insert_id(&self) -> (id: Option<i64>)
        ensures
            id == self.spec_last_insert_id(),
    {
        self.last_insert_id
    }

    /// The number of rows affected, if the database reported it.
    #[verifier::when_used_as_spec(spec_rows_affected)]
    pub fn rows_affected(&self) -> (rows: Option<i64>)
        ensures
            rows == self.spec_rows_affected(),
    {
        self.rows_affected
    }

    /// Whether the statement changed the database: whether at least one row
    /// is reported as affected.
    pub fn changed(&self) -> (changed: bool)
        ensures
            changed == (self.rows_affected() matches Some(rows) && rows > 0),
    {
        match self.rows_affected {
            Some(rows) => rows > 0,
            None => false,
        }
    }
}

} // verus!
