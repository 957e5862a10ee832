//! The errors that the library reports.

use vstd::prelude::*;

verus! {

#[verifier::external_type_specification]
#[verifier::external_body]
pub struct ExJsonError(serde_json::Error);

#[verifier::external_type_specification]
#[verifier::external_body]
pub struct ExHttpError(reqwest::Error);

#[verifier::external_type_specification]
#[verifier::external_body]
pub struct ExDecodeError(base64::DecodeError);

/// Why a statement could not be turned into a query.
#[derive(Debug)]
pub enum QueryBuilderError {
    /// The statement has as many placeholders as the first number says, and
    /// as many arguments were given as the second.
    InvalidArgumentCount(usize, usize),
    /// The statement does not begin with a known operation.
    InvalidOperation(String),
    /// The statement is not a valid query.
    InvalidQuery(String),
}

/// Why a client could not be built.
#[derive(Debug)]
pub enum ClientBuilderError {
    /// The builder was given no host.
    NoHostsProvided,
    /// The HTTP client could not be set up.
    ReqwestError(reqwest::Error),
}

/// Why a request failed.
#[derive(Debug)]
pub enum RequestError {
    /// The cluster answered with a status that is neither a success nor 401.
    ReqwestError { body: String, status: u16 },
    /// The cluster rejected the credentials.
    Unauthorized,
    /// No host could be reached within the fallback budget.
    NoAvailableHosts,
    /// The transport failed for another reason than an unreachable host.
    SwitchoverWrongError(String),
    /// The query was not valid.
    InvalidQuery(QueryBuilderError),
    /// The request's body could not be written.
    FailedParseRequestBody(serde_json::Error),
    /// The response's body could not be read as what was expected.
    FailedParseResponseBody(serde_json::Error),
    /// The response's body could not be received.
    FailedReadingResponse(reqwest::Error),
    /// The response held no result where one was expected.
    NoRowsReturned,
    /// The database reported an error.
    DatabaseError(String),
}

/// Why a row could not be read as typed values.
#[derive(Debug)]
pub enum IntoTypedError {
    /// A value is not of the type asked for.
    ConversionError(serde_json::Error),
    /// The row has no column of that name.
    ColumnNotFound,
    /// The row has no value at that place.
    ValueNotFound,
    /// As many columns were expected as the first number says, and the row
    /// has as many as the second.
    ColumnCountMismatch(usize, usize),
    /// A blob is not valid base64.
    BlobDecodeError(base64::DecodeError),
}

} // verus!
