//! The operations of the cluster's API: the request that each one sends,
//! and what its response means.

use vstd::prelude::*;
use vstd::string::*;
use crate::config::RqliteClientConfig;
use crate::error::{QueryBuilderError, RequestError};
use crate::query::{
    all_writable, body_json, components_of, json_encoding, json_string, statements_of, QueryArgs,
    RqliteArgument, RqliteQuery,
};
use crate::query_result::QueryResult;
use crate::request::{merged, merged_list, Method, RequestOptions, RqliteQueryParams};
use crate::response::RqliteResult;
use crate::row::Row;
use crate::select::{column_views, described_columns, RqliteSelectResults};
use crate::text::join;

verus! {

/// The statements of `queries` as the contracts see them.
pub open spec fn statements(queries: Seq<RqliteQuery>) -> Seq<Seq<RqliteArgument>> {
    queries.map_values(|query: RqliteQuery| components_of(query))
}

/// Whether `options` is a `POST` to `endpoint` whose body holds
/// `statements` and whose parameters are `params`, of which those that
/// `flags` marks are flags.
pub open spec fn posts_statements(
    options: RequestOptions,
    endpoint: Seq<char>,
    statements: Seq<Seq<RqliteArgument>>,
    params: Option<Seq<(Seq<char>, Seq<char>)>>,
    flags: Seq<bool>,
) -> bool {
    &&& options.method is Post
    &&& options.endpoint@ == endpoint
    &&& options.body matches Some(body) && body@ == body_json(statements)
    &&& match params {
        Some(pairs) => options.params matches Some(given) && given@ == pairs && given.flags()
            == flags,
        None => options.params is None,
    }
}

impl RqliteClientConfig {
    /// Adds the client's default parameters to a request, but for those
    /// whose name the request sets itself. Without default parameters the
    /// request stays as it is.
    pub fn merge_default_query_params(&self, options: &mut RequestOptions)
        ensures
            final(options).method == old(options).method,
            final(options).endpoint == old(options).endpoint,
            final(options).body == old(options).body,
            match self.default_query_params {
                Some(defaults) => final(options).params matches Some(params) && params.0@
                    == match old(options).params {
                    Some(own) => merged_list(own.0@, defaults.0@),
                    None => defaults.0@,
                } && params@ == match old(options).params {
                    Some(own) => merged(own@, defaults@),
                    None => defaults@,
                },
                None => final(options).params == old(options).params,
            },
    {
        if let Some(default_params) = &self.default_query_params {
            options.merge_default_query_params(default_params);
        }
    }
}

fn statements_request(
    body: QueryArgs,
    endpoint: &str,
    params: Option<RqliteQueryParams>,
) -> (request: Result<RequestOptions, RequestError>)
    ensures
        request is Ok <==> all_writable(statements_of(body.0@)),
        request matches Ok(options) ==> posts_statements(
            options,
            endpoint@,
            statements_of(body.0@),
            match params {
                Some(given) => Some(given@),
                None => None,
            },
            match params {
                Some(given) => given.flags(),
                None => Seq::empty(),
            },
        ),
        request matches Err(error) ==> error is FailedParseRequestBody,
{
    let text = match body.to_json() {
        Ok(text) => text,
        Err(error) => {
            return Err(RequestError::FailedParseRequestBody(error));
        },
    };
    let params = match params {
        Some(given) => Some(given.into_request_query_params()),
        None => None,
    };
    Ok(
        RequestOptions {
            method: Method::Post,
            endpoint: String::from_str(endpoint),
            body: Some(text),
            params,
        },
    )
}

/// The queries of `made`, in order, or the error of the first that could
/// not be made.
pub fn collect_queries(made: Vec<Result<RqliteQuery, QueryBuilderError>>) -> (queries: Result<
    Vec<RqliteQuery>,
    RequestError,
>)
    ensures
        match queries {
            Ok(queries) => {
                &&& queries@.len() == made@.len()
                &&& forall|i: int|
                    0 <= i < made@.len() ==> #[trigger] made@[i] == Ok::<
                        RqliteQuery,
                        QueryBuilderError,
                    >(queries@[i])
            },
            Err(error) => exists|i: int|
                {
                    &&& 0 <= i < made@.len()
                    &&& #[trigger] made@[i] matches Err(first) && error
                        == RequestError::InvalidQuery(first)
                    &&& forall|j: int| 0 <= j < i ==> (#[trigger] made@[j]) is Ok
                },
        },
{
    let mut queries: Vec<RqliteQuery> = Vec::new();
    for next in iter: made
        invariant
            iter.seq() == made@,
            queries@.len() == iter.index(),
            forall|i: int|
                0 <= i < queries@.len() ==> #[trigger] made@[i] == Ok::<
                    RqliteQuery,
                    QueryBuilderError,
                >(queries@[i]),
    {
        assert(next == made@[iter.index() as int]);
        match next {
            Ok(query) => queries.push(query),
            Err(error) => {
                return Err(RequestError::InvalidQuery(error));
            },
        }
    }
    Ok(queries)
}

/// The request that runs one query: a `POST` of the statement to
/// `db/query` if it reads and to `db/execute` if it writes. There is one
/// if and only if the statement and its arguments can be written as JSON.
pub fn exec_query_request(q: RqliteQuery) -> (request: Result<RequestOptions, RequestError>)
    ensures
        request is Ok <==> all_writable(seq![components_of(q)]),
        request matches Ok(options) ==> posts_statements(
            options,
            if q.op.reads() {
                "db/query"@
            } else {
                "db/execute"@
            },
            seq![components_of(q)],
            None,
            Seq::empty(),
        ),
        request matches Err(error) ==> error is FailedParseRequestBody,
{
    let endpoint = q.endpoint();
    statements_request(QueryArgs::from_query(q), endpoint.as_str(), None)
}

/// The request that runs several statements at once: a `POST` to
/// `db/request`. There is one if and only if every statement and argument
/// can be written as JSON; for no statements at all there always is.
pub fn batch_request(queries: Vec<RqliteQuery>) -> (request: Result<RequestOptions, RequestError>)
    ensures
        request is Ok <==> all_writable(statements(queries@)),
        request matches Ok(options) ==> posts_statements(
            options,
            "db/request"@,
            statements(queries@),
            None,
            Seq::empty(),
        ),
        request matches Err(error) ==> error is FailedParseRequestBody,
{
    statements_request(QueryArgs::from_queries(queries), "db/request", None)
}

/// The request that runs several statements as one transaction: a `POST`
/// to `db/execute` with the parameter `transaction`. There is one if and
/// only if every statement and argument can be written as JSON.
pub fn transaction_request(queries: Vec<RqliteQuery>) -> (request: Result<
    RequestOptions,
    RequestError,
>)
    ensures
        request is Ok <==> all_writable(statements(queries@)),
        request matches Ok(options) ==> posts_statements(
            options,
            "db/execute"@,
            statements(queries@),
            Some(seq![("transaction"@, "true"@)]),
            seq![true],
        ),
        request matches Err(error) ==> error is FailedParseRequestBody,
{
    let params = RqliteQueryParams::new().transaction();
    assert(params@ =~= seq![("transaction"@, "true"@)]);
    assert(params.0@.len() == 1 && params.0@[0].is_flag());
    assert(params.flags() =~= seq![true]);
    statements_request(QueryArgs::from_queries(queries), "db/execute", Some(params))
}

/// The request that queues several statements for later execution: a
/// `POST` to `db/execute` with the parameter `queue`. There is one if and
/// only if every statement and argument can be written as JSON.
pub fn queue_request(queries: Vec<RqliteQuery>) -> (request: Result<RequestOptions, RequestError>)
    ensures
        request is Ok <==> all_writable(statements(queries@)),
        request matches Ok(options) ==> posts_statements(
            options,
            "db/execute"@,
            statements(queries@),
            Some(seq![("queue"@, "true"@)]),
            seq![true],
        ),
        request matches Err(error) ==> error is FailedParseRequestBody,
{
    let params = RqliteQueryParams::new().queue();
    assert(params@ =~= seq![("queue"@, "true"@)]);
    assert(params.0@.len() == 1 && params.0@[0].is_flag());
    assert(params.flags() =~= seq![true]);
    statements_request(QueryArgs::from_queries(queries), "db/execute", Some(params))
}

/// The request that asks whether the cluster is ready: a `GET` of `readyz`.
pub fn ready_request() -> (options: RequestOptions)
    ensures
        options.method is Get,
        options.endpoint@ == "readyz"@,
        options.body is None,
        options.params is None,
{
    RequestOptions {
        method: Method::Get,
        endpoint: String::from_str("readyz"),
        body: None,
        params: None,
    }
}

/// Whether the answer to the readiness request says that the cluster is
/// ready: only the status 200 does.
pub fn is_ready(status: u16) -> (ready: bool)
    ensures
        ready == (status == 200),
{
    status == 200
}

/// The request that lists the nodes of the cluster: a `GET` of `nodes` in
/// version 2 of its format.
pub fn nodes_request() -> (options: RequestOptions)
    ensures
        options.method is Get,
        options.endpoint@ == "nodes"@,
        options.body is None,
        options.params matches Some(params) && params@ == seq![("ver"@, "2"@)] && params.flags()
            == seq![false],
{
    let params = RqliteQueryParams::new().ver(String::from_str("2"));
    assert(params@ =~= seq![("ver"@, "2"@)]);
    assert(params.0@.len() == 1 && !params.0@[0].is_flag());
    assert(params.flags() =~= seq![false]);
    RequestOptions {
        method: Method::Get,
        endpoint: String::from_str("nodes"),
        body: None,
        params: Some(params.into_request_query_params()),
    }
}

/// The body of the request that removes the node `id`.
pub open spec fn removal_json(id: Seq<char>) -> Seq<char> {
    "{\"id\":"@ + json_string(id) + "}"@
}

/// The request that removes a node from the cluster: a `DELETE` of
/// `remove` whose body names the node. There is one if and only if the
/// node's name can be written as JSON.
pub fn remove_node_request(id: &str) -> (request: Result<RequestOptions, RequestError>)
    ensures
        request is Ok <==> json_encoding(id@) is Some,
        request matches Ok(options) ==> {
            &&& options.method is Delete
            &&& options.endpoint@ == "remove"@
            &&& options.body matches Some(body) && body@ == removal_json(id@)
            &&& options.params is None
        },
        request matches Err(error) ==> error is FailedParseRequestBody,
{
    let name = match RqliteArgument::String(String::from_str(id)).to_json() {
        Ok(name) => name,
        Err(error) => {
            return Err(RequestError::FailedParseRequestBody(error));
        },
    };
    let mut body = join("{\"id\":", name.as_str());
    body.append("}");
    Ok(
        RequestOptions {
            method: Method::Delete,
            endpoint: String::from_str("remove"),
            body: Some(body),
            params: None,
        },
    )
}

/// What the answer to a removal means: a success status is one, and any
/// other status is an error of the database that carries the body.
pub fn node_removed(status: u16, body: &str) -> (removed: Result<(), RequestError>)
    ensures
        if 200 <= status < 300 {
            removed is Ok
        } else {
            removed matches Err(RequestError::DatabaseError(message)) && message@
                == "Failed to remove node: "@ + body@
        },
{
    if 200 <= status && status < 300 {
        Ok(())
    } else {
        Err(RequestError::DatabaseError(join("Failed to remove node: ", body)))
    }
}

/// The result of the one statement that a request ran: the first of the
/// results that came back. A response without results is an error.
pub fn first_result<T>(results: Vec<RqliteResult<T>>) -> (first: Result<
    RqliteResult<T>,
    RequestError,
>)
    ensures
        if results@.len() == 0 {
            first matches Err(RequestError::NoRowsReturned)
        } else {
            first matches Ok(result) && result == results@[0]
        },
{
    let mut results = results;
    if results.len() == 0 {
        Err(RequestError::NoRowsReturned)
    } else {
        Ok(results.remove(0))
    }
}

/// The rows that a statement that reads returned, or the error that the
/// database reported for it.
pub fn fetch_result(result: RqliteResult<RqliteSelectResults>) -> (rows: Result<
    Vec<Row>,
    RequestError,
>)
    ensures
        match result {
            RqliteResult::Success(found) => rows matches Ok(rows) && {
                &&& rows@.len() == match found.values {
                    Some(values) => values@.len(),
                    None => 0,
                }
                &&& forall|i: int|
                    0 <= i < rows@.len() ==> (#[trigger] rows@[i]).spec_values()
                        == crate::row::value_texts(found.values->0@[i]@)
                &&& forall|i: int|
                    0 <= i < rows@.len() ==> column_views((#[trigger] rows@[i]).spec_columns())
                        == described_columns(found.columns@, found.types@)
            },
            RqliteResult::Error(reported) => rows matches Err(RequestError::DatabaseError(message))
                && message == reported.error,
        },
{
    match result {
        RqliteResult::Success(found) => Ok(found.rows()),
        RqliteResult::Error(reported) => Err(RequestError::DatabaseError(reported.error)),
    }
}

/// The report of a statement that writes, or the error that the database
/// reported for it.
pub fn exec_result(result: RqliteResult<QueryResult>) -> (report: Result<QueryResult, RequestError>)
    ensures
        match result {
            RqliteResult::Success(found) => report matches Ok(report) && report == found,
            RqliteResult::Error(reported) => report matches Err(
                RequestError::DatabaseError(message),
            ) && message == reported.error,
        },
{
    match result {
        RqliteResult::Success(found) => Ok(found),
        RqliteResult::Error(reported) => Err(RequestError::DatabaseError(reported.error)),
    }
}

} // verus!
