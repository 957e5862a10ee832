use rqlite_rs::error::{QueryBuilderError, RequestError};
use rqlite_rs::operations;
use rqlite_rs::query::{
    count_placeholders, frame_array, integer_string, query, Operation, QueryArgs, RqliteArgument,
    RqliteArgumentRaw, RqliteQuery,
};
use rqlite_rs::query_result::QueryResult;
use rqlite_rs::request::Method;
use rqlite_rs::response::{QueryError, RqliteResult};
use rqlite_rs::text::decimal_string;

#[test]
fn unit_query_macro_correct_query_types() {
    let query_made = query("CREATE TABLE foo (id INTEGER PRIMARY KEY)", vec![]);
    assert!(query_made.is_ok());
    assert_eq!(query_made.unwrap().op, Operation::Create);

    let query_made = query("SELECT * FROM foo", vec![]);
    assert!(query_made.is_ok());
    assert_eq!(query_made.unwrap().op, Operation::Select);

    let query_made = query("UPDATE foo SET name = 'bar' WHERE id = 1", vec![]);
    assert!(query_made.is_ok());
    assert_eq!(query_made.unwrap().op, Operation::Update);

    let query_made = query("DELETE FROM foo WHERE id = 1", vec![]);
    assert!(query_made.is_ok());
    assert_eq!(query_made.unwrap().op, Operation::Delete);

    let query_made = query("INSERT INTO foo (name) VALUES ('bar')", vec![]);
    assert!(query_made.is_ok());
    assert_eq!(query_made.unwrap().op, Operation::Insert);

    let query_made = query("PRAGMA table_info(foo)", vec![]);
    assert!(query_made.is_ok());
    assert_eq!(query_made.unwrap().op, Operation::Pragma);

    let query_made = query("DROP TABLE foo", vec![]);
    assert!(query_made.is_ok());
    assert_eq!(query_made.unwrap().op, Operation::Drop);
}

#[test]
fn unit_query_macro_incorrect_query_types() {
    let query_made = query("TEST * FROM foo", vec![]);
    assert!(query_made.is_err());
}

#[test]
fn unit_query_macro_query_args() {
    let query_made = query("SELECT * FROM foo WHERE id = ?", vec![1i64.encode()]);
    assert!(query_made.is_ok());
    assert_eq!(query_made.unwrap().args.len(), 1);

    let query_made = query(
        "SELECT * FROM foo WHERE id = ?",
        vec![1i64.encode(), "foo".encode()],
    );
    assert!(query_made.is_err());
    assert!(matches!(
        query_made.unwrap_err(),
        QueryBuilderError::InvalidArgumentCount(1, 2)
    ));
}

#[test]
fn unit_query_macro_try_into_from_string_slice() {
    let query_made: Result<RqliteQuery, QueryBuilderError> = "SELECT * FROM foo".try_into();
    assert!(query_made.is_ok());
    assert_eq!(query_made.unwrap().op, Operation::Select);
}

#[test]
fn unit_query_macro_try_into_from_string() {
    let query_made: Result<RqliteQuery, QueryBuilderError> =
        "SELECT * FROM foo".to_string().try_into();
    assert!(query_made.is_ok());
    assert_eq!(query_made.unwrap().op, Operation::Select);
}

#[test]
fn unit_query_macro_try_into_from_result_err() {
    let query_made: Result<RqliteQuery, QueryBuilderError> = Err(
        QueryBuilderError::InvalidQuery("TEST * FROM foo".to_string()),
    )
    .try_into();
    assert!(query_made.is_err());
}

#[test]
fn unit_query_macro_query_args_from_query() {
    let query_made = query("SELECT * FROM foo WHERE id = ?", vec![1i64.encode()]);
    assert!(query_made.is_ok());

    let query_args = QueryArgs::from_query(query_made.unwrap());
    assert_eq!(query_args.0.len(), 1);
    assert_eq!(query_args.0[0].len(), 2);
}

#[test]
fn unit_query_macro_query_args_from_query_vec() {
    let query_1 = query("SELECT * FROM foo WHERE id = ?", vec![1i64.encode()]);
    let query_2 = query("SELECT * FROM foo WHERE id = ?", vec![2i64.encode()]);
    assert!(query_1.is_ok());
    assert!(query_2.is_ok());

    let query_args = QueryArgs::from_queries(vec![query_1.unwrap(), query_2.unwrap()]);
    assert_eq!(query_args.0.len(), 2);
    assert_eq!(query_args.0[0].len(), 2);
    assert_eq!(query_args.0[1].len(), 2);
}

#[test]
fn unit_query_macro_query_to_json() {
    let query_made = query("SELECT * FROM foo WHERE id = ?", vec![1i64.encode()]);
    assert!(query_made.is_ok());

    let json = query_made.unwrap().into_json();
    assert_eq!(json.unwrap(), r#"[["SELECT * FROM foo WHERE id = ?",1]]"#);
}

#[test]
fn unit_query_macro_query_endpoint() {
    let query_made = query("SELECT * FROM foo WHERE id = ?", vec![1i64.encode()]);
    assert!(query_made.is_ok());

    let endpoint = query_made.unwrap().endpoint();
    assert_eq!(endpoint, "db/query");
}

#[test]
fn unit_rqlite_argument() {
    let arg = 1i32.encode();
    assert_eq!(arg, RqliteArgument::I64(1));

    let arg = 1i64.encode();
    assert_eq!(arg, RqliteArgument::I64(1));

    let arg = true.encode();
    assert_eq!(arg, RqliteArgument::Bool(true));

    let arg = "hello".encode();
    assert_eq!(arg, RqliteArgument::String("hello".to_string()));

    let arg = "hello".to_string().encode();
    assert_eq!(arg, RqliteArgument::String("hello".to_string()));

    let arg = Some(1i64).encode();
    assert_eq!(arg, RqliteArgument::I64(1));

    let arg = None::<i64>.encode();
    assert_eq!(arg, RqliteArgument::Null);
}

#[test]
fn unit_query_result() {
    let query_result = QueryResult::new(Some(1), Some(1));

    assert_eq!(query_result.last_insert_id(), Some(1));
    assert_eq!(query_result.rows_affected(), Some(1));
    assert_eq!(query_result.changed(), true);
}

#[test]
fn query_result_changed_needs_an_affected_row() {
    assert!(!QueryResult::new(Some(4), Some(0)).changed());
    assert!(!QueryResult::new(Some(4), None).changed());
    assert!(!QueryResult::new(None, Some(-1)).changed());
    assert!(QueryResult::new(None, Some(3)).changed());
    assert_eq!(QueryResult::new(None, None).last_insert_id(), None);
    assert_eq!(QueryResult::new(Some(7), None).rows_affected(), None);
}

#[test]
fn operation_is_found_whatever_the_case() {
    assert_eq!(Operation::from_query_string("select 1").unwrap(), Operation::Select);
    assert_eq!(Operation::from_query_string("SeLeCt 1").unwrap(), Operation::Select);
    assert_eq!(Operation::from_query_string("DROP TABLE x").unwrap(), Operation::Drop);
    assert_eq!(Operation::from_query_string("dropped").unwrap(), Operation::Drop);
    assert_eq!(Operation::from_query_string("pragma x").unwrap(), Operation::Pragma);
    assert_eq!(Operation::from_lowercase("create table"), Some(Operation::Create));
    assert_eq!(Operation::from_lowercase("CREATE table"), None);
    assert_eq!(Operation::from_lowercase(""), None);
}

#[test]
fn conversions_agree_with_try_from_str() {
    for statement in ["SELECT 1", "drop table x", "nothing", ""] {
        let from_slice: Result<RqliteQuery, QueryBuilderError> = statement.try_into();
        let from_string: Result<RqliteQuery, QueryBuilderError> = statement.to_string().try_into();
        let direct = RqliteQuery::try_from_str(statement);
        assert_eq!(from_slice.is_ok(), direct.is_ok());
        assert_eq!(from_string.is_ok(), direct.is_ok());
        if let (Ok(one), Ok(two), Ok(three)) = (from_slice, from_string, direct) {
            assert_eq!(one.op, three.op);
            assert_eq!(two.op, three.op);
            assert_eq!(one.query, statement);
            assert_eq!(two.query, statement);
            assert!(one.args.is_empty() && two.args.is_empty());
        }
    }
    let given = query("SELECT ?", vec![RqliteArgument::Null]);
    let kept: Result<RqliteQuery, QueryBuilderError> = given.try_into();
    assert_eq!(kept.unwrap().args, vec![RqliteArgument::Null]);
}

#[test]
fn unknown_operation_hands_the_statement_back() {
    match Operation::from_query_string(" SELECT 1") {
        Err(QueryBuilderError::InvalidOperation(text)) => assert_eq!(text, " SELECT 1"),
        _ => panic!("a statement that begins with a blank is accepted"),
    }
    match Operation::from_query_string("") {
        Err(QueryBuilderError::InvalidOperation(text)) => assert_eq!(text, ""),
        _ => panic!("an empty statement is accepted"),
    }
    match query("EXPLAIN SELECT 1", vec![]) {
        Err(QueryBuilderError::InvalidQuery(text)) => assert_eq!(text, "EXPLAIN SELECT 1"),
        _ => panic!("an unknown statement is accepted"),
    }
    match RqliteQuery::try_from_str("TEST * FROM foo") {
        Err(QueryBuilderError::InvalidOperation(text)) => assert_eq!(text, "TEST * FROM foo"),
        _ => panic!("an unknown statement is accepted"),
    }
}

#[test]
fn placeholders_are_counted() {
    assert_eq!(count_placeholders(""), 0);
    assert_eq!(count_placeholders("SELECT 1"), 0);
    assert_eq!(count_placeholders("?"), 1);
    assert_eq!(count_placeholders("INSERT INTO foo VALUES (?, ?, ?)"), 3);
    assert_eq!(count_placeholders("???"), 3);
    assert_eq!(count_placeholders("SELECT 'é' WHERE a = ? AND b = 'ü?'"), 2);
}

#[test]
fn arguments_must_match_the_placeholders() {
    assert!(matches!(
        query("SELECT ?", vec![RqliteArgument::Null, RqliteArgument::Null]),
        Err(QueryBuilderError::InvalidArgumentCount(1, 2))
    ));
    assert!(matches!(
        query("SELECT 1", vec![RqliteArgument::Null]),
        Err(QueryBuilderError::InvalidArgumentCount(0, 1))
    ));
    assert!(matches!(
        query("SELECT ?, ?, ?", vec![RqliteArgument::Null]),
        Err(QueryBuilderError::InvalidArgumentCount(3, 1))
    ));
    let made = query("SELECT ?, ?", vec![RqliteArgument::Null, RqliteArgument::Bool(false)]).unwrap();
    assert_eq!(made.query, "SELECT ?, ?");
    assert_eq!(made.args, vec![RqliteArgument::Null, RqliteArgument::Bool(false)]);
    let made = query("SELECT ?, ?", vec![]).unwrap();
    assert_eq!(made.args.len(), 0);
}

#[test]
fn endpoint_follows_the_operation() {
    for (statement, endpoint) in [
        ("CREATE TABLE foo (id INTEGER)", "db/execute"),
        ("UPDATE foo SET a = 1", "db/execute"),
        ("DELETE FROM foo", "db/execute"),
        ("INSERT INTO foo VALUES (1)", "db/execute"),
        ("DROP TABLE foo", "db/execute"),
        ("SELECT * FROM foo", "db/query"),
        ("PRAGMA table_info(foo)", "db/query"),
    ] {
        assert_eq!(query(statement, vec![]).unwrap().endpoint(), endpoint);
    }
}

#[test]
fn usize_arguments_wrap_around() {
    assert_eq!(0usize.encode(), RqliteArgument::I64(0));
    assert_eq!(42usize.encode(), RqliteArgument::I64(42));
    assert_eq!((i64::MAX as usize).encode(), RqliteArgument::I64(i64::MAX));
    assert_eq!((i64::MAX as usize + 1).encode(), RqliteArgument::I64(i64::MIN));
    assert_eq!(usize::MAX.encode(), RqliteArgument::I64(-1));
    assert_eq!((-5i32).encode(), RqliteArgument::I64(-5));
    assert_eq!(Some("x").encode(), RqliteArgument::String("x".to_string()));
}

#[test]
fn numbers_are_written_in_decimal() {
    assert_eq!(decimal_string(0), "0");
    assert_eq!(decimal_string(7), "7");
    assert_eq!(decimal_string(10), "10");
    assert_eq!(decimal_string(1234567890), "1234567890");
    assert_eq!(decimal_string(u64::MAX), "18446744073709551615");
    assert_eq!(integer_string(0), "0");
    assert_eq!(integer_string(-1), "-1");
    assert_eq!(integer_string(-120), "-120");
    assert_eq!(integer_string(i64::MAX), "9223372036854775807");
    assert_eq!(integer_string(i64::MIN), "-9223372036854775808");
    for number in [-1000i64, -37, -1, 0, 5, 99, 100, 65536] {
        assert_eq!(integer_string(number), serde_json::to_string(&number).unwrap());
    }
}

#[test]
fn arrays_are_framed() {
    assert_eq!(frame_array(&vec![]), "[]");
    assert_eq!(frame_array(&vec!["1".to_string()]), "[1]");
    assert_eq!(
        frame_array(&vec!["1".to_string(), "\"a\"".to_string(), "null".to_string()]),
        "[1,\"a\",null]"
    );
}

#[test]
fn arguments_are_written_as_json() {
    assert_eq!(RqliteArgument::Null.to_json().unwrap(), "null");
    assert_eq!(RqliteArgument::Bool(true).to_json().unwrap(), "true");
    assert_eq!(RqliteArgument::Bool(false).to_json().unwrap(), "false");
    assert_eq!(RqliteArgument::I64(-42).to_json().unwrap(), "-42");
    assert_eq!(RqliteArgument::F64("1.5".to_string()).to_json().unwrap(), "1.5");
    assert_eq!(RqliteArgument::F32("0.25".to_string()).to_json().unwrap(), "0.25");
    assert_eq!(
        RqliteArgument::String("bar".to_string()).to_json().unwrap(),
        "\"bar\""
    );
    assert_eq!(
        RqliteArgument::String("a \"b\"\n\\c".to_string()).to_json().unwrap(),
        "\"a \\\"b\\\"\\n\\\\c\""
    );
}

#[test]
fn floating_point_arguments_are_held_as_their_json() {
    let half = serde_json::to_string(&0.5f64).unwrap();
    let made = query("SELECT ?", vec![RqliteArgument::F64(half)]).unwrap();
    assert_eq!(made.into_json().unwrap(), "[[\"SELECT ?\",0.5]]");
    let third = serde_json::to_string(&1.25f32).unwrap();
    let made = query("SELECT ?", vec![RqliteArgument::F32(third)]).unwrap();
    assert_eq!(made.into_json().unwrap(), "[[\"SELECT ?\",1.25]]");
}

#[test]
fn insert_with_argument_is_an_array_of_arrays() {
    let made = query("INSERT INTO foo (name) VALUES (?)", vec!["bar".encode()]).unwrap();
    assert_eq!(made.op, Operation::Insert);
    let request = operations::exec_query_request(made).unwrap();
    assert_eq!(request.method, Method::Post);
    assert_eq!(request.endpoint, "db/execute");
    assert!(request.params.is_none());
    let body = request.body.unwrap();
    assert_eq!(body, r#"[["INSERT INTO foo (name) VALUES (?)","bar"]]"#);
    let parsed: serde_json::Value = serde_json::from_str(&body).unwrap();
    let statements = parsed.as_array().unwrap();
    assert_eq!(statements.len(), 1);
    let statement = statements[0].as_array().unwrap();
    assert_eq!(statement.len(), 2);
    assert_eq!(statement[0].as_str(), Some("INSERT INTO foo (name) VALUES (?)"));
    assert_eq!(statement[1].as_str(), Some("bar"));
}

#[test]
fn body_holds_every_kind_of_argument() {
    let made = query(
        "INSERT INTO foo VALUES (?, ?, ?, ?, ?)",
        vec![
            "it's \"q\"".encode(),
            (-3i64).encode(),
            true.encode(),
            None::<i64>.encode(),
            RqliteArgument::F64("2.5".to_string()),
        ],
    )
    .unwrap();
    let body = made.into_json().unwrap();
    assert_eq!(
        body,
        r#"[["INSERT INTO foo VALUES (?, ?, ?, ?, ?)","it's \"q\"",-3,true,null,2.5]]"#
    );
    assert!(serde_json::from_str::<serde_json::Value>(&body).is_ok());
}

#[test]
fn batch_transaction_and_queue_requests() {
    let queries = || {
        vec![
            query("INSERT INTO foo (name) VALUES (?)", vec!["a".encode()]).unwrap(),
            query("SELECT * FROM foo", vec![]).unwrap(),
        ]
    };
    let body = r#"[["INSERT INTO foo (name) VALUES (?)","a"],["SELECT * FROM foo"]]"#;

    let request = operations::batch_request(queries()).unwrap();
    assert_eq!(request.method, Method::Post);
    assert_eq!(request.endpoint, "db/request");
    assert_eq!(request.body, Some(body.to_string()));
    assert!(request.params.is_none());

    let request = operations::transaction_request(queries()).unwrap();
    assert_eq!(request.method, Method::Post);
    assert_eq!(request.endpoint, "db/execute");
    assert_eq!(request.body, Some(body.to_string()));
    assert_eq!(
        request.params.unwrap().into_reqwest_query(),
        vec![("transaction".to_string(), "true".to_string())]
    );

    let request = operations::queue_request(queries()).unwrap();
    assert_eq!(request.endpoint, "db/execute");
    assert_eq!(request.body, Some(body.to_string()));
    assert_eq!(
        request.params.unwrap().into_reqwest_query(),
        vec![("queue".to_string(), "true".to_string())]
    );

    let request = operations::batch_request(vec![]).unwrap();
    assert_eq!(request.body, Some("[]".to_string()));
}

#[test]
fn cluster_requests() {
    let request = operations::ready_request();
    assert_eq!(request.method, Method::Get);
    assert_eq!(request.endpoint, "readyz");
    assert_eq!(request.body, None);
    assert!(request.params.is_none());
    assert!(operations::is_ready(200));
    assert!(!operations::is_ready(204));
    assert!(!operations::is_ready(503));

    let request = operations::nodes_request();
    assert_eq!(request.method, Method::Get);
    assert_eq!(request.endpoint, "nodes");
    assert_eq!(request.body, None);
    assert_eq!(
        request.params.unwrap().into_reqwest_query(),
        vec![("ver".to_string(), "2".to_string())]
    );

    let request = operations::remove_node_request("node \"1\"").unwrap();
    assert_eq!(request.method, Method::Delete);
    assert_eq!(request.endpoint, "remove");
    assert_eq!(request.body, Some(r#"{"id":"node \"1\""}"#.to_string()));
    assert!(request.params.is_none());

    assert!(operations::node_removed(200, "").is_ok());
    match operations::node_removed(500, "not the leader") {
        Err(RequestError::DatabaseError(message)) => {
            assert_eq!(message, "Failed to remove node: not the leader")
        }
        _ => panic!("a failed removal is not reported"),
    }
}

#[test]
fn queries_are_collected_up_to_the_first_error() {
    let made = vec![
        query("SELECT 1", vec![]),
        query("DROP TABLE foo", vec![]),
    ];
    let queries = operations::collect_queries(made).unwrap();
    assert_eq!(queries.len(), 2);
    assert_eq!(queries[0].query, "SELECT 1");
    assert_eq!(queries[1].op, Operation::Drop);

    let made = vec![
        query("SELECT 1", vec![]),
        query("NOPE", vec![]),
        query("SELECT ?", vec![RqliteArgument::Null, RqliteArgument::Null]),
    ];
    match operations::collect_queries(made) {
        Err(RequestError::InvalidQuery(QueryBuilderError::InvalidQuery(text))) => {
            assert_eq!(text, "NOPE")
        }
        _ => panic!("the first error is not the one reported"),
    }
    assert_eq!(operations::collect_queries(vec![]).unwrap().len(), 0);
}

#[test]
fn results_are_read() {
    let first = operations::first_result(vec![
        RqliteResult::Success(QueryResult::new(Some(1), Some(2))),
        RqliteResult::Success(QueryResult::new(Some(3), Some(4))),
    ])
    .unwrap();
    let report = operations::exec_result(first).unwrap();
    assert_eq!(report.last_insert_id(), Some(1));
    assert_eq!(report.rows_affected(), Some(2));

    assert!(matches!(
        operations::first_result(Vec::<RqliteResult<QueryResult>>::new()),
        Err(RequestError::NoRowsReturned)
    ));

    let failed: RqliteResult<QueryResult> = RqliteResult::Error(QueryError {
        error: "no such table: foo".to_string(),
    });
    match operations::exec_result(failed) {
        Err(RequestError::DatabaseError(message)) => assert_eq!(message, "no such table: foo"),
        _ => panic!("the database's error is not reported"),
    }
}
