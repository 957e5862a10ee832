use std::sync::Arc;

use rqlite_rs::column::Column;
use rqlite_rs::decode::{decode_blob, decode_bytes};
use rqlite_rs::error::{IntoTypedError, RequestError};
use rqlite_rs::node::{leader, Node};
use rqlite_rs::operations;
use rqlite_rs::response::{QueryError, RqliteResult};
use rqlite_rs::row::{FromRow, IntoTypedRows, Row};
use rqlite_rs::select::RqliteSelectResults;

fn create_row() -> Row {
    let columns = Arc::new(vec![
        Column::new("id".to_string(), 0usize, "integer".to_string()),
        Column::new("name".to_string(), 1usize, "text".to_string()),
    ]);

    let values = vec!["1".to_string(), "\"test\"".to_string()];

    Row::new(&columns, values)
}

fn get<T: serde::de::DeserializeOwned>(row: &Row, name: &str) -> Result<T, IntoTypedError> {
    serde_json::from_str(row.get(name)?).map_err(IntoTypedError::ConversionError)
}

fn get_opt<T: serde::de::DeserializeOwned>(
    row: &Row,
    name: &str,
) -> Result<Option<T>, IntoTypedError> {
    match row.get_opt(name)? {
        Some(text) => Ok(Some(
            serde_json::from_str(text).map_err(IntoTypedError::ConversionError)?,
        )),
        None => Ok(None),
    }
}

fn get_by_index<T: serde::de::DeserializeOwned>(
    row: &Row,
    index: usize,
) -> Result<T, IntoTypedError> {
    serde_json::from_str(row.get_by_index(index)?).map_err(IntoTypedError::ConversionError)
}

fn get_by_index_opt<T: serde::de::DeserializeOwned>(
    row: &Row,
    index: usize,
) -> Result<Option<T>, IntoTypedError> {
    match row.get_by_index_opt(index)? {
        Some(text) => Ok(Some(
            serde_json::from_str(text).map_err(IntoTypedError::ConversionError)?,
        )),
        None => Ok(None),
    }
}

#[test]
fn unit_column() {
    let column = Column::new("name".to_string(), 0, "TEXT".to_string());
    assert_eq!(column.name(), "name");
    assert_eq!(column.ordinal(), 0);
    assert_eq!(column.type_data(), "TEXT");
}

#[test]
fn unit_decode_blob() {
    let blob = "SGVsbG8gV29ybGQ=";
    let decoded = decode_blob::<Vec<u8>>(blob).unwrap();
    assert_eq!(decoded, b"Hello World");
}

#[test]
fn decode_blob_refuses_what_is_not_base64() {
    assert!(matches!(
        decode_blob::<Vec<u8>>("not base64!"),
        Err(IntoTypedError::BlobDecodeError(_))
    ));
    assert!(matches!(
        decode_bytes("SGVsbG8gV29ybGQ"),
        Err(IntoTypedError::BlobDecodeError(_))
    ));
    assert_eq!(decode_bytes("").unwrap(), Vec::<u8>::new());
    assert_eq!(decode_bytes("AAEC/w==").unwrap(), vec![0u8, 1, 2, 255]);
    let boxed = decode_blob::<Box<[u8]>>("AAEC/w==").unwrap();
    assert_eq!(&boxed[..], &[0u8, 1, 2, 255]);
}

#[test]
fn unit_row_get() {
    let row = create_row();

    assert_eq!(get::<i32>(&row, "id").unwrap(), 1);
    assert_eq!(get::<String>(&row, "name").unwrap(), "test");
    assert!(matches!(
        get::<i32>(&row, "not_found").unwrap_err(),
        IntoTypedError::ColumnNotFound
    ));
}

#[test]
fn unit_row_get_opt() {
    let row = create_row();

    assert_eq!(get_opt::<i32>(&row, "id").unwrap(), Some(1));
    assert_eq!(
        get_opt::<String>(&row, "name").unwrap(),
        Some("test".to_string())
    );
    assert_eq!(get_opt::<i32>(&row, "not_found").unwrap(), None);
}

#[test]
fn unit_row_get_by_index() {
    let row = create_row();

    assert_eq!(get_by_index::<i32>(&row, 0).unwrap(), 1);
    assert_eq!(get_by_index::<String>(&row, 1).unwrap(), "test");
    assert!(matches!(
        get_by_index::<i32>(&row, 2).unwrap_err(),
        IntoTypedError::ValueNotFound
    ));
}

#[test]
fn unit_row_get_by_index_opt() {
    let row = create_row();

    assert_eq!(get_by_index_opt::<i32>(&row, 0).unwrap(), Some(1));
    assert_eq!(
        get_by_index_opt::<String>(&row, 1).unwrap(),
        Some("test".to_string())
    );
    assert_eq!(get_by_index_opt::<i32>(&row, 2).unwrap(), None);
}

#[test]
fn unit_row_columns() {
    let row = create_row();

    assert_eq!(row.columns().len(), 2);
    assert_eq!(row.columns()[0].name(), "id");
    assert_eq!(row.columns()[1].name(), "name");
}

#[test]
fn unit_row_column_names() {
    let row = create_row();

    assert_eq!(row.column_names().len(), 2);
    assert_eq!(row.column_index("id"), Some(0));
    assert_eq!(row.column_index("name"), Some(1));
}

#[test]
fn unit_row_values() {
    let row = create_row();

    assert_eq!(row.values().len(), 2);
    assert_eq!(
        serde_json::from_str::<serde_json::Value>(&row.values()[0]).unwrap(),
        serde_json::Value::from(1)
    );
    assert_eq!(
        serde_json::from_str::<serde_json::Value>(&row.values()[1]).unwrap(),
        serde_json::Value::from("test")
    );
}

#[test]
fn unit_row_len() {
    let row = create_row();

    assert_eq!(row.len(), 2);
}

#[test]
fn unit_row_is_empty() {
    let row = create_row();

    assert!(!row.is_empty());
}

struct Test {
    id: i32,
    name: String,
}

impl FromRow for Test {
    fn from_row(row: Row) -> Result<Self, IntoTypedError> {
        Ok(Test {
            id: get(&row, "id")?,
            name: get(&row, "name")?,
        })
    }
}

#[test]
fn unit_row_into_typed_struct() {
    let row = create_row();

    let test = row.into_typed::<Test>().unwrap();

    assert_eq!(test.id, 1);
    assert_eq!(test.name, "test");
}

#[test]
fn unit_rqlite_select_results() {
    let select_results = RqliteSelectResults::new(
        vec!["id".to_string(), "name".to_string()],
        vec!["integer".to_string(), "text".to_string()],
        Some(vec![vec![
            serde_json::Value::Number(serde_json::Number::from(1)).to_string(),
            serde_json::Value::String("test".to_string()).to_string(),
        ]]),
    );

    let rows = select_results.rows();
    assert_eq!(rows.len(), 1);
    let row = &rows[0];
    assert_eq!(get::<i64>(row, "id").unwrap(), 1);
    assert_eq!(get::<String>(row, "name").unwrap(), "test");
}

#[test]
fn a_matching_response_decodes_into_one_row() {
    let result = RqliteResult::Success(RqliteSelectResults::new(
        vec!["id".to_string(), "name".to_string()],
        vec!["integer".to_string(), "text".to_string()],
        Some(vec![vec!["1".to_string(), "\"bar\"".to_string()]]),
    ));
    let rows = operations::fetch_result(result).unwrap();
    assert_eq!(rows.len(), 1);
    assert_eq!(get::<i64>(&rows[0], "id").unwrap(), 1);
    assert_eq!(get::<String>(&rows[0], "name").unwrap(), "bar");
    assert_eq!(rows[0].columns()[0].type_data(), "integer");
    assert_eq!(rows[0].columns()[1].type_data(), "text");
    assert_eq!(rows[0].columns()[1].ordinal(), 1);
}

#[test]
fn a_database_error_is_reported_for_a_read() {
    let result: RqliteResult<RqliteSelectResults> = RqliteResult::Error(QueryError {
        error: "near \"SELEC\": syntax error".to_string(),
    });
    match operations::fetch_result(result) {
        Err(RequestError::DatabaseError(message)) => {
            assert_eq!(message, "near \"SELEC\": syntax error")
        }
        _ => panic!("the database's error is not reported"),
    }
}

#[test]
fn rows_keep_the_order_of_the_values() {
    let results = RqliteSelectResults::new(
        vec!["n".to_string()],
        vec!["integer".to_string()],
        Some(vec![
            vec!["10".to_string()],
            vec!["20".to_string()],
            vec!["30".to_string()],
        ]),
    );
    let rows = results.rows();
    assert_eq!(rows.len(), 3);
    assert_eq!(rows[0].values(), &vec!["10".to_string()]);
    assert_eq!(rows[1].values(), &vec!["20".to_string()]);
    assert_eq!(rows[2].values(), &vec!["30".to_string()]);
    assert!(Arc::ptr_eq(rows[0].columns(), rows[2].columns()));
}

#[test]
fn a_result_without_values_has_no_rows() {
    let results = RqliteSelectResults::new(
        vec!["n".to_string()],
        vec!["integer".to_string()],
        None,
    );
    assert_eq!(results.rows().len(), 0);
}

#[test]
fn columns_are_as_many_as_names_and_types_both_have() {
    let results = RqliteSelectResults::new(
        vec!["a".to_string(), "b".to_string(), "c".to_string()],
        vec!["integer".to_string(), "text".to_string()],
        Some(vec![vec!["1".to_string(), "2".to_string(), "3".to_string()]]),
    );
    let rows = results.rows();
    assert_eq!(rows[0].columns().len(), 2);
    assert_eq!(rows[0].column_names(), vec!["a".to_string(), "b".to_string()]);
    assert_eq!(rows[0].column_index("c"), None);
    assert_eq!(rows[0].len(), 3);
}

#[test]
fn null_values_and_missing_values() {
    let columns = Arc::new(vec![
        Column::new("id".to_string(), 0, "integer".to_string()),
        Column::new("note".to_string(), 1, "text".to_string()),
        Column::new("extra".to_string(), 2, "text".to_string()),
    ]);
    let row = Row::new(&columns, vec!["7".to_string(), "null".to_string()]);
    assert_eq!(row.get("note").unwrap(), "null");
    assert_eq!(row.get_opt("note").unwrap(), None);
    assert_eq!(row.get_by_index_opt(1).unwrap(), None);
    assert_eq!(row.get_opt("id").unwrap(), Some(&"7".to_string()));
    assert_eq!(row.get_opt("absent").unwrap(), None);
    assert!(matches!(row.get("extra"), Err(IntoTypedError::ValueNotFound)));
    assert!(matches!(row.get_opt("extra"), Err(IntoTypedError::ValueNotFound)));
    assert!(matches!(row.get("absent"), Err(IntoTypedError::ColumnNotFound)));
    assert!(matches!(row.get_by_index(2), Err(IntoTypedError::ValueNotFound)));
    assert_eq!(row.get_by_index_opt(2).unwrap(), None);
    assert_eq!(row.get_by_index(0).unwrap(), "7");
}

#[test]
fn a_value_of_another_type_is_a_conversion_error() {
    let row = create_row();
    assert!(matches!(
        get::<i32>(&row, "name"),
        Err(IntoTypedError::ConversionError(_))
    ));
    assert!(matches!(
        get_by_index::<String>(&row, 0),
        Err(IntoTypedError::ConversionError(_))
    ));
}

#[test]
fn the_last_column_of_a_name_is_the_one_found() {
    let columns = Arc::new(vec![
        Column::new("id".to_string(), 0, "integer".to_string()),
        Column::new("id".to_string(), 1, "integer".to_string()),
    ]);
    let row = Row::new(&columns, vec!["1".to_string(), "2".to_string()]);
    assert_eq!(row.column_index("id"), Some(1));
    assert_eq!(row.get("id").unwrap(), "2");
}

#[test]
fn the_number_of_columns_is_checked() {
    let row = create_row();
    assert!(row.expect_columns(2).is_ok());
    assert!(matches!(
        row.expect_columns(3),
        Err(IntoTypedError::ColumnCountMismatch(3, 2))
    ));
    let empty = Row::new(&Arc::new(vec![]), vec![]);
    assert!(empty.is_empty());
    assert_eq!(empty.len(), 0);
    assert!(empty.expect_columns(0).is_ok());
}

#[test]
fn rows_are_read_in_order_up_to_the_first_error() {
    let rows = vec![create_row(), create_row()];
    let typed = rows.into_typed::<Test>().unwrap();
    assert_eq!(typed.len(), 2);
    assert_eq!(typed[1].name, "test");

    let columns = Arc::new(vec![Column::new("id".to_string(), 0, "integer".to_string())]);
    let rows = vec![create_row(), Row::new(&columns, vec!["1".to_string()])];
    assert!(matches!(
        rows.into_typed::<Test>(),
        Err(IntoTypedError::ColumnNotFound)
    ));
}

fn node(id: &str, is_leader: bool) -> Node {
    Node {
        id: id.to_string(),
        api_addr: format!("http://{id}:4001"),
        raft_addr: format!("{id}:4002"),
        voter: true,
        reachable: true,
        leader: is_leader,
        time_bits: 0.001f64.to_bits(),
        error: None,
    }
}

#[test]
fn the_leader_is_the_first_node_that_leads() {
    let found = leader(vec![node("1", false), node("2", true), node("3", true)]).unwrap();
    assert_eq!(found.id, "2");
    assert!(found.leader);
    assert!(leader(vec![node("1", false), node("2", false)]).is_none());
    assert!(leader(vec![]).is_none());
}
