//! The result of a statement that reads.

use std::sync::Arc;
use vstd::prelude::*;
use vstd::string::*;
use crate::column::{Column, ColumnView};
use crate::row::{value_texts, Row};

verus! {

/// What the cluster returns for a statement that reads: the names and the
/// types of the columns, and the rows of values, each value as JSON text.
#[derive(Debug)]
pub struct RqliteSelectResults {
    pub columns: Vec<String>,
    pub types: Vec<String>,
    pub values: Option<Vec<Vec<String>>>,
}

/// The columns that `names` and `types` describe: as many as both have,
/// each with its name, its place and its type.
pub open spec fn described_columns(names: Seq<String>, types: Seq<String>) -> Seq<ColumnView> {
    Seq::new(
        if names.len() <= types.len() {
            names.len()
        } else {
            types.len()
        },
        |place: int|
            ColumnView { name: names[place]@, ordinal: place as nat, type_data: types[place]@ },
    )
}

/// The columns as the contracts see them.
pub open spec fn column_views(columns: Seq<Column>) -> Seq<ColumnView> {
    columns.map_values(|column: Column| column@)
}

impl RqliteSelectResults {
    /// A result with these columns and rows.
    pub fn new(
        columns: Vec<String>,
        types: Vec<String>,
        values: Option<Vec<Vec<String>>>,
    ) -> (result: RqliteSelectResults)
        ensures
            result.columns == columns,
            result.types == types,
            result.values == values,
    {
        RqliteSelectResults { columns, types, values }
    }

    /// The rows of the result, in order, all under the same columns. A
    /// result without values has no rows.
    pub fn rows(self) -> (rows: Vec<Row>)
        ensures
            rows@.len() == match self.values {
                Some(values) => values@.len(),
                None => 0,
            },
            forall|i: int|
                0 <= i < rows@.len() ==> (#[trigger] rows@[i]).spec_values() == value_texts(
                    self.values->0@[i]@,
                ),
            forall|i: int|
                0 <= i < rows@.len() ==> column_views((#[trigger] rows@[i]).spec_columns())
                    == described_columns(self.columns@, self.types@),
    {
        let RqliteSelectResults { columns: names, types, values } = self;
        let count = if names.len() <= types.len() {
            names.len()
        } else {
            types.len()
        };
        let mut columns: Vec<Column> = Vec::new();
        let mut index: usize = 0;
        while index < count
            invariant
                index <= count,
                count <= names@.len(),
                count <= types@.len(),
                columns@.len() == index,
                forall|k: int|
                    0 <= k < index ==> (#[trigger] columns@[k])@ == (ColumnView {
                        name: names@[k]@,
                        ordinal: k as nat,
                        type_data: types@[k]@,
                    }),
            decreases count - index,
        {
            columns.push(Column::new(names[index].clone(), index, types[index].clone()));
            index += 1;
        }
        assert(column_views(columns@) =~= described_columns(names@, types@));
        let columns = Arc::new(columns);
        let mut rows: Vec<Row> = Vec::new();
        if let Some(values) = values {
            let ghost all = values@;
            for row in iter: values
                invariant
                    iter.seq() == all,
                    rows@.len() == iter.index(),
                    forall|i: int|
                        0 <= i < rows@.len() ==> (#[trigger] rows@[i]).spec_values() == value_texts(
                            all[i]@,
                        ),
                    forall|i: int|
                        0 <= i < rows@.len() ==> (#[trigger] rows@[i]).spec_columns() == (
                        *columns)@,
            {
                assert(row == all[iter.index() as int]);
                rows.push(Row::new(&columns, row));
            }
        }
        rows
    }
}

} // verus!
