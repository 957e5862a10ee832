//! A row of a result: its values, reached by the name or the place of a
//! column.
//!
//! A value is held as the JSON text in which it arrived. Reading it as a
//! number, a string or anything else is left to the caller.

use std::sync::Arc;
use vstd::prelude::*;
use vstd::string::*;
use crate::column::Column;
use crate::error::IntoTypedError;
use crate::text::same_text;

verus! {

/// Calls `Arc::clone`: another handle to the same columns.
#[verifier::external_body]
fn share(columns: &Arc<Vec<Column>>) -> (shared: Arc<Vec<Column>>)
    ensures
        shared == *columns,
{
    Arc::clone(columns)
}

/// A row of a result.
#[derive(Debug)]
pub struct Row {
    values: Vec<String>,
    columns: Arc<Vec<Column>>,
}

/// The names of `columns`, in order.
pub open spec fn column_names(columns: Seq<Column>) -> Seq<Seq<char>> {
    columns.map_values(|column: Column| column@.name)
}

/// The values of a row as the contracts see them: the JSON text of each.
pub open spec fn value_texts(values: Seq<String>) -> Seq<Seq<char>> {
    values.map_values(|value: String| value@)
}

/// Whether a value is JSON's `null`.
pub open spec fn is_null(value: Seq<char>) -> bool {
    value == "null"@
}

/// A type that can be made of a row.
pub trait FromRow: Sized {
    /// Reads the row as a value of the type.
    fn from_row(row: Row) -> Result<Self, IntoTypedError>;
}

impl Row {
    /// The row's columns.
    pub closed spec fn spec_columns(&self) -> Seq<Column> {
        (*self.columns)@
    }

    /// The JSON text of each of the row's values, in order.
    pub closed spec fn spec_values(&self) -> Seq<Seq<char>> {
        value_texts(self.values@)
    }

    /// The place of the value that belongs to the column `name`: that of the
    /// last column of that name.
    pub open spec fn place_of(&self, name: Seq<char>) -> Option<int> {
        column_names(self.spec_columns()).index_of_last(name)
    }

    /// A row of `values` under `columns`.
    pub fn new(columns: &Arc<Vec<Column>>, values: Vec<String>) -> (row: Row)
        ensures
            row.spec_columns() == (**columns)@,
            row.spec_values() == value_texts(values@),
    {
        Row { values, columns: share(columns) }
    }

    /// The row's columns.
    pub fn columns(&self) -> (columns: &Arc<Vec<Column>>)
        ensures
            (**columns)@ == self.spec_columns(),
    {
        &self.columns
    }

    /// The names of the row's columns, in order.
    pub fn column_names(&self) -> (names: Vec<String>)
        ensures
            value_texts(names@) == column_names(self.spec_columns()),
    {
        let mut names: Vec<String> = Vec::new();
        let mut i: usize = 0;
        let ghost wanted = column_names(self.spec_columns());
        while i < self.columns.len()
            invariant
                i <= self.columns.len(),
                wanted == column_names(self.spec_columns()),
                wanted.len() == self.columns.len(),
                value_texts(names@) == wanted.take(i as int),
            decreases self.columns.len() - i,
        {
            let ghost before = names@;
            let column = &self.columns[i];
            let name = column.name().to_owned();
            names.push(name);
            proof {
                assert(self.spec_columns()[i as int] == *column);
                assert(wanted[i as int] == name@);
                assert(names@ == before.push(name));
                let now = value_texts(names@);
                let then = wanted.take(i + 1);
                assert(value_texts(before) == wanted.take(i as int));
                assert(wanted.take(i as int).len() == i);
                assert(now.len() == then.len());
                assert forall|at: int| 0 <= at < now.len() implies now[at] == then[at] by {
                    if at < i {
                        assert(now[at] == value_texts(before)[at]);
                        assert(then[at] == wanted.take(i as int)[at]);
                    }
                }
                assert(now =~= then);
            }
            i += 1;
        }
        assert(wanted.take(wanted.len() as int) =~= wanted);
        names
    }

    /// The place of the value that belongs to the column `name`.
    pub fn column_index(&self, name: &str) -> (place: Option<usize>)
        ensures
            match place {
                Some(index) => self.place_of(name@) == Some(index as int),
                None => self.place_of(name@) is None,
            },
    {
        let ghost names = column_names(self.spec_columns());
        let mut i: usize = self.columns.len();
        while i > 0
            invariant
                i <= self.columns.len(),
                names == column_names(self.spec_columns()),
                forall|j: int| i <= j < names.len() ==> names[j] != name@,
            decreases i,
        {
            i -= 1;
            if same_text(self.columns[i].name(), name) {
                proof {
                    assert(names[i as int] == name@);
                    names.index_of_last_ensures(name@);
                }
                return Some(i);
            }
        }
        proof {
            names.index_of_last_ensures(name@);
        }
        None
    }

    /// The value of the column `name`, as JSON text.
    ///
    /// It fails with `ColumnNotFound` when the row has no column of that
    /// name, and with `ValueNotFound` when it has the column but no value at
    /// its place.
    pub fn get(&self, name: &str) -> (value: Result<&String, IntoTypedError>)
        ensures
            match self.place_of(name@) {
                None => value matches Err(IntoTypedError::ColumnNotFound),
                Some(place) => if place < self.spec_values().len() {
                    value matches Ok(text) && text@ == self.spec_values()[place]
                } else {
                    value matches Err(IntoTypedError::ValueNotFound)
                },
            },
    {
        match self.column_index(name) {
            None => Err(IntoTypedError::ColumnNotFound),
            Some(index) => self.get_by_index(index),
        }
    }

    /// The value of the column `name`, as JSON text, or nothing when the row
    /// has no such column or the value is null.
    ///
    /// It fails with `ValueNotFound` when the row has the column but no
    /// value at its place.
    pub fn get_opt(&self, name: &str) -> (value: Result<Option<&String>, IntoTypedError>)
        ensures
            match self.place_of(name@) {
                None => value matches Ok(None),
                Some(place) => if place >= self.spec_values().len() {
                    value matches Err(IntoTypedError::ValueNotFound)
                } else if is_null(self.spec_values()[place]) {
                    value matches Ok(None)
                } else {
                    value matches Ok(Some(text)) && text@ == self.spec_values()[place]
                },
            },
    {
        match self.column_index(name) {
            None => Ok(None),
            Some(index) => {
                if index >= self.values.len() {
                    Err(IntoTypedError::ValueNotFound)
                } else {
                    self.get_by_index_opt(index)
                }
            },
        }
    }

    /// The value at `index`, as JSON text. It fails with `ValueNotFound`
    /// when the row has no value there.
    pub fn get_by_index(&self, index: usize) -> (value: Result<&String, IntoTypedError>)
        ensures
            if index < self.spec_values().len() {
                value matches Ok(text) && text@ == self.spec_values()[index as int]
            } else {
                value matches Err(IntoTypedError::ValueNotFound)
            },
    {
        if index < self.values.len() {
            Ok(&self.values[index])
        } else {
            Err(IntoTypedError::ValueNotFound)
        }
    }

    /// The value at `index`, as JSON text, or nothing when the row has no
    /// value there or the value is null. It never fails.
    pub fn get_by_index_opt(&self, index: usize) -> (value: Result<
        Option<&String>,
        IntoTypedError,
    >)
        ensures
            if index >= self.spec_values().len() || is_null(self.spec_values()[index as int]) {
                value matches Ok(None)
            } else {
                value matches Ok(Some(text)) && text@ == self.spec_values()[index as int]
            },
    {
        if index >= self.values.len() {
            return Ok(None);
        }
        let value = &self.values[index];
        if same_text(value.as_str(), "null") {
            Ok(None)
        } else {
            Ok(Some(value))
        }
    }

    /// The row's values, as JSON text.
    pub fn values(&self) -> (values: &Vec<String>)
        ensures
            value_texts(values@) == self.spec_values(),
    {
        &self.values
    }

    /// The number of values.
    pub fn len(&self) -> (len: usize)
        ensures
            len == self.spec_values().len(),
    {
        self.values.len()
    }

    /// Whether the row has no value.
    pub fn is_empty(&self) -> (empty: bool)
        ensures
            empty == (self.spec_values().len() == 0),
    {
        self.values.is_empty()
    }

    /// Checks that the row has `expected` columns, as a type made of that
    /// many values needs.
    pub fn expect_columns(&self, expected: usize) -> (checked: Result<(), IntoTypedError>)
        ensures
            if self.spec_columns().len() == expected {
                checked is Ok
            } else {
                checked matches Err(IntoTypedError::ColumnCountMismatch(wanted, found)) && wanted
                    == expected && found == self.spec_columns().len()
            },
    {
        let columns = self.columns.len();
        if columns != expected {
            return Err(IntoTypedError::ColumnCountMismatch(expected, columns));
        }
        Ok(())
    }

    /// Reads the row as a `T`, as `T` reads rows.
    pub fn into_typed<T: FromRow>(self) -> (typed: Result<T, IntoTypedError>)
        ensures
            call_ensures(T::from_row, (self,), typed),
    {
        T::from_row(self)
    }
}

/// Whether `T` can read `row` as `value`.
pub open spec fn reads_as<T: FromRow>(row: Row, value: T) -> bool {
    call_ensures(T::from_row, (row,), Ok::<T, IntoTypedError>(value))
}

/// Whether `T` can read `row`.
pub open spec fn is_readable<T: FromRow>(row: Row) -> bool {
    exists|value: T| reads_as::<T>(row, value)
}

/// Whether the row at `at` is the first of `rows` that `T` cannot read, and
/// `error` is why.
pub open spec fn fails_first_at<T: FromRow>(
    rows: Seq<Row>,
    at: int,
    error: IntoTypedError,
) -> bool {
    &&& 0 <= at < rows.len()
    &&& call_ensures(T::from_row, (rows[at],), Err::<T, IntoTypedError>(error))
    &&& forall|before: int| 0 <= before < at ==> is_readable::<T>(#[trigger] rows[before])
}

/// Rows that can be read as typed values.
pub trait IntoTypedRows {
    /// Reads each row as a `T`, in order, and fails with the error of the
    /// first row that cannot be read.
    fn into_typed<T: FromRow>(self) -> Result<Vec<T>, IntoTypedError>;
}

impl IntoTypedRows for Vec<Row> {
    fn into_typed<T: FromRow>(self) -> (typed: Result<Vec<T>, IntoTypedError>)
        ensures
            match typed {
                Ok(values) => {
                    &&& values@.len() == self@.len()
                    &&& forall|i: int|
                        0 <= i < self@.len() ==> reads_as::<T>(#[trigger] self@[i], values@[i])
                },
                Err(error) => exists|at: int| fails_first_at::<T>(self@, at, error),
            },
    {
        let mut typed: Vec<T> = Vec::new();
        for row in iter: self
            invariant
                iter.seq() == self@,
                typed@.len() == iter.index(),
                forall|i: int|
                    0 <= i < typed@.len() ==> reads_as::<T>(#[trigger] self@[i], typed@[i]),
        {
            let ghost at = iter.index() as int;
            assert(row == self@[at]);
            match T::from_row(row) {
                Ok(value) => typed.push(value),
                Err(error) => {
                    proof {
                        assert forall|before: int| 0 <= before < at implies is_readable::<T>(
                            #[trigger] self@[before],
                        ) by {
                            assert(reads_as::<T>(self@[before], typed@[before]));
                        }
                        assert(fails_first_at::<T>(self@, at, error));
                    }
                    return Err(error);
                },
            }
        }
        Ok(typed)
    }
}

} // verus!
