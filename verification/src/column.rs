//! A column of a result.

use vstd::prelude::*;
use vstd::string::*;

verus! {

/// A column: its name, its place among the columns, and the name of its type.
#[derive(Debug)]
pub struct Column {
    name: String,
    ordinal: usize,
    type_data: String,
}

/// A [`Column`] as the contracts see it.
pub struct ColumnView {
    pub name: Seq<char>,
    pub ordinal: nat,
    pub type_data: Seq<char>,
}

impl View for Column {
    type V = ColumnView;

    closed spec fn view(&self) -> ColumnView {
        ColumnView {
            name: self.name@,
            ordinal: self.ordinal as nat,
            type_data: self.type_data@,
        }
    }
}

impl Column {
    #[must_use]
    pub fn new(name: String, ordinal: usize, type_data: String) -> (column: Column)
        ensures
            column@ == (ColumnView { name: name@, ordinal: ordinal as nat, type_data: type_data@ }),
    {
        Column { name, ordinal, type_data }
    }

    #[must_use]
    pub fn name(&self) -> (name: &str)
        ensures
            name@ == self@.name,
    {
        self.name.as_str()
    }

    #[must_use]
    pub fn ordinal(&self) -> (ordinal: usize)
        ensures
            ordinal == self@.ordinal,
    {
        self.ordinal
    }

    #[must_use]
    pub fn type_data(&self) -> (type_data: &str)
        ensures
            type_data@ == self@.type_data,
    {
        self.type_data.as_str()
    }
}

} // verus!
