//! Data values and columns, as far as the serializers read them.

use vstd::prelude::*;

verus! {

/// A single value of a table cell.
#[derive(Debug, PartialEq, Eq)]
pub enum DataValue {
    Null,
    Boolean(bool),
    Int64(i64),
    UInt64(u64),
    String(Vec<u8>),
    Array(Vec<DataValue>),
    Struct(Vec<DataValue>),
}

/// A column of booleans.
#[derive(Debug, Clone, PartialEq, Eq)]
pub struct BooleanColumn {
    pub values: Vec<bool>,
}

/// A column of a table, of one of the kinds of values.
#[derive(Debug, Clone, PartialEq, Eq)]
pub enum Column {
    Null(usize),
    Boolean(BooleanColumn),
    Int64(Vec<i64>),
    UInt64(Vec<u64>),
    String(Vec<Vec<u8>>),
}

} // verus!
