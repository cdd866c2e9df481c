//! Owned column values and their mathematical model.

use vstd::prelude::*;

verus! {

/// Declared type of a column, as reported by the statement's metadata.
#[derive(Clone, Copy, PartialEq, Eq, Structural, Debug)]
pub enum SqliteDataType {
    Null,
    Integer,
    Text,
    Blob,
}

/// An owned, self-contained representation of one column's data for one row.
/// Holds no reference into native cursor memory.
#[derive(Debug, PartialEq)]
pub enum SqliteValue {
    Null,
    Integer(i64),
    Text(String),
    Blob(Vec<u8>),
}

/// The mathematical model of a [`SqliteValue`]: the same shape, with the
/// heap-allocated payloads abstracted to sequences.
pub enum ValueModel {
    Null,
    Integer(i64),
    Text(Seq<char>),
    Blob(Seq<u8>),
}

impl View for SqliteValue {
    type V = ValueModel;

    open spec fn view(&self) -> ValueModel {
        match self {
            SqliteValue::Null => ValueModel::Null,
            SqliteValue::Integer(i) => ValueModel::Integer(*i),
            SqliteValue::Text(s) => ValueModel::Text(s@),
            SqliteValue::Blob(b) => ValueModel::Blob(b@),
        }
    }
}

impl Clone for SqliteValue {
    fn clone(&self) -> (res: Self)
        ensures
            res@ == self@,
    {
        match self {
            SqliteValue::Null => SqliteValue::Null,
            SqliteValue::Integer(i) => SqliteValue::Integer(*i),
            SqliteValue::Text(s) => SqliteValue::Text(s.clone()),
            SqliteValue::Blob(b) => {
                let copy = b.clone();
                proof {
                    assert(copy@ =~= b@);
                }
                SqliteValue::Blob(copy)
            },
        }
    }
}

/// The model of a sequence of owned values: each value abstracted to its model.
pub open spec fn seq_model(s: Seq<SqliteValue>) -> Seq<ValueModel> {
    s.map_values(|v: SqliteValue| v@)
}

} // verus!
