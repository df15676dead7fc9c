use vstd::prelude::*;
use crate::error::Error;

verus! {

/// A wall-clock timestamp without a time zone: whole seconds since
/// 1970-01-01 00:00:00 and the nanoseconds past that second.
#[derive(Copy, Clone, Debug, PartialEq, Eq, Structural)]
pub struct Timestamp {
    pub secs: i64,
    pub nanos: u32,
}

/// One value of a result row or of a statement parameter.
#[derive(Clone, Debug)]
pub enum Value {
    Null,
    Bool(bool),
    Int4(i32),
    Int8(i64),
    Text(String),
    Timestamp(Timestamp),
}

/// One result row, its values by column position.
#[derive(Clone, Debug)]
pub struct Row {
    pub values: Vec<Value>,
}

pub open spec fn int4_at(row: Seq<Value>, i: int) -> Option<i32> {
    if 0 <= i < row.len() {
        match row[i] {
            Value::Int4(v) => Some(v),
            _ => None,
        }
    } else {
        None
    }
}

pub open spec fn int8_at(row: Seq<Value>, i: int) -> Option<i64> {
    if 0 <= i < row.len() {
        match row[i] {
            Value::Int8(v) => Some(v),
            _ => None,
        }
    } else {
        None
    }
}

pub open spec fn bool_at(row: Seq<Value>, i: int) -> Option<bool> {
    if 0 <= i < row.len() {
        match row[i] {
            Value::Bool(v) => Some(v),
            _ => None,
        }
    } else {
        None
    }
}

pub open spec fn text_at(row: Seq<Value>, i: int) -> Option<Seq<char>> {
    if 0 <= i < row.len() {
        match row[i] {
            Value::Text(v) => Some(v@),
            _ => None,
        }
    } else {
        None
    }
}

/// A text column that may be NULL, NULL read as the empty text.
pub open spec fn text_or_empty_at(row: Seq<Value>, i: int) -> Option<Seq<char>> {
    if 0 <= i < row.len() && row[i] is Null {
        Some(Seq::empty())
    } else {
        text_at(row, i)
    }
}

pub open spec fn timestamp_at(row: Seq<Value>, i: int) -> Option<Timestamp> {
    if 0 <= i < row.len() {
        match row[i] {
            Value::Timestamp(v) => Some(v),
            _ => None,
        }
    } else {
        None
    }
}

/// The error for a row whose columns are not what the statement returns.
pub open spec fn is_column_error(e: Error) -> bool {
    e matches Error::Database(m) && m@ == "unexpected column value"@
}

fn column_error() -> (r: Error)
    ensures
        is_column_error(r),
{
    Error::Database(String::from_str("unexpected column value"))
}

pub fn get_int4(row: &Row, i: usize) -> (r: Result<i32, Error>)
    ensures
        match r {
            Ok(v) => int4_at(row.values@, i as int) == Some(v),
            Err(e) => int4_at(row.values@, i as int) is None && is_column_error(e),
        },
{
    if i < row.values.len() {
        match &row.values[i] {
            Value::Int4(v) => Ok(*v),
            _ => Err(column_error()),
        }
    } else {
        Err(column_error())
    }
}

pub fn get_int8(row: &Row, i: usize) -> (r: Result<i64, Error>)
    ensures
        match r {
            Ok(v) => int8_at(row.values@, i as int) == Some(v),
            Err(e) => int8_at(row.values@, i as int) is None && is_column_error(e),
        },
{
    if i < row.values.len() {
        match &row.values[i] {
            Value::Int8(v) => Ok(*v),
            _ => Err(column_error()),
        }
    } else {
        Err(column_error())
    }
}

pub fn get_bool(row: &Row, i: usize) -> (r: Result<bool, Error>)
    ensures
        match r {
            Ok(v) => bool_at(row.values@, i as int) == Some(v),
            Err(e) => bool_at(row.values@, i as int) is None && is_column_error(e),
        },
{
    if i < row.values.len() {
        match &row.values[i] {
            Value::Bool(v) => Ok(*v),
            _ => Err(column_error()),
        }
    } else {
        Err(column_error())
    }
}

pub fn get_text(row: &Row, i: usize) -> (r: Result<String, Error>)
    ensures
        match r {
            Ok(v) => text_at(row.values@, i as int) == Some(v@),
            Err(e) => text_at(row.values@, i as int) is None && is_column_error(e),
        },
{
    if i < row.values.len() {
        match &row.values[i] {
            Value::Text(v) => Ok(v.clone()),
            _ => Err(column_error()),
        }
    } else {
        Err(column_error())
    }
}

pub fn get_text_or_empty(row: &Row, i: usize) -> (r: Result<String, Error>)
    ensures
        match r {
            Ok(v) => text_or_empty_at(row.values@, i as int) == Some(v@),
            Err(e) => text_or_empty_at(row.values@, i as int) is None && is_column_error(e),
        },
{
    if i < row.values.len() {
        match &row.values[i] {
            Value::Null => Ok(String::new()),
            Value::Text(v) => Ok(v.clone()),
            _ => Err(column_error()),
        }
    } else {
        Err(column_error())
    }
}

pub fn get_timestamp(row: &Row, i: usize) -> (r: Result<Timestamp, Error>)
    ensures
        match r {
            Ok(v) => timestamp_at(row.values@, i as int) == Some(v),
            Err(e) => timestamp_at(row.values@, i as int) is None && is_column_error(e),
        },
{
    if i < row.values.len() {
        match &row.values[i] {
            Value::Timestamp(v) => Ok(*v),
            _ => Err(column_error()),
        }
    } else {
        Err(column_error())
    }
}

} // verus!
