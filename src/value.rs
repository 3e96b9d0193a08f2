//! The values that providers produce, and their mathematical model.
use vstd::prelude::*;

verus! {

/// One generated value of one row of one column.
#[derive(Clone, Debug, PartialEq)]
pub enum Value {
    Null,
    Bool(bool),
    Int32(i32),
    Int64(i64),
    String(String),
    /// Days since 1970-01-01.
    Date(i32),
    /// Seconds since 1970-01-01 00:00:00.
    Datetime(i64),
}

/// The type of the non-null values of a column.
#[derive(Clone, Copy, Debug, PartialEq, Eq, Structural)]
pub enum ValueKind {
    Bool,
    Int32,
    Int64,
    String,
    Date,
    Datetime,
}

/// The type of a non-null value; `None` for null.
pub open spec fn kind_of(c: Cell) -> Option<ValueKind> {
    match c {
        Cell::Null => None,
        Cell::Bool(_) => Some(ValueKind::Bool),
        Cell::Int32(_) => Some(ValueKind::Int32),
        Cell::Int64(_) => Some(ValueKind::Int64),
        Cell::Text(_) => Some(ValueKind::String),
        Cell::Date(_) => Some(ValueKind::Date),
        Cell::Datetime(_) => Some(ValueKind::Datetime),
    }
}

/// What a `Value` stands for: integers as mathematical integers, text as characters.
pub enum Cell {
    Null,
    Bool(bool),
    Int32(int),
    Int64(int),
    Text(Seq<char>),
    Date(int),
    Datetime(int),
}

impl View for Value {
    type V = Cell;

    open spec fn view(&self) -> Cell {
        match self {
            Value::Null => Cell::Null,
            Value::Bool(b) => Cell::Bool(*b),
            Value::Int32(v) => Cell::Int32(*v as int),
            Value::Int64(v) => Cell::Int64(*v as int),
            Value::String(s) => Cell::Text(s@),
            Value::Date(d) => Cell::Date(*d as int),
            Value::Datetime(t) => Cell::Datetime(*t as int),
        }
    }
}

impl Value {
    /// A copy that stands for the same value.
    pub fn copy(&self) -> (r: Value)
        ensures
            r@ == self@,
    {
        match self {
            Value::Null => Value::Null,
            Value::Bool(b) => Value::Bool(*b),
            Value::Int32(v) => Value::Int32(*v),
            Value::Int64(v) => Value::Int64(*v),
            Value::String(s) => Value::String(s.clone()),
            Value::Date(d) => Value::Date(*d),
            Value::Datetime(t) => Value::Datetime(*t),
        }
    }

    /// Whether this is the null value.
    pub fn is_null(&self) -> (r: bool)
        ensures
            r == (self@ == Cell::Null),
    {
        match self {
            Value::Null => true,
            _ => false,
        }
    }
}

/// The models of a sequence of values.
pub open spec fn cells_of(vs: Seq<Value>) -> Seq<Cell> {
    vs.map_values(|v: Value| v@)
}

} // verus!
