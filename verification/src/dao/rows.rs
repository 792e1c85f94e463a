//! The shape of what a query hands back: an optional list of rows,
//! each an ordered list of nullable typed cells, or an opaque failure.

use vstd::prelude::*;

use crate::domain::date::Date;
use crate::domain::uid::Uuid;

verus! {

/// One typed value a cell can hold. Timestamps are seconds since the
/// Unix epoch.
#[derive(Debug, Clone, PartialEq)]
pub enum CqlValue {
    Text(String),
    Uuid(Uuid),
    Timestamp(i64),
    Int(i32),
    Date(Date),
}

impl CqlValue {
    /// The held text, where this cell holds text.
    pub fn as_text(&self) -> (r: Option<&String>)
        ensures
            r is Some <==> self is Text,
            self matches CqlValue::Text(t) ==> r matches Some(x) && *x == t,
    {
        match self {
            CqlValue::Text(t) => Some(t),
            _ => None,
        }
    }
}

/// One matched record: its cells in the query's column order, a `None`
/// cell being null.
#[derive(Debug, Clone, PartialEq)]
pub struct Row {
    pub columns: Vec<Option<CqlValue>>,
}

/// What a successful execution hands back: `rows` is absent for
/// statements that return no row set at all.
#[derive(Debug, Clone, PartialEq)]
pub struct QueryResult {
    pub rows: Option<Vec<Row>>,
}

impl Default for QueryResult {
    /// A result carrying no rows, as a statement without a row set
    /// produces.
    fn default() -> (r: QueryResult)
        ensures
            r.rows is None,
    {
        QueryResult { rows: None }
    }
}

/// The opaque failure signal of the backing store: network, protocol
/// or server-side.
#[derive(Debug, Clone, PartialEq)]
pub enum QueryError {
    InvalidMessage(String),
}

} // verus!
