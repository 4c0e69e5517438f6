use crate::sql::SqlQuery;
use vstd::prelude::*;

verus! {

/// Reading every row of a record's table: the query, then the records made
/// from the rows the query returned.
pub trait QueryContext {
    type Row;
    type Output;

    fn get_all_query(&self) -> SqlQuery;

    fn get_all(&self, rows: &Vec<Self::Row>) -> Self::Output;
}

/// Reading the rows of a record's table that a filter selects.
pub trait QueryFilterContext {
    type Row;
    type Output;

    fn get_filter_query(&self) -> SqlQuery;

    fn get_filter(&self, rows: &Vec<Self::Row>) -> Self::Output;
}

/// Asking whether a row that meets a condition exists.
pub trait QueryValidExtContext {
    type Row;
    type Output;

    fn get_filter_query(&self) -> SqlQuery;

    fn get_filter(&self, rows: &Vec<Self::Row>) -> Self::Output;
}

} // verus!
