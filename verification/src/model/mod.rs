//! The interfaces every stored record offers: the statements that create its
//! table and change its rows, the records built for a delete or an update, and
//! the queries that read records back.
pub mod data_context;
pub mod query_context;

pub use data_context::{CreateLiteExt, DataConext};
pub use query_context::{QueryContext, QueryFilterContext, QueryValidExtContext};
