use crate::sql::SqlCommand;
use vstd::prelude::*;

verus! {

/// The statements of a stored record. Each statement carries the texts that
/// `sql::report` turns the database's answer into.
pub trait DataConext {
    /// Creates the record's table when it does not exist.
    fn create(&self) -> SqlCommand;

    /// Adds this record as a new row.
    fn insert(&self) -> SqlCommand;

    /// Removes the row that this record's key names.
    fn delete(&self) -> SqlCommand;

    /// Writes this record over the row that its key names.
    fn update(&self) -> SqlCommand;
}

/// Records built from a key alone, and the empty record.
pub trait CreateLiteExt: Sized {
    type Output;
    type Key;

    /// The record that deletes the row of `key`.
    fn del(key: Self::Key) -> Self::Output;

    /// The record that updates the row of `key`, carrying only the key.
    fn upd(key: Self::Key) -> Self::Output;

    /// The record with every field empty.
    fn empty() -> Self;
}

} // verus!
