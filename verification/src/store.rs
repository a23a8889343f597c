//! What the database answers, as far as the handlers decide by it.

use vstd::prelude::*;

verus! {

/// The answer to a query for one row.
#[derive(Clone, Copy, Debug, PartialEq, Eq, Structural)]
pub enum Lookup {
    /// The row is there.
    Found,
    /// No such row.
    Missing,
    /// The query failed.
    Failed,
}

/// The answer to a query for many rows.
#[derive(Clone, Copy, Debug, PartialEq, Eq, Structural)]
pub enum Fetched {
    /// The query returned this many rows.
    Rows(usize),
    /// The query failed.
    Failed,
}

/// The answer to an insert or an update.
#[derive(Clone, Copy, Debug, PartialEq, Eq, Structural)]
pub enum Written {
    /// The row was written.
    Done,
    /// The write failed.
    Failed,
}

/// The answer to a delete.
#[derive(Clone, Copy, Debug, PartialEq, Eq, Structural)]
pub enum Deleted {
    /// The delete ran and removed this many rows.
    Rows(u64),
    /// The delete failed.
    Failed,
}

} // verus!
