//! The failures of the store facade.

use vstd::prelude::*;

verus! {

/// The timestamp columns of the products table.
#[derive(Clone, Copy, Debug, PartialEq, Eq, Structural)]
pub enum TimestampColumn {
    CreatedAt,
    UpdatedAt,
}

/// The failure of one table's definition statement.
#[derive(Clone, Debug)]
pub struct TableFailure {
    pub table: String,
    pub reason: String,
}

/// Why an operation on the store failed.
#[derive(Clone, Debug)]
pub enum StoreError {
    /// The store file could not be opened or created.
    ConnectionFailed(String),
    /// At least one table definition failed; one entry per failed table, in
    /// the order of the schema.
    SchemaFailed(Vec<TableFailure>),
    /// A row could not be written.
    WriteFailed(String),
    /// The rows could not be read.
    ReadFailed(String),
    /// The row at index `row` holds a malformed timestamp in `column`.
    DecodeFailed { row: usize, column: TimestampColumn },
}

/// Whether a failure ends the backend setup: a store that cannot be opened
/// or whose schema cannot be applied. A failed read or write is reported and
/// the setup goes on.
pub fn is_fatal(error: &StoreError) -> (fatal: bool)
    ensures
        fatal == (error is ConnectionFailed || error is SchemaFailed),
{
    match error {
        StoreError::ConnectionFailed(_) => true,
        StoreError::SchemaFailed(_) => true,
        _ => false,
    }
}

/// The name of a timestamp column in the store.
pub open spec fn column_name(column: TimestampColumn) -> Seq<char> {
    match column {
        TimestampColumn::CreatedAt => "created_at"@,
        TimestampColumn::UpdatedAt => "updated_at"@,
    }
}

impl TimestampColumn {
    /// The name of the column in the store.
    pub fn name(&self) -> (name: &'static str)
        ensures
            name@ == column_name(*self),
    {
        match self {
            TimestampColumn::CreatedAt => "created_at",
            TimestampColumn::UpdatedAt => "updated_at",
        }
    }
}

} // verus!
