//! The connection to the embedded store: opening it, running statements on
//! it, and the schema migration over a single connection.

use crate::codec::SqlParam;
use crate::errors::StoreError;
use crate::migrations::{
    error_view, is_outcome_of, reported, schema, schema_definitions, MigrationReport,
};
use crate::models::ProductRow;
use vstd::prelude::*;

verus! {

/// `rusqlite::Connection`, a handle to an open store. Nothing is known of
/// what it holds.
#[verifier::external_type_specification]
#[verifier::external_body]
pub struct ExConnection(rusqlite::Connection);

/// `rusqlite::Error`, the failure of a call on the store.
#[verifier::external_type_specification]
#[verifier::external_body]
pub struct ExError(rusqlite::Error);

/// Calls `rusqlite::Connection::open`, which opens the store file at `path`
/// and creates it where it is missing. Nothing is claimed of the outcome.
#[verifier::external_body]
fn open_or_create(path: &str) -> Result<rusqlite::Connection, rusqlite::Error> {
    rusqlite::Connection::open(path)
}

/// Calls `rusqlite::Connection::open_with_flags` with the default flags but
/// the one that creates a missing file. Nothing is claimed of the outcome.
#[verifier::external_body]
fn open_existing(path: &str) -> Result<rusqlite::Connection, rusqlite::Error> {
    let flags = rusqlite::OpenFlags::default().difference(rusqlite::OpenFlags::SQLITE_OPEN_CREATE);
    rusqlite::Connection::open_with_flags(path, flags)
}

/// Calls `rusqlite::Connection::execute` with `sql` and the given values
/// bound in order, and hands back the number of rows changed. Nothing is
/// claimed of the outcome.
#[verifier::external_body]
pub(crate) fn execute(conn: &rusqlite::Connection, sql: &str, params: &Vec<SqlParam>) -> Result<
    usize,
    rusqlite::Error,
> {
    let values = params.iter().map(
        |param| match param {
            SqlParam::Integer(number) => rusqlite::types::Value::Integer(*number),
            SqlParam::Text(text) => rusqlite::types::Value::Text(text.clone()),
        },
    );
    conn.execute(sql, rusqlite::params_from_iter(values))
}

/// Calls `rusqlite::Connection::prepare` and `rusqlite::Statement::query_map`
/// with no bound value, and reads the five columns of each row with
/// `rusqlite::Row::get`. Nothing is claimed of the outcome.
#[verifier::external_body]
pub(crate) fn query_rows(conn: &rusqlite::Connection, sql: &str) -> Result<
    Vec<ProductRow>,
    rusqlite::Error,
> {
    let mut statement = conn.prepare(sql)?;
    let rows = statement.query_map(
        [],
        |row| Ok(
            ProductRow {
                id: row.get(0)?,
                name: row.get(1)?,
                base_price: row.get(2)?,
                created_at: row.get(3)?,
                updated_at: row.get(4)?,
            },
        ),
    )?;
    rows.collect()
}

/// Formats a `rusqlite::Error` through its `Display` impl.
#[verifier::external_body]
pub(crate) fn error_text(error: &rusqlite::Error) -> String {
    format!("{}", error)
}

/// The path of the application's store file, relative to the working
/// directory.
pub open spec fn store_path_text() -> Seq<char> {
    "./db.db3"@
}

/// The path of the application's store file. Every way of opening the store
/// takes it from here, so all of them work on one file.
pub fn store_path() -> (path: &'static str)
    ensures
        path@ == store_path_text(),
{
    "./db.db3"
}

/// What opening returns for what the store said: the handle itself, be it a
/// single connection or a pool, or `ConnectionFailed` with the store's
/// reason.
pub fn open_outcome<C>(opened: Result<C, String>) -> (outcome: Result<C, StoreError>)
    ensures
        match opened {
            Ok(conn) => outcome == Ok::<C, StoreError>(conn),
            Err(reason) => outcome matches Err(StoreError::ConnectionFailed(text)) && text@
                == reason@,
        },
{
    match opened {
        Ok(conn) => Ok(conn),
        Err(reason) => Err(StoreError::ConnectionFailed(reason)),
    }
}

/// Opens the store at `path`. With `create_if_missing` a missing file is
/// created; without it a missing file is a failure. Any failure to open is
/// `ConnectionFailed` with the cause.
pub fn open(path: &str, create_if_missing: bool) -> (outcome: Result<
    rusqlite::Connection,
    StoreError,
>)
    ensures
        outcome matches Err(error) ==> error is ConnectionFailed,
{
    let opened = if create_if_missing {
        open_or_create(path)
    } else {
        open_existing(path)
    };
    let said = match opened {
        Ok(conn) => Ok(conn),
        Err(error) => Err(error_text(&error)),
    };
    open_outcome(said)
}

/// Opens the store file of the application, the one at `store_path`, and
/// creates it where it is missing.
pub fn new_db() -> (outcome: Result<rusqlite::Connection, StoreError>)
    ensures
        outcome matches Err(error) ==> error is ConnectionFailed,
{
    open(store_path(), true)
}

/// Runs the definition statement of every table of the schema on `conn`,
/// each whatever became of the one before. Every statement ends in some
/// way; the run succeeds when none failed, and otherwise it is
/// `SchemaFailed` with one entry for each failed table, in the order of the
/// schema.
pub fn table_migrations(conn: &rusqlite::Connection) -> (outcome: Result<(), StoreError>)
    ensures
        exists|errors: Seq<Option<Seq<char>>>|
            errors.len() == schema().len() && #[trigger] is_outcome_of(errors, outcome),
{
    let definitions = schema_definitions();
    let params: Vec<SqlParam> = Vec::new();
    let mut report = MigrationReport::new();
    let ghost mut errors: Seq<Option<Seq<char>>> = Seq::empty();
    let mut i: usize = 0;
    while i < definitions.len()
        invariant
            i <= definitions.len(),
            definitions@.len() == schema().len(),
            forall|k: int| 0 <= k < definitions@.len() ==> (#[trigger] definitions@[k])@ == schema()[k],
            errors.len() == i,
            report@ == reported(schema().take(i as int), errors),
        decreases definitions.len() - i,
    {
        let definition = &definitions[i];
        let error = match execute(conn, definition.statement.as_str(), &params) {
            Ok(_) => None,
            Err(error) => Some(error_text(&error)),
        };
        proof {
            let next = errors.push(error_view(error));
            assert(next.drop_last() =~= errors);
            assert(schema().take(i + 1).drop_last() =~= schema().take(i as int));
            assert(schema().take(i + 1).last() == definition@);
            errors = next;
        }
        report.record(definition.table.as_str(), error);
        i = i + 1;
    }
    proof {
        assert(schema().take(i as int) =~= schema());
    }
    let outcome = report.finish();
    assert(is_outcome_of(errors, outcome));
    outcome
}

} // verus!
