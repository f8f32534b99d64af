//! The schema of the store and the report of a migration run.
//!
//! Every table definition is conditional on the table's absence, so a run
//! can be repeated. Each statement is attempted whatever became of the
//! others; the failures are collected per table.

use crate::errors::{StoreError, TableFailure};
use vstd::prelude::*;

verus! {

/// A managed table and the statement that defines it.
#[derive(Clone, Debug)]
pub struct TableDefinition {
    pub table: String,
    pub statement: String,
}

/// What a table definition holds.
pub struct TableDefinitionView {
    pub table: Seq<char>,
    pub statement: Seq<char>,
}

/// What a table failure holds.
pub struct TableFailureView {
    pub table: Seq<char>,
    pub reason: Seq<char>,
}

impl View for TableDefinition {
    type V = TableDefinitionView;

    open spec fn view(&self) -> TableDefinitionView {
        TableDefinitionView { table: self.table@, statement: self.statement@ }
    }
}

impl View for TableFailure {
    type V = TableFailureView;

    open spec fn view(&self) -> TableFailureView {
        TableFailureView { table: self.table@, reason: self.reason@ }
    }
}

/// The views of a run of failures, in order.
pub open spec fn failure_views(failures: Seq<TableFailure>) -> Seq<TableFailureView> {
    Seq::new(failures.len(), |i: int| failures[i]@)
}

/// The managed tables, in the order in which they are defined.
pub open spec fn schema() -> Seq<TableDefinitionView> {
    seq![
        TableDefinitionView {
            table: "records"@,
            statement: "CREATE TABLE IF NOT EXISTS records (id INTEGER PRIMARY KEY, name TEXT NOT NULL, magnitude INTEGER NOT NULL, created_at TEXT NOT NULL, updated_at TEXT NOT NULL)"@,
        },
        TableDefinitionView {
            table: "categories"@,
            statement: "CREATE TABLE IF NOT EXISTS categories (id INTEGER PRIMARY KEY, name TEXT NOT NULL, created_at TEXT NOT NULL, updated_at TEXT NOT NULL)"@,
        },
    ]
}

/// The words that make a table definition conditional on the table's
/// absence.
pub open spec fn conditional_head() -> Seq<char> {
    "CREATE TABLE IF NOT EXISTS "@
}

/// Whether a statement defines its table only where the table is absent.
pub open spec fn is_conditional(statement: Seq<char>) -> bool {
    &&& conditional_head().len() <= statement.len()
    &&& statement.subrange(0, conditional_head().len() as int) == conditional_head()
}

/// The text of a possible error.
pub open spec fn error_view(error: Option<String>) -> Option<Seq<char>> {
    match error {
        Some(reason) => Some(reason@),
        None => None,
    }
}

/// The failures to report when the statements of `tables` ended as `errors`
/// say, one outcome per table: one entry for each table whose statement
/// failed, in the order of the tables.
pub open spec fn reported(tables: Seq<TableDefinitionView>, errors: Seq<Option<Seq<char>>>) -> Seq<
    TableFailureView,
>
    decreases errors.len(),
{
    if errors.len() == 0 || tables.len() == 0 {
        Seq::empty()
    } else {
        let earlier = reported(tables.drop_last(), errors.drop_last());
        match errors.last() {
            Some(reason) => earlier.push(TableFailureView { table: tables.last().table, reason }),
            None => earlier,
        }
    }
}

/// The outcome of a run with these failures: success exactly when there is
/// none.
pub open spec fn run_succeeds(failures: Seq<TableFailureView>) -> bool {
    failures.len() == 0
}

/// Whether `outcome` closes a run of the schema whose statements ended as
/// `errors` say: success when none failed, else `SchemaFailed` with the
/// failures to report.
pub open spec fn is_outcome_of(errors: Seq<Option<Seq<char>>>, outcome: Result<(), StoreError>) -> bool {
    match outcome {
        Ok(_) => run_succeeds(reported(schema(), errors)),
        Err(StoreError::SchemaFailed(failures)) => !run_succeeds(reported(schema(), errors))
            && failure_views(failures@) == reported(schema(), errors),
        Err(_) => false,
    }
}

/// The table definitions of the schema, in order.
pub fn schema_definitions() -> (definitions: Vec<TableDefinition>)
    ensures
        definitions@.len() == schema().len(),
        forall|i: int| 0 <= i < definitions@.len() ==> (#[trigger] definitions@[i])@ == schema()[i],
{
    let mut definitions: Vec<TableDefinition> = Vec::new();
    definitions.push(
        TableDefinition {
            table: "records".to_owned(),
            statement: "CREATE TABLE IF NOT EXISTS records (id INTEGER PRIMARY KEY, name TEXT NOT NULL, magnitude INTEGER NOT NULL, created_at TEXT NOT NULL, updated_at TEXT NOT NULL)".to_owned(),
        },
    );
    definitions.push(
        TableDefinition {
            table: "categories".to_owned(),
            statement: "CREATE TABLE IF NOT EXISTS categories (id INTEGER PRIMARY KEY, name TEXT NOT NULL, created_at TEXT NOT NULL, updated_at TEXT NOT NULL)".to_owned(),
        },
    );
    definitions
}

/// The failures of a migration run, collected table by table.
#[derive(Clone, Debug)]
pub struct MigrationReport {
    pub failures: Vec<TableFailure>,
}

impl View for MigrationReport {
    type V = Seq<TableFailureView>;

    open spec fn view(&self) -> Seq<TableFailureView> {
        failure_views(self.failures@)
    }
}

impl MigrationReport {
    /// A report with no failure yet.
    pub fn new() -> (report: MigrationReport)
        ensures
            report@ == Seq::<TableFailureView>::empty(),
    {
        let report = MigrationReport { failures: Vec::new() };
        assert(report@ =~= Seq::<TableFailureView>::empty());
        report
    }

    /// Takes note of how the statement of `table` ended: a failure is kept
    /// with its reason, a success leaves the report as it is.
    pub fn record(&mut self, table: &str, error: Option<String>)
        ensures
            final(self)@ == (match error_view(error) {
                Some(reason) => old(self)@.push(TableFailureView { table: table@, reason }),
                None => old(self)@,
            }),
    {
        match error {
            Some(reason) => {
                let ghost before = self@;
                let ghost entry = TableFailureView { table: table@, reason: reason@ };
                self.failures.push(TableFailure { table: table.to_owned(), reason });
                assert(self@ =~= before.push(entry));
            },
            None => {},
        }
    }

    /// Closes the run: success when no statement failed, else `SchemaFailed`
    /// with every failure, in order.
    pub fn finish(self) -> (outcome: Result<(), StoreError>)
        ensures
            outcome is Ok == run_succeeds(self@),
            outcome matches Err(error) ==> (error matches StoreError::SchemaFailed(failures)
                && failure_views(failures@) == self@),
    {
        if self.failures.len() == 0 {
            Ok(())
        } else {
            Err(StoreError::SchemaFailed(self.failures))
        }
    }
}

/// Every statement of the schema is conditional on its table's absence, so
/// a repeated run defines nothing twice.
pub proof fn lemma_schema_is_conditional()
    ensures
        forall|i: int| 0 <= i < schema().len() ==> is_conditional((#[trigger] schema()[i]).statement),
{
    reveal_strlit("CREATE TABLE IF NOT EXISTS ");
    reveal_strlit(
        "CREATE TABLE IF NOT EXISTS records (id INTEGER PRIMARY KEY, name TEXT NOT NULL, magnitude INTEGER NOT NULL, created_at TEXT NOT NULL, updated_at TEXT NOT NULL)",
    );
    reveal_strlit(
        "CREATE TABLE IF NOT EXISTS categories (id INTEGER PRIMARY KEY, name TEXT NOT NULL, created_at TEXT NOT NULL, updated_at TEXT NOT NULL)",
    );
    let head = conditional_head();
    assert(schema()[0].statement.subrange(0, head.len() as int) =~= head);
    assert(schema()[1].statement.subrange(0, head.len() as int) =~= head);
}

/// A run reports no failure exactly when no statement failed.
pub proof fn lemma_reported_empty(tables: Seq<TableDefinitionView>, errors: Seq<Option<Seq<char>>>)
    requires
        tables.len() == errors.len(),
    ensures
        run_succeeds(reported(tables, errors)) == (forall|i: int|
            0 <= i < errors.len() ==> (#[trigger] errors[i]) is None),
        reported(tables, errors).len() <= errors.len(),
    decreases errors.len(),
{
    if errors.len() > 0 {
        let shorter = errors.drop_last();
        lemma_reported_empty(tables.drop_last(), shorter);
        assert(forall|i: int| 0 <= i < shorter.len() ==> shorter[i] == errors[i]);
        if forall|i: int| 0 <= i < errors.len() ==> (#[trigger] errors[i]) is None {
            assert(errors[errors.len() - 1] is None);
        }
    }
}

/// Every table whose statement failed is reported under its own name,
/// whatever became of the tables before it.
pub proof fn lemma_failure_is_reported(
    tables: Seq<TableDefinitionView>,
    errors: Seq<Option<Seq<char>>>,
    i: int,
)
    requires
        tables.len() == errors.len(),
        0 <= i < errors.len(),
        errors[i] is Some,
    ensures
        reported(tables, errors).contains(
            TableFailureView { table: tables[i].table, reason: errors[i].unwrap() },
        ),
    decreases errors.len(),
{
    let entry = TableFailureView { table: tables[i].table, reason: errors[i].unwrap() };
    let earlier = reported(tables.drop_last(), errors.drop_last());
    if i == errors.len() - 1 {
        let all = earlier.push(entry);
        assert(all[all.len() - 1] == entry);
    } else {
        lemma_failure_is_reported(tables.drop_last(), errors.drop_last(), i);
        let k = choose|k: int| 0 <= k < earlier.len() && earlier[k] == entry;
        match errors.last() {
            Some(reason) => {
                let all = earlier.push(
                    TableFailureView { table: tables.last().table, reason },
                );
                assert(all[k] == entry);
            },
            None => {},
        }
    }
}

} // verus!
