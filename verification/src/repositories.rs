//! The product repository: create, read and delete over a store
//! connection.

use crate::codec::{decode_rows, encoded, insert_params, is_decoding_of, SqlParam, SqlParamView};
use crate::errors::StoreError;
use crate::models::{Product, ProductRow};
use crate::sqlite::{error_text, execute, query_rows};
use vstd::prelude::*;

verus! {

/// The statement that inserts a product. The identifier is left to the store.
pub open spec fn insert_statement_text() -> Seq<char> {
    "INSERT INTO records (name, magnitude, created_at, updated_at) VALUES (?1, ?2, ?3, ?4)"@
}

/// The statement that reads every product, in the store's own row order.
pub open spec fn select_statement_text() -> Seq<char> {
    "SELECT id, name, magnitude, created_at, updated_at FROM records"@
}

/// The statement that deletes the product with a given identifier.
pub open spec fn delete_statement_text() -> Seq<char> {
    "DELETE FROM records WHERE id = ?1"@
}

/// The statement that inserts a product.
pub fn insert_statement() -> (sql: &'static str)
    ensures
        sql@ == insert_statement_text(),
{
    "INSERT INTO records (name, magnitude, created_at, updated_at) VALUES (?1, ?2, ?3, ?4)"
}

/// The statement that reads every product.
pub fn select_statement() -> (sql: &'static str)
    ensures
        sql@ == select_statement_text(),
{
    "SELECT id, name, magnitude, created_at, updated_at FROM records"
}

/// The statement that deletes a product by its identifier.
pub fn delete_statement() -> (sql: &'static str)
    ensures
        sql@ == delete_statement_text(),
{
    "DELETE FROM records WHERE id = ?1"
}

/// The value bound by a delete: the identifier.
pub fn delete_params(id: i32) -> (params: Vec<SqlParam>)
    ensures
        params@.len() == 1,
        params@[0]@ == SqlParamView::Integer(id as i64),
{
    let mut params: Vec<SqlParam> = Vec::new();
    params.push(SqlParam::Integer(id as i64));
    params
}

/// What a write returns for what the store said: success for any number of
/// changed rows, zero included, and `WriteFailed` with the store's reason
/// otherwise.
pub fn write_outcome(result: Result<usize, String>) -> (outcome: Result<(), StoreError>)
    ensures
        match result {
            Ok(_) => outcome is Ok,
            Err(reason) => outcome matches Err(StoreError::WriteFailed(text)) && text@ == reason@,
        },
{
    match result {
        Ok(_) => Ok(()),
        Err(reason) => Err(StoreError::WriteFailed(reason)),
    }
}

/// What a read returns for what the store said: the all-or-nothing decoding
/// of the rows, and `ReadFailed` with the store's reason where it gave no
/// rows.
pub fn read_outcome(result: Result<Vec<ProductRow>, String>) -> (outcome: Result<
    Vec<Product>,
    StoreError,
>)
    ensures
        match result {
            Ok(rows) => is_decoding_of(rows@, outcome),
            Err(reason) => outcome matches Err(StoreError::ReadFailed(text)) && text@ == reason@,
        },
{
    match result {
        Ok(rows) => decode_rows(&rows),
        Err(reason) => Err(StoreError::ReadFailed(reason)),
    }
}

/// The operations on stored products.
pub trait ProductRepository {
    /// Reads every product. A store failure is `ReadFailed`; otherwise the
    /// outcome is the all-or-nothing decoding of the rows that the store
    /// gave, so a malformed timestamp fails the whole read with
    /// `DecodeFailed`.
    fn get_all(&self) -> (outcome: Result<Vec<Product>, StoreError>)
        ensures
            outcome matches Err(StoreError::ReadFailed(_)) || exists|rows: Seq<ProductRow>| #[trigger]
                is_decoding_of(rows, outcome),
    ;

    /// Inserts a product; the store assigns its identifier. Any failure is
    /// `WriteFailed`. Nothing is written that a later read could not
    /// decode: a timestamp whose canonical text is missing or does not read
    /// back as the timestamp fails the insert before the store is asked.
    fn insert(&self, product: Product) -> (outcome: Result<(), StoreError>)
        ensures
            encoded(product@) is None ==> outcome is Err,
            outcome is Ok ==> product@.created_at.round_trips() && product@.updated_at.round_trips(),
            outcome matches Err(error) ==> error is WriteFailed,
    ;

    /// Deletes the product with this identifier, if there is one. Any
    /// failure is `WriteFailed`.
    fn delete(&self, id: i32) -> (outcome: Result<(), StoreError>)
        ensures
            outcome matches Err(error) ==> error is WriteFailed,
    ;
}

/// A product repository over a borrowed store connection.
pub struct ProductRepo<'a> {
    conn: &'a rusqlite::Connection,
}

impl<'a> ProductRepo<'a> {
    /// The connection that the repository works on.
    pub closed spec fn connection(&self) -> &'a rusqlite::Connection {
        self.conn
    }

    /// A repository that works on `conn`.
    pub fn new(conn: &'a rusqlite::Connection) -> (repo: Self)
        ensures
            repo.connection() == conn,
    {
        ProductRepo { conn }
    }
}

impl<'a> ProductRepository for ProductRepo<'a> {
    fn get_all(&self) -> (outcome: Result<Vec<Product>, StoreError>) {
        let result = match query_rows(self.conn, select_statement()) {
            Ok(rows) => Ok(rows),
            Err(error) => Err(error_text(&error)),
        };
        let ghost given = if result is Ok {
            result.unwrap()@
        } else {
            Seq::<ProductRow>::empty()
        };
        let outcome = read_outcome(result);
        assert(result is Ok ==> is_decoding_of(given, outcome));
        outcome
    }

    fn insert(&self, product: Product) -> (outcome: Result<(), StoreError>) {
        match insert_params(&product) {
            None => Err(
                StoreError::WriteFailed("timestamp has no text that reads back".to_owned()),
            ),
            Some(params) => {
                let result = match execute(self.conn, insert_statement(), &params) {
                    Ok(changed) => Ok(changed),
                    Err(error) => Err(error_text(&error)),
                };
                write_outcome(result)
            },
        }
    }

    fn delete(&self, id: i32) -> (outcome: Result<(), StoreError>) {
        let params = delete_params(id);
        let result = match execute(self.conn, delete_statement(), &params) {
            Ok(changed) => Ok(changed),
            Err(error) => Err(error_text(&error)),
        };
        write_outcome(result)
    }
}

} // verus!
