//! The product service: a store connection together with the repository
//! that works on it.

use crate::repositories::ProductRepo;
use vstd::prelude::*;

verus! {

/// A store connection and the product repository over it.
pub struct ProductService<'a> {
    pub conn: &'a rusqlite::Connection,
    pub product_repository: ProductRepo<'a>,
}

impl<'a> ProductService<'a> {
    /// A service whose repository works on `conn`.
    pub fn new(conn: &'a rusqlite::Connection) -> (service: Self)
        ensures
            service.conn == conn,
            service.product_repository.connection() == conn,
    {
        let product_repository = ProductRepo::new(conn);
        ProductService { conn, product_repository }
    }
}

} // verus!
