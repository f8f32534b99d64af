//! The domain records and the rows that the store keeps for them.

use crate::timestamp::Timestamp;
use vstd::prelude::*;

verus! {

/// A product. The store assigns `id`; it is 0 before insertion. The price
/// is kept in the `magnitude` column, in whatever unit the caller counts.
/// Both timestamps are the caller's: no operation touches them.
#[derive(Clone, Debug)]
pub struct Product {
    pub id: i32,
    pub name: String,
    pub base_price: i32,
    pub created_at: Timestamp,
    pub updated_at: Timestamp,
}

/// A category of a product. The schema declares its table; no operation
/// reads or writes it yet.
#[derive(Clone, Debug)]
pub struct ProductCategory {
    pub id: i32,
    pub name: String,
    pub product_id: i32,
    pub created_at: Timestamp,
    pub updated_at: Timestamp,
}

/// A row of the products table as the store hands it out, timestamps still
/// in text form.
#[derive(Clone, Debug)]
pub struct ProductRow {
    pub id: i32,
    pub name: String,
    pub base_price: i32,
    pub created_at: String,
    pub updated_at: String,
}

/// What a product holds.
pub struct ProductView {
    pub id: i32,
    pub name: Seq<char>,
    pub base_price: i32,
    pub created_at: Timestamp,
    pub updated_at: Timestamp,
}

/// What a category holds.
pub struct ProductCategoryView {
    pub id: i32,
    pub name: Seq<char>,
    pub product_id: i32,
    pub created_at: Timestamp,
    pub updated_at: Timestamp,
}

/// What a stored row holds.
pub struct ProductRowView {
    pub id: i32,
    pub name: Seq<char>,
    pub base_price: i32,
    pub created_at: Seq<char>,
    pub updated_at: Seq<char>,
}

impl View for Product {
    type V = ProductView;

    open spec fn view(&self) -> ProductView {
        ProductView {
            id: self.id,
            name: self.name@,
            base_price: self.base_price,
            created_at: self.created_at,
            updated_at: self.updated_at,
        }
    }
}

impl View for ProductCategory {
    type V = ProductCategoryView;

    open spec fn view(&self) -> ProductCategoryView {
        ProductCategoryView {
            id: self.id,
            name: self.name@,
            product_id: self.product_id,
            created_at: self.created_at,
            updated_at: self.updated_at,
        }
    }
}

impl View for ProductRow {
    type V = ProductRowView;

    open spec fn view(&self) -> ProductRowView {
        ProductRowView {
            id: self.id,
            name: self.name@,
            base_price: self.base_price,
            created_at: self.created_at@,
            updated_at: self.updated_at@,
        }
    }
}

/// The views of a run of products, in order.
pub open spec fn product_views(products: Seq<Product>) -> Seq<ProductView> {
    Seq::new(products.len(), |i: int| products[i]@)
}

/// The views of a run of rows, in order.
pub open spec fn row_views(rows: Seq<ProductRow>) -> Seq<ProductRowView> {
    Seq::new(rows.len(), |i: int| rows[i]@)
}

/// Whether two products agree in all but the identifier.
pub open spec fn same_content(a: ProductView, b: ProductView) -> bool {
    &&& a.name == b.name
    &&& a.base_price == b.base_price
    &&& a.created_at == b.created_at
    &&& a.updated_at == b.updated_at
}

} // verus!
