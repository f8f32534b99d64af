//! Encoding of a product into statement parameters, and the all-or-nothing
//! decoding of stored rows.

use crate::errors::{StoreError, TimestampColumn};
use crate::models::{product_views, row_views, same_content, Product, ProductRow, ProductRowView, ProductView};
use crate::timestamp::Timestamp;
use vstd::prelude::*;

verus! {

/// A value bound to a placeholder of a statement.
#[derive(Clone, Debug)]
pub enum SqlParam {
    Integer(i64),
    Text(String),
}

/// What a bound value holds.
pub enum SqlParamView {
    Integer(i64),
    Text(Seq<char>),
}

impl View for SqlParam {
    type V = SqlParamView;

    open spec fn view(&self) -> SqlParamView {
        match self {
            SqlParam::Integer(i) => SqlParamView::Integer(*i),
            SqlParam::Text(s) => SqlParamView::Text(s@),
        }
    }
}

/// The views of a run of bound values, in order.
pub open spec fn param_views(params: Seq<SqlParam>) -> Seq<SqlParamView> {
    Seq::new(params.len(), |i: int| params[i]@)
}

/// The values bound by an insert: name, price, and the two timestamp texts.
/// The identifier is not among them: the store assigns it.
pub open spec fn insert_values(
    product: ProductView,
    created_at: Seq<char>,
    updated_at: Seq<char>,
) -> Seq<SqlParamView> {
    seq![
        SqlParamView::Text(product.name),
        SqlParamView::Integer(product.base_price as i64),
        SqlParamView::Text(created_at),
        SqlParamView::Text(updated_at),
    ]
}

/// The values bound by the insert of `product`, or `None` where one of its
/// timestamps has no canonical text that reads back as the timestamp.
pub open spec fn encoded(product: ProductView) -> Option<Seq<SqlParamView>> {
    match product.created_at.spec_canonical() {
        None => None,
        Some(created_at) => match product.updated_at.spec_canonical() {
            None => None,
            Some(updated_at) => Some(insert_values(product, created_at, updated_at)),
        },
    }
}

/// The row that the store keeps after an insert of `product` with the given
/// timestamp texts, once it has assigned `id`.
pub open spec fn stored_row(
    id: i32,
    product: ProductView,
    created_at: Seq<char>,
    updated_at: Seq<char>,
) -> ProductRowView {
    ProductRowView {
        id,
        name: product.name,
        base_price: product.base_price,
        created_at,
        updated_at,
    }
}

/// The product that a row stands for, given what its two timestamp texts
/// read as; the first unreadable column otherwise.
pub open spec fn assembled(
    row: ProductRowView,
    created_at: Option<Timestamp>,
    updated_at: Option<Timestamp>,
) -> Result<ProductView, TimestampColumn> {
    match created_at {
        None => Err(TimestampColumn::CreatedAt),
        Some(created_at) => match updated_at {
            None => Err(TimestampColumn::UpdatedAt),
            Some(updated_at) => Ok(
                ProductView {
                    id: row.id,
                    name: row.name,
                    base_price: row.base_price,
                    created_at,
                    updated_at,
                },
            ),
        },
    }
}

/// The product that a row stands for, or the first column whose text is
/// malformed.
pub open spec fn decoded_row(row: ProductRowView) -> Result<ProductView, TimestampColumn> {
    assembled(
        row,
        Timestamp::spec_parse(row.created_at),
        Timestamp::spec_parse(row.updated_at),
    )
}

/// A malformed timestamp: the index of its row and its column.
pub struct DecodeFailure {
    pub row: int,
    pub column: TimestampColumn,
}

/// The products that the rows stand for, in order, or the first malformed
/// timestamp among them.
pub open spec fn decoded_rows(rows: Seq<ProductRowView>) -> Result<Seq<ProductView>, DecodeFailure>
    decreases rows.len(),
{
    if rows.len() == 0 {
        Ok(Seq::empty())
    } else {
        match decoded_rows(rows.drop_last()) {
            Err(failure) => Err(failure),
            Ok(products) => match decoded_row(rows.last()) {
                Ok(product) => Ok(products.push(product)),
                Err(column) => Err(DecodeFailure { row: rows.len() - 1, column }),
            },
        }
    }
}

/// What a decoded product holds, or the column that failed.
pub open spec fn outcome_view(outcome: Result<Product, TimestampColumn>) -> Result<
    ProductView,
    TimestampColumn,
> {
    match outcome {
        Ok(product) => Ok(product@),
        Err(column) => Err(column),
    }
}

/// The values to bind for the insert of `product`, given the canonical texts
/// of its two timestamps.
pub fn insert_params_with(product: &Product, created_at: String, updated_at: String) -> (params:
    Vec<SqlParam>)
    ensures
        param_views(params@) == insert_values(product@, created_at@, updated_at@),
{
    let mut params: Vec<SqlParam> = Vec::new();
    params.push(SqlParam::Text(product.name.clone()));
    params.push(SqlParam::Integer(product.base_price as i64));
    params.push(SqlParam::Text(created_at));
    params.push(SqlParam::Text(updated_at));
    assert(param_views(params@) =~= insert_values(product@, created_at@, updated_at@));
    params
}

/// The values to bind for the insert of `product`: its name, its price and
/// the canonical texts of its timestamps. `None` where a timestamp has no
/// canonical text or its text would not read back as the timestamp, so
/// that nothing is written that a later read could not decode.
pub fn insert_params(product: &Product) -> (params: Option<Vec<SqlParam>>)
    ensures
        params is Some == encoded(product@) is Some,
        params matches Some(values) ==> encoded(product@) == Some(param_views(values@)),
{
    match product.created_at.canonical_text() {
        None => None,
        Some(created_at) => match product.updated_at.canonical_text() {
            None => None,
            Some(updated_at) => Some(insert_params_with(product, created_at, updated_at)),
        },
    }
}

/// Builds the product of a row from what its two timestamp texts read as.
/// A missing reading names its column, `created_at` before `updated_at`.
pub fn assemble_product(
    row: &ProductRow,
    created_at: Option<Timestamp>,
    updated_at: Option<Timestamp>,
) -> (outcome: Result<Product, TimestampColumn>)
    ensures
        outcome_view(outcome) == assembled(row@, created_at, updated_at),
{
    match created_at {
        None => Err(TimestampColumn::CreatedAt),
        Some(created_at) => match updated_at {
            None => Err(TimestampColumn::UpdatedAt),
            Some(updated_at) => Ok(
                Product {
                    id: row.id,
                    name: row.name.clone(),
                    base_price: row.base_price,
                    created_at,
                    updated_at,
                },
            ),
        },
    }
}

/// Decodes one stored row: reads both timestamp texts and keeps the other
/// columns as they are.
pub fn decode_row(row: &ProductRow) -> (outcome: Result<Product, TimestampColumn>)
    ensures
        outcome_view(outcome) == decoded_row(row@),
{
    let created_at = Timestamp::parse(row.created_at.as_str());
    let updated_at = Timestamp::parse(row.updated_at.as_str());
    assemble_product(row, created_at, updated_at)
}

/// Whether `outcome` is the all-or-nothing decoding of `rows`: the products
/// in the order of the rows, or `DecodeFailed` with the index and column of
/// the first malformed timestamp.
pub open spec fn is_decoding_of(rows: Seq<ProductRow>, outcome: Result<Vec<Product>, StoreError>) -> bool {
    match outcome {
        Ok(products) => decoded_rows(row_views(rows)) == Ok::<Seq<ProductView>, DecodeFailure>(
            product_views(products@),
        ),
        Err(StoreError::DecodeFailed { row, column }) => decoded_rows(row_views(rows)) == Err::<
            Seq<ProductView>,
            DecodeFailure,
        >(DecodeFailure { row: row as int, column }),
        Err(_) => false,
    }
}

/// Decodes all rows or none: the products in the order of the rows, or
/// `DecodeFailed` with the index and column of the first malformed
/// timestamp.
pub fn decode_rows(rows: &Vec<ProductRow>) -> (outcome: Result<Vec<Product>, StoreError>)
    ensures
        is_decoding_of(rows@, outcome),
{
    let mut products: Vec<Product> = Vec::new();
    let mut i: usize = 0;
    proof {
        assert(product_views(products@) =~= Seq::<ProductView>::empty());
        assert(row_views(rows@).take(0).len() == 0);
    }
    while i < rows.len()
        invariant
            i <= rows.len(),
            decoded_rows(row_views(rows@).take(i as int)) == Ok::<Seq<ProductView>, DecodeFailure>(
                product_views(products@),
            ),
        decreases rows.len() - i,
    {
        let ghost before = row_views(rows@).take(i as int);
        let ghost upto = row_views(rows@).take(i + 1);
        let ghost decoded_before = product_views(products@);
        proof {
            assert(upto.drop_last() =~= before);
            assert(upto.last() == rows@[i as int]@);
        }
        match decode_row(&rows[i]) {
            Ok(product) => {
                products.push(product);
                proof {
                    assert(product_views(products@) =~= decoded_before.push(product@));
                }
            },
            Err(column) => {
                proof {
                    lemma_failure_stays(row_views(rows@), i + 1);
                }
                return Err(StoreError::DecodeFailed { row: i, column });
            },
        }
        i = i + 1;
    }
    proof {
        assert(row_views(rows@).take(i as int) =~= row_views(rows@));
    }
    Ok(products)
}

/// A malformed timestamp among the first `n` rows is the outcome for all
/// the rows.
pub proof fn lemma_failure_stays(rows: Seq<ProductRowView>, n: int)
    requires
        0 <= n <= rows.len(),
        decoded_rows(rows.take(n)) is Err,
    ensures
        decoded_rows(rows) == decoded_rows(rows.take(n)),
    decreases rows.len(),
{
    if n < rows.len() {
        let shorter = rows.drop_last();
        assert(shorter.take(n) =~= rows.take(n));
        lemma_failure_stays(shorter, n);
    } else {
        assert(rows.take(n) =~= rows);
    }
}

/// Decoding is all or nothing. It succeeds exactly when every row decodes,
/// and then gives one product per row, each the decoding of its row. It
/// fails exactly at the first row that does not decode, with that row's
/// column.
pub proof fn lemma_decoded_rows_exact(rows: Seq<ProductRowView>)
    ensures
        match decoded_rows(rows) {
            Ok(products) => {
                &&& products.len() == rows.len()
                &&& forall|i: int|
                    0 <= i < rows.len() ==> #[trigger] decoded_row(rows[i]) == Ok::<
                        ProductView,
                        TimestampColumn,
                    >(products[i])
            },
            Err(failure) => {
                &&& 0 <= failure.row < rows.len()
                &&& decoded_row(rows[failure.row]) == Err::<ProductView, TimestampColumn>(
                    failure.column,
                )
                &&& forall|i: int| 0 <= i < failure.row ==> #[trigger] decoded_row(rows[i]) is Ok
            },
        },
    decreases rows.len(),
{
    if rows.len() > 0 {
        lemma_decoded_rows_exact(rows.drop_last());
        let shorter = rows.drop_last();
        assert(forall|i: int| 0 <= i < shorter.len() ==> shorter[i] == rows[i]);
    }
}

/// What was written is what is read. Whenever the two texts of a stored row
/// read back as the product's instants, the row decodes to a product with
/// the row's identifier and the same name, price and timestamps.
pub proof fn lemma_stored_row_reads_back(
    id: i32,
    product: ProductView,
    created_at: Seq<char>,
    updated_at: Seq<char>,
)
    ensures
        (Timestamp::spec_parse(created_at) == Some(product.created_at) && Timestamp::spec_parse(
            updated_at,
        ) == Some(product.updated_at)) ==> (decoded_row(
            stored_row(id, product, created_at, updated_at),
        ) matches Ok(read) && read.id == id && same_content(read, product)),
{
}

/// How many of the products agree with `product` in all but the identifier.
pub open spec fn count_same(products: Seq<ProductView>, product: ProductView) -> nat
    decreases products.len(),
{
    if products.len() == 0 {
        0
    } else {
        let here: nat = if same_content(products.last(), product) {
            1
        } else {
            0
        };
        count_same(products.drop_last(), product) + here
    }
}

/// The row that the store keeps for an accepted insert of `product`, once it
/// has assigned `id`.
pub open spec fn written_row(id: i32, product: ProductView) -> ProductRowView
    recommends
        encoded(product) is Some,
{
    stored_row(
        id,
        product,
        product.created_at.spec_canonical().unwrap(),
        product.updated_at.spec_canonical().unwrap(),
    )
}

/// What an accepted insert writes can be read. Where the values of
/// `product` are bound at all, the row that holds them decodes to a product
/// with the row's identifier and the same name, price and timestamps, each
/// timestamp in its own field.
pub proof fn lemma_written_row_reads_back(id: i32, product: ProductView)
    requires
        encoded(product) is Some,
    ensures
        decoded_row(written_row(id, product)) matches Ok(read) && read.id == id && same_content(
            read,
            product,
        ),
{
}

/// An accepted insert adds exactly one record. Where the rows before decode
/// and the written row is kept behind them, the read gives the products of
/// before, unchanged and in place, and behind them one product with the
/// written name, price and timestamps; the number of products that agree
/// with the written one grows by exactly one.
pub proof fn lemma_insert_then_list(
    rows: Seq<ProductRowView>,
    listed: Seq<ProductView>,
    id: i32,
    product: ProductView,
)
    requires
        decoded_rows(rows) == Ok::<Seq<ProductView>, DecodeFailure>(listed),
        encoded(product) is Some,
    ensures
        decoded_rows(rows.push(written_row(id, product))) matches Ok(after) && after.len()
            == listed.len() + 1 && after.drop_last() == listed && after.last().id == id
            && same_content(after.last(), product) && count_same(after, product) == count_same(
            listed,
            product,
        ) + 1,
{
    lemma_written_row_reads_back(id, product);
    let row = written_row(id, product);
    let read = decoded_row(row).unwrap();
    lemma_appended_row_is_listed(rows, listed, row, read);
    assert(listed.push(read).drop_last() =~= listed);
}

/// A row added behind rows that decode is listed behind their products, as
/// its own decoding; the products before it stay as they were.
pub proof fn lemma_appended_row_is_listed(
    rows: Seq<ProductRowView>,
    products: Seq<ProductView>,
    row: ProductRowView,
    product: ProductView,
)
    requires
        decoded_rows(rows) == Ok::<Seq<ProductView>, DecodeFailure>(products),
        decoded_row(row) == Ok::<ProductView, TimestampColumn>(product),
    ensures
        decoded_rows(rows.push(row)) == Ok::<Seq<ProductView>, DecodeFailure>(
            products.push(product),
        ),
{
    assert(rows.push(row).drop_last() =~= rows);
}

} // verus!
