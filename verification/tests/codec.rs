use crud_sqlite::codec::{assemble_product, decode_row, decode_rows, insert_params, insert_params_with, SqlParam};
use crud_sqlite::errors::{StoreError, TimestampColumn};
use crud_sqlite::models::{Product, ProductRow};
use crud_sqlite::timestamp::Timestamp;

fn widget() -> Product {
    Product {
        id: 0,
        name: "widget".to_string(),
        base_price: 100,
        created_at: Timestamp { secs: 1431648000, nanos: 0 },
        updated_at: Timestamp { secs: 1431648060, nanos: 0 },
    }
}

fn row(id: i32, created_at: &str, updated_at: &str) -> ProductRow {
    ProductRow {
        id,
        name: format!("item {}", id),
        base_price: id * 10,
        created_at: created_at.to_string(),
        updated_at: updated_at.to_string(),
    }
}

fn texts(params: &[SqlParam]) -> Vec<String> {
    params
        .iter()
        .map(|param| match param {
            SqlParam::Integer(number) => format!("int:{}", number),
            SqlParam::Text(text) => format!("text:{}", text),
        })
        .collect()
}

#[test]
fn insert_params_hold_name_price_and_texts() {
    let params = insert_params(&widget()).unwrap();
    assert_eq!(
        texts(&params),
        vec![
            "text:widget".to_string(),
            "int:100".to_string(),
            "text:2015-05-15T00:00:00+00:00".to_string(),
            "text:2015-05-15T00:01:00+00:00".to_string(),
        ]
    );
}

#[test]
fn insert_params_with_given_texts() {
    let params = insert_params_with(&widget(), "a".to_string(), "b".to_string());
    assert_eq!(
        texts(&params),
        vec!["text:widget".to_string(), "int:100".to_string(), "text:a".to_string(), "text:b".to_string()]
    );
}

#[test]
fn insert_params_need_representable_timestamps() {
    let mut product = widget();
    product.updated_at = Timestamp { secs: i64::MAX, nanos: 0 };
    assert!(insert_params(&product).is_none());
}

#[test]
fn decode_row_reads_both_timestamps() {
    let decoded = decode_row(&row(7, "2015-05-15T00:00:00+00:00", "2015-05-15T01:00:00+01:00")).unwrap();
    assert_eq!(decoded.id, 7);
    assert_eq!(decoded.name, "item 7");
    assert_eq!(decoded.base_price, 70);
    assert_eq!(decoded.created_at, Timestamp { secs: 1431648000, nanos: 0 });
    assert_eq!(decoded.updated_at, Timestamp { secs: 1431648000, nanos: 0 });
}

#[test]
fn decode_row_names_the_malformed_column() {
    let good = "2015-05-15T00:00:00+00:00";
    assert_eq!(decode_row(&row(1, "bad", good)).unwrap_err(), TimestampColumn::CreatedAt);
    assert_eq!(decode_row(&row(1, good, "bad")).unwrap_err(), TimestampColumn::UpdatedAt);
    assert_eq!(decode_row(&row(1, "bad", "bad")).unwrap_err(), TimestampColumn::CreatedAt);
}

#[test]
fn assemble_product_prefers_created_at() {
    let at = Timestamp { secs: 5, nanos: 6 };
    let raw = row(3, "", "");
    assert_eq!(assemble_product(&raw, None, Some(at)).unwrap_err(), TimestampColumn::CreatedAt);
    assert_eq!(assemble_product(&raw, Some(at), None).unwrap_err(), TimestampColumn::UpdatedAt);
    let product = assemble_product(&raw, Some(at), Some(Timestamp { secs: 9, nanos: 0 })).unwrap();
    assert_eq!(product.id, 3);
    assert_eq!(product.name, "item 3");
    assert_eq!(product.base_price, 30);
    assert_eq!(product.created_at, at);
    assert_eq!(product.updated_at, Timestamp { secs: 9, nanos: 0 });
}

#[test]
fn decode_rows_keeps_order() {
    let good = "2015-05-15T00:00:00+00:00";
    let rows = vec![row(2, good, good), row(1, good, good), row(3, good, good)];
    let products = decode_rows(&rows).unwrap();
    let ids: Vec<i32> = products.iter().map(|product| product.id).collect();
    assert_eq!(ids, vec![2, 1, 3]);
}

#[test]
fn decode_rows_of_nothing_is_nothing() {
    assert!(decode_rows(&Vec::new()).unwrap().is_empty());
}

#[test]
fn decode_rows_fails_whole_at_first_malformed() {
    let good = "2015-05-15T00:00:00+00:00";
    let rows = vec![row(1, good, good), row(2, good, "nope"), row(3, "nope", good)];
    match decode_rows(&rows) {
        Err(StoreError::DecodeFailed { row, column }) => {
            assert_eq!(row, 1);
            assert_eq!(column, TimestampColumn::UpdatedAt);
            assert_eq!(column.name(), "updated_at");
        }
        other => panic!("unexpected outcome: {:?}", other),
    }
}

#[test]
fn column_names() {
    assert_eq!(TimestampColumn::CreatedAt.name(), "created_at");
    assert_eq!(TimestampColumn::UpdatedAt.name(), "updated_at");
}

#[test]
fn insert_params_need_timestamps_that_read_back() {
    let mut product = widget();
    product.created_at = Timestamp { secs: 253_402_300_800, nanos: 0 };
    assert!(insert_params(&product).is_none());
    product.created_at = Timestamp { secs: 253_402_300_799, nanos: 0 };
    assert!(insert_params(&product).is_some());
}
