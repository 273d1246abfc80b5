use rust_sqs::error::Error;
use rust_sqs::models::attribute::{AttributeValue, Item};
use rust_sqs::models::product::Product;
use rust_sqs::queries::add_product_query::{AddProduct, PutItem};
use rust_sqs::queries::get_product_by_id_query::{GetById, GetItem, TABLE_NAME};

fn text(s: &str) -> String {
    s.to_string()
}

fn widget() -> Product {
    Product { pk: text("abc"), name: text("Widget"), price: text("9.99") }
}

#[test]
fn the_table_setting_is_named_table_name() {
    assert_eq!(TABLE_NAME, "TABLE_NAME");
}

#[test]
fn get_by_id_needs_the_table_name() {
    match GetById::new(None) {
        Err(e) => assert_eq!(e, Error::ConfigError(text("TABLE_NAME"))),
        Ok(_) => panic!("a gateway without a table"),
    }
    assert!(GetById::new(Some(text("products"))).is_ok());
}

#[test]
fn get_by_id_asks_for_the_string_key() {
    let gateway = GetById::new(Some(text("products"))).unwrap();
    let call = gateway.request("abc");
    let key = Item::from_entries(vec![(text("pk"), AttributeValue::S(text("abc")))]);
    assert_eq!(call, GetItem { table_name: text("products"), key });
}

#[test]
fn get_by_id_takes_no_item_for_no_product() {
    assert_eq!(GetById::response(Ok(None)), Ok(None));
}

#[test]
fn get_by_id_decodes_the_item() {
    assert_eq!(GetById::response(Ok(Some(widget().to_dynamodb()))), Ok(Some(widget())));
}

#[test]
fn get_by_id_hands_on_the_error_of_a_malformed_item() {
    let mut item = Item::new();
    item.insert(text("pk"), AttributeValue::S(text("abc")));
    assert_eq!(GetById::response(Ok(Some(item))), Err(Error::MissingField(text("name"))));
    let mut item = widget().to_dynamodb();
    item.insert(text("price"), AttributeValue::S(text("9.99")));
    assert_eq!(GetById::response(Ok(Some(item))), Err(Error::TypeMismatch));
}

#[test]
fn get_by_id_reports_a_failure_of_the_table() {
    assert_eq!(
        GetById::response(Err(text("timed out"))),
        Err(Error::StoreError(text("timed out")))
    );
}

#[test]
fn add_product_needs_the_table_name() {
    match AddProduct::new(None) {
        Err(e) => assert_eq!(e, Error::ConfigError(text("TABLE_NAME"))),
        Ok(_) => panic!("a gateway without a table"),
    }
    assert!(AddProduct::new(Some(text("products"))).is_ok());
}

#[test]
fn add_product_writes_the_whole_item() {
    let gateway = AddProduct::new(Some(text("products"))).unwrap();
    let call = gateway.request(&widget());
    assert_eq!(call, PutItem { table_name: text("products"), item: widget().to_dynamodb() });
    assert_eq!(Product::from_dynamodb(call.item.clone()), Ok(widget()));
    assert_eq!(call.item.into_entries().len(), 3);
}

#[test]
fn add_product_reports_a_failure_of_the_table() {
    assert_eq!(AddProduct::response(Ok(())), Ok(()));
    assert_eq!(
        AddProduct::response(Err(text("throttled"))),
        Err(Error::StoreError(text("throttled")))
    );
}

#[test]
fn get_by_id_fails_on_a_stored_price_that_is_no_number() {
    let mut item = widget().to_dynamodb();
    item.insert(text("price"), AttributeValue::N(text("abc")));
    assert_eq!(GetById::response(Ok(Some(item))), Err(Error::TypeMismatch));
}
