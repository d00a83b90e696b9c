use ddb_products::item::{Attribute, AttributeValue, Item};
use ddb_products::write::{put_item_request, write_report, PutItemRequest};

fn attribute(name: &str, value: AttributeValue) -> Attribute {
    Attribute { name: name.to_string(), value }
}

#[test]
fn put_item_request_types_the_three_attributes() {
    let request = put_item_request(
        "stratusgrid-products".to_string(),
        "kitchen".to_string(),
        "kettle".to_string(),
        "4.50".to_string(),
    );
    let expected = PutItemRequest {
        table_name: "stratusgrid-products".to_string(),
        item: Item {
            attributes: vec![
                attribute("category", AttributeValue::S("kitchen".to_string())),
                attribute("productname", AttributeValue::S("kettle".to_string())),
                attribute("price", AttributeValue::N("4.50".to_string())),
            ],
        },
    };
    assert_eq!(request, expected);
}

#[test]
fn put_item_request_passes_a_non_numeric_price_through() {
    let request = put_item_request(
        "products".to_string(),
        "kitchen".to_string(),
        "kettle".to_string(),
        "cheap".to_string(),
    );
    assert_eq!(request.item.get("price"), Some(&AttributeValue::N("cheap".to_string())));
}

#[test]
fn put_item_request_keeps_empty_and_spaced_values() {
    let request =
        put_item_request("t".to_string(), String::new(), " a b ".to_string(), String::new());
    assert_eq!(request.item.get("category"), Some(&AttributeValue::S(String::new())));
    assert_eq!(request.item.get("productname"), Some(&AttributeValue::S(" a b ".to_string())));
    assert_eq!(request.item.get("price"), Some(&AttributeValue::N(String::new())));
}

#[test]
fn write_success_prints_nothing() {
    assert_eq!(write_report(Ok(())), Vec::<String>::new());
}

#[test]
fn write_failure_prints_the_detail() {
    let detail = "Some(ValidationException: The parameter cannot be converted to a numeric value)";
    assert_eq!(write_report(Err(detail.to_string())), vec![detail.to_string()]);
}

#[test]
fn item_get_finds_the_first_attribute_of_a_name() {
    let item = Item {
        attributes: vec![
            attribute("price", AttributeValue::N("1".to_string())),
            attribute("productname", AttributeValue::S("pan".to_string())),
            attribute("price", AttributeValue::N("2".to_string())),
        ],
    };
    assert_eq!(item.get("price"), Some(&AttributeValue::N("1".to_string())));
    assert_eq!(item.get("productname"), Some(&AttributeValue::S("pan".to_string())));
}

#[test]
fn item_get_misses_absent_names() {
    let item = Item { attributes: vec![attribute("price", AttributeValue::Other)] };
    assert_eq!(item.get("Price"), None);
    assert_eq!(item.get(""), None);
    assert_eq!(item.get("price"), Some(&AttributeValue::Other));
    assert_eq!(Item { attributes: Vec::new() }.get("price"), None);
}
