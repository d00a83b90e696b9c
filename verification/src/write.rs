//! The request that writes one product, and what is shown of its outcome.

use crate::item::{
    distinct_names, Attribute, AttributeValue, AttributeValueView, AttributeView, Item,
};
use crate::report::{line_views, unit_outcome_view};
use vstd::prelude::*;
use vstd::string::*;

verus! {

/// A request to put one item into a table.
#[derive(Clone, Debug, PartialEq, Eq)]
pub struct PutItemRequest {
    pub table_name: String,
    pub item: Item,
}

/// Mathematical content of a [`PutItemRequest`].
pub struct PutItemRequestView {
    pub table_name: Seq<char>,
    pub item: Seq<AttributeView>,
}

impl View for PutItemRequest {
    type V = PutItemRequestView;

    open spec fn view(&self) -> PutItemRequestView {
        PutItemRequestView { table_name: self.table_name@, item: self.item@ }
    }
}

/// The item that stands for one product: category and product name as
/// strings, the price as a number, each text carried over as entered.
pub open spec fn product_item(
    category: Seq<char>,
    productname: Seq<char>,
    price: Seq<char>,
) -> Seq<AttributeView> {
    seq![
        AttributeView { name: "category"@, value: AttributeValueView::S(category) },
        AttributeView { name: "productname"@, value: AttributeValueView::S(productname) },
        AttributeView { name: "price"@, value: AttributeValueView::N(price) },
    ]
}

/// The request that writes one product to `table_name`.
pub open spec fn product_put(
    table_name: Seq<char>,
    category: Seq<char>,
    productname: Seq<char>,
    price: Seq<char>,
) -> PutItemRequestView {
    PutItemRequestView { table_name, item: product_item(category, productname, price) }
}

/// Builds the request that writes one product. Nothing is validated here: a
/// price that is no number is passed on as it is, for the store to reject.
pub fn put_item_request(
    table_name: String,
    category: String,
    productname: String,
    price: String,
) -> (request: PutItemRequest)
    ensures
        request@ == product_put(table_name@, category@, productname@, price@),
        distinct_names(request@.item),
{
    proof {
        lemma_product_item_names_distinct(category@, productname@, price@);
    }
    let mut attributes: Vec<Attribute> = Vec::new();
    attributes.push(
        Attribute { name: String::from_str("category"), value: AttributeValue::S(category) },
    );
    attributes.push(
        Attribute {
            name: String::from_str("productname"),
            value: AttributeValue::S(productname),
        },
    );
    attributes.push(
        Attribute { name: String::from_str("price"), value: AttributeValue::N(price) },
    );
    let item = Item { attributes };
    assert(item@ =~= product_item(category@, productname@, price@));
    PutItemRequest { table_name, item }
}

/// The three attributes of a product's item have three different names.
pub proof fn lemma_product_item_names_distinct(
    category: Seq<char>,
    productname: Seq<char>,
    price: Seq<char>,
)
    ensures
        distinct_names(product_item(category, productname, price)),
{
    reveal_strlit("category");
    reveal_strlit("productname");
    reveal_strlit("price");
    assert("category"@.len() == 8 && "productname"@.len() == 11 && "price"@.len() == 5);
}

/// What is printed once a write has come back: nothing after a success, the
/// error's detail after a failure.
pub open spec fn write_report_lines(outcome: Result<(), Seq<char>>) -> Seq<Seq<char>> {
    match outcome {
        Ok(_) => seq![],
        Err(detail) => seq![detail],
    }
}

/// The lines to print once a write has come back.
pub fn write_report(outcome: Result<(), String>) -> (lines: Vec<String>)
    ensures
        line_views(lines@) == write_report_lines(unit_outcome_view(outcome)),
{
    let mut lines: Vec<String> = Vec::new();
    match outcome {
        Ok(_) => {},
        Err(detail) => {
            lines.push(detail);
        },
    }
    assert(line_views(lines@) =~= write_report_lines(unit_outcome_view(outcome)));
    lines
}

} // verus!
