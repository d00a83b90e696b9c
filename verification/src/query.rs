//! The filtered query, and how its outcome is shown.

use crate::item::{
    attribute_views, distinct_names, lookup, Attribute, AttributeValue, AttributeValueView,
    AttributeView, Item,
};
use crate::report::line_views;
use crate::write::product_item;
use vstd::prelude::*;
use vstd::string::*;

verus! {

/// A query on one partition of a table, narrowed by a filter and a
/// projection. The expressions name their operands by placeholders, which
/// `expression_attribute_values` binds to typed values.
#[derive(Clone, Debug, PartialEq, Eq)]
pub struct QueryRequest {
    pub table_name: String,
    pub key_condition_expression: String,
    pub filter_expression: String,
    pub projection_expression: String,
    pub expression_attribute_values: Vec<Attribute>,
}

/// Mathematical content of a [`QueryRequest`].
pub struct QueryRequestView {
    pub table_name: Seq<char>,
    pub key_condition_expression: Seq<char>,
    pub filter_expression: Seq<char>,
    pub projection_expression: Seq<char>,
    pub expression_attribute_values: Seq<AttributeView>,
}

impl View for QueryRequest {
    type V = QueryRequestView;

    open spec fn view(&self) -> QueryRequestView {
        QueryRequestView {
            table_name: self.table_name@,
            key_condition_expression: self.key_condition_expression@,
            filter_expression: self.filter_expression@,
            projection_expression: self.projection_expression@,
            expression_attribute_values: attribute_views(self.expression_attribute_values@),
        }
    }
}

/// The query for the products of one category whose price lies between
/// `lower_bound` and `upper_bound`, both included; of each match only product
/// name and price are asked for. The category is bound as a string, the two
/// bounds as numbers.
pub open spec fn product_query(
    table_name: Seq<char>,
    category: Seq<char>,
    lower_bound: Seq<char>,
    upper_bound: Seq<char>,
) -> QueryRequestView {
    QueryRequestView {
        table_name,
        key_condition_expression: "category = :the_value"@,
        filter_expression: "price BETWEEN :lower_bound AND :upper_bound"@,
        projection_expression: "productname, price"@,
        expression_attribute_values: seq![
            AttributeView { name: ":the_value"@, value: AttributeValueView::S(category) },
            AttributeView { name: ":lower_bound"@, value: AttributeValueView::N(lower_bound) },
            AttributeView { name: ":upper_bound"@, value: AttributeValueView::N(upper_bound) },
        ],
    }
}

/// Builds the query for the products of `category` priced within
/// `lower_bound ..= upper_bound`.
pub fn query_request(
    table_name: String,
    category: String,
    lower_bound: String,
    upper_bound: String,
) -> (request: QueryRequest)
    ensures
        request@ == product_query(table_name@, category@, lower_bound@, upper_bound@),
        distinct_names(request@.expression_attribute_values),
{
    proof {
        lemma_query_placeholders_distinct(table_name@, category@, lower_bound@, upper_bound@);
    }
    let mut values: Vec<Attribute> = Vec::new();
    values.push(
        Attribute { name: String::from_str(":the_value"), value: AttributeValue::S(category) },
    );
    values.push(
        Attribute {
            name: String::from_str(":lower_bound"),
            value: AttributeValue::N(lower_bound),
        },
    );
    values.push(
        Attribute {
            name: String::from_str(":upper_bound"),
            value: AttributeValue::N(upper_bound),
        },
    );
    let request = QueryRequest {
        table_name,
        key_condition_expression: String::from_str("category = :the_value"),
        filter_expression: String::from_str("price BETWEEN :lower_bound AND :upper_bound"),
        projection_expression: String::from_str("productname, price"),
        expression_attribute_values: values,
    };
    assert(request@.expression_attribute_values =~= product_query(
        table_name@,
        category@,
        lower_bound@,
        upper_bound@,
    ).expression_attribute_values);
    request
}

/// The three placeholders of a product query have three different names.
pub proof fn lemma_query_placeholders_distinct(
    table_name: Seq<char>,
    category: Seq<char>,
    lower_bound: Seq<char>,
    upper_bound: Seq<char>,
)
    ensures
        distinct_names(
            product_query(
                table_name,
                category,
                lower_bound,
                upper_bound,
            ).expression_attribute_values,
        ),
{
    reveal_strlit(":the_value");
    reveal_strlit(":lower_bound");
    reveal_strlit(":upper_bound");
    assert(":the_value"@.len() == 10);
    assert(":lower_bound"@[1] == 'l' && ":upper_bound"@[1] == 'u');
}

/// The query that the program runs: kitchen products priced from 3.0 to 6.
pub open spec fn kitchen_query(table_name: Seq<char>) -> QueryRequestView {
    product_query(table_name, "kitchen"@, "3.0"@, "6"@)
}

/// Builds the query for the kitchen products priced from 3.0 to 6, both
/// bounds included.
pub fn kitchen_query_request(table_name: String) -> (request: QueryRequest)
    ensures
        request@ == kitchen_query(table_name@),
        distinct_names(request@.expression_attribute_values),
{
    query_request(
        table_name,
        String::from_str("kitchen"),
        String::from_str("3.0"),
        String::from_str("6"),
    )
}

/// Whether a returned item can be shown: it holds a product name that is a
/// string and a price that is a number.
pub open spec fn is_product_row(item: Seq<AttributeView>) -> bool {
    &&& lookup(item, "productname"@) matches Some(name)
    &&& name is S
    &&& lookup(item, "price"@) matches Some(price)
    &&& price is N
}

/// The three lines that show one returned item: its product name, its price,
/// and a divider.
pub open spec fn row_lines(item: Seq<AttributeView>) -> Seq<Seq<char>>
    recommends
        is_product_row(item),
{
    seq![
        "Product name: "@ + lookup(item, "productname"@)->0->S_0,
        "Price: "@ + lookup(item, "price"@)->0->N_0,
        "------------------"@,
    ]
}

/// The lines that show `items`, one after the other.
pub open spec fn rows_lines(items: Seq<Seq<AttributeView>>) -> Seq<Seq<char>>
    decreases items.len(),
{
    if items.len() == 0 {
        seq![]
    } else {
        rows_lines(items.drop_last()) + row_lines(items.last())
    }
}

/// Views of the items of `items`, in order.
pub open spec fn item_views(items: Seq<Item>) -> Seq<Seq<AttributeView>> {
    Seq::new(items.len(), |i: int| items[i]@)
}

/// View of a query's outcome: the items returned, or the error's detail.
pub open spec fn query_outcome_view(outcome: Result<Vec<Item>, String>) -> Result<
    Seq<Seq<AttributeView>>,
    Seq<char>,
> {
    match outcome {
        Ok(items) => Ok(item_views(items@)),
        Err(detail) => Err(detail@),
    }
}

/// What is printed once a query has come back. After a success: a headline,
/// an empty line, then each item's three lines in the order returned. After a
/// failure: a headline and the error's detail, and no item.
pub open spec fn query_report_lines(
    outcome: Result<Seq<Seq<AttributeView>>, Seq<char>>,
) -> Seq<Seq<char>> {
    match outcome {
        Ok(items) => seq!["Query was successful!"@, Seq::<char>::empty()] + rows_lines(items),
        Err(detail) => seq!["Error occurred during query operation"@, detail],
    }
}

/// Tells whether `item` can be shown by [`render_row`].
pub fn has_product_fields(item: &Item) -> (shown: bool)
    ensures
        shown == is_product_row(item@),
{
    let name_is_string = match item.get("productname") {
        Some(AttributeValue::S(_)) => true,
        _ => false,
    };
    let price_is_number = match item.get("price") {
        Some(AttributeValue::N(_)) => true,
        _ => false,
    };
    name_is_string && price_is_number
}

/// The lines that show one returned item.
pub fn render_row(item: &Item) -> (lines: Vec<String>)
    requires
        is_product_row(item@),
    ensures
        line_views(lines@) == row_lines(item@),
{
    let mut lines: Vec<String> = Vec::new();
    match item.get("productname") {
        Some(AttributeValue::S(name)) => {
            lines.push(String::from_str("Product name: ").concat(name.as_str()));
        },
        _ => {},
    }
    match item.get("price") {
        Some(AttributeValue::N(price)) => {
            lines.push(String::from_str("Price: ").concat(price.as_str()));
        },
        _ => {},
    }
    lines.push(String::from_str("------------------"));
    assert(line_views(lines@) =~= row_lines(item@));
    lines
}

/// The lines to print once a query has come back.
pub fn query_report(outcome: Result<Vec<Item>, String>) -> (lines: Vec<String>)
    requires
        outcome matches Ok(items) ==> forall|i: int|
            0 <= i < items@.len() ==> is_product_row(#[trigger] items@[i]@),
    ensures
        line_views(lines@) == query_report_lines(query_outcome_view(outcome)),
{
    let mut lines: Vec<String> = Vec::new();
    match outcome {
        Ok(items) => {
            lines.push(String::from_str("Query was successful!"));
            lines.push(String::new());
            assert(line_views(lines@) =~= seq!["Query was successful!"@, Seq::<char>::empty()]);
            let ghost head = line_views(lines@);
            let ghost all = item_views(items@);
            let n = items.len();
            let mut i: usize = 0;
            assert(all.take(0) =~= Seq::<Seq<AttributeView>>::empty());
            while i < n
                invariant
                    n == items@.len(),
                    i <= n,
                    all == item_views(items@),
                    forall|k: int| 0 <= k < items@.len() ==> is_product_row(#[trigger] items@[k]@),
                    line_views(lines@) == head + rows_lines(all.take(i as int)),
                decreases n - i,
            {
                let mut row = render_row(&items[i]);
                proof {
                    let next = all.take(i + 1);
                    assert(next.drop_last() =~= all.take(i as int));
                    assert(next.last() == items@[i as int]@);
                    assert(line_views(lines@ + row@) =~= line_views(lines@) + line_views(row@));
                    assert(head + rows_lines(all.take(i as int)) + row_lines(next.last()) =~= head
                        + rows_lines(next));
                }
                lines.append(&mut row);
                i += 1;
            }
            assert(all.take(n as int) =~= all);
        },
        Err(detail) => {
            lines.push(String::from_str("Error occurred during query operation"));
            lines.push(detail);
            assert(line_views(lines@) =~= seq![
                "Error occurred during query operation"@,
                detail@,
            ]);
        },
    }
    lines
}

/// A successful query is shown as its two opening lines and three lines for
/// each item returned, in the order returned: the lines of the item at
/// `index` start after those of the items before it.
pub proof fn lemma_report_shows_each_item(items: Seq<Seq<AttributeView>>, index: int)
    requires
        0 <= index < items.len(),
    ensures
        query_report_lines(Ok(items)).len() == 2 + 3 * items.len(),
        query_report_lines(Ok(items)).subrange(2 + 3 * index, 5 + 3 * index) == row_lines(
            items[index],
        ),
{
    lemma_rows_lines(items, index);
    let opening = seq!["Query was successful!"@, Seq::<char>::empty()];
    assert(opening.len() == 2);
    assert(query_report_lines(Ok(items)) == opening + rows_lines(items));
    lemma_subrange_after(opening, rows_lines(items), 3 * index, 3 * index + 3);
}

/// A range of `rest` is found in `opening + rest` where `opening` ends.
proof fn lemma_subrange_after(
    opening: Seq<Seq<char>>,
    rest: Seq<Seq<char>>,
    from: int,
    to: int,
)
    requires
        0 <= from <= to <= rest.len(),
    ensures
        (opening + rest).subrange(opening.len() + from, opening.len() + to) == rest.subrange(
            from,
            to,
        ),
{
    assert((opening + rest).subrange(opening.len() + from, opening.len() + to) =~= rest.subrange(
        from,
        to,
    ));
}

/// The lines of `items` are three for each, and those of the item at `index`
/// stand at three times its index.
proof fn lemma_rows_lines(items: Seq<Seq<AttributeView>>, index: int)
    requires
        0 <= index < items.len(),
    ensures
        rows_lines(items).len() == 3 * items.len(),
        rows_lines(items).subrange(3 * index, 3 * index + 3) == row_lines(items[index]),
    decreases items.len(),
{
    let before = items.drop_last();
    lemma_rows_lines_len(before);
    if index < before.len() {
        lemma_rows_lines(before, index);
        assert(before[index] == items[index]);
        assert(rows_lines(items).subrange(3 * index, 3 * index + 3) =~= rows_lines(
            before,
        ).subrange(3 * index, 3 * index + 3));
    } else {
        assert(rows_lines(items).subrange(3 * index, 3 * index + 3) =~= row_lines(items.last()));
    }
}

/// Each item takes three lines.
proof fn lemma_rows_lines_len(items: Seq<Seq<AttributeView>>)
    ensures
        rows_lines(items).len() == 3 * items.len(),
    decreases items.len(),
{
    if items.len() > 0 {
        lemma_rows_lines_len(items.drop_last());
    }
}

/// The attributes that the query asks for of each match, in the order in
/// which its projection names them.
pub open spec fn projection_names() -> Seq<Seq<char>> {
    seq!["productname"@, "price"@]
}

/// What is left of `item` under a projection onto `names`: the attributes so
/// named, in the item's order.
pub open spec fn projected(item: Seq<AttributeView>, names: Seq<Seq<char>>) -> Seq<AttributeView>
    decreases item.len(),
{
    if item.len() == 0 {
        seq![]
    } else if names.contains(item.last().name) {
        projected(item.drop_last(), names).push(item.last())
    } else {
        projected(item.drop_last(), names)
    }
}

/// The projection of every product query is the list of the projected
/// names, separated by a comma and a space.
pub proof fn lemma_projection_lists_names(
    table_name: Seq<char>,
    category: Seq<char>,
    lower_bound: Seq<char>,
    upper_bound: Seq<char>,
)
    ensures
        projection_names().len() == 2,
        product_query(table_name, category, lower_bound, upper_bound).projection_expression
            == projection_names()[0] + ", "@ + projection_names()[1],
{
    reveal_strlit("productname, price");
    reveal_strlit("productname");
    reveal_strlit(", ");
    reveal_strlit("price");
    assert("productname, price"@ =~= "productname"@ + ", "@ + "price"@);
}

/// The item written for a product and the query for its category agree on
/// names and types. The item's category is the string that the query's key
/// condition is bound to. What the projection leaves of the item is its
/// product name and its price and no other attribute, and this is shown as
/// that very name and that very price.
pub proof fn lemma_written_product_is_shown(
    table_name: Seq<char>,
    category: Seq<char>,
    productname: Seq<char>,
    price: Seq<char>,
    lower_bound: Seq<char>,
    upper_bound: Seq<char>,
)
    ensures
        lookup(product_item(category, productname, price), "category"@) == lookup(
            product_query(
                table_name,
                category,
                lower_bound,
                upper_bound,
            ).expression_attribute_values,
            ":the_value"@,
        ),
        lookup(product_item(category, productname, price), "category"@) == Some(
            AttributeValueView::S(category),
        ),
        lookup(product_item(category, productname, price), "price"@) == Some(
            AttributeValueView::N(price),
        ),
        projected(product_item(category, productname, price), projection_names()) == seq![
            AttributeView { name: "productname"@, value: AttributeValueView::S(productname) },
            AttributeView { name: "price"@, value: AttributeValueView::N(price) },
        ],
        is_product_row(projected(product_item(category, productname, price), projection_names())),
        row_lines(projected(product_item(category, productname, price), projection_names()))
            == seq![
            "Product name: "@ + productname,
            "Price: "@ + price,
            "------------------"@,
        ],
{
    reveal_strlit("category");
    reveal_strlit("productname");
    reveal_strlit("price");
    let item = product_item(category, productname, price);
    let names = projection_names();
    assert("category"@.len() == 8 && "productname"@.len() == 11 && "price"@.len() == 5);
    assert(names[0] == "productname"@ && names[1] == "price"@);
    assert(!names.contains("category"@));
    assert(names.contains("productname"@));
    assert(names.contains("price"@));

    let two = item.drop_last();
    let one = two.drop_last();
    assert(one.drop_last().len() == 0);
    assert(projected(one.drop_last(), names) =~= seq![]);
    assert(one.last() == item[0]);
    assert(projected(one, names) =~= seq![]);
    assert(two.last() == item[1]);
    assert(projected(two, names) =~= seq![item[1]]);
    assert(item.last() == item[2]);
    let shown = projected(item, names);
    assert(shown =~= seq![item[1], item[2]]);

    assert(item.drop_first()[0] == item[1]);
    assert(item.drop_first().drop_first()[0] == item[2]);
    assert(lookup(item, "category"@) == Some(AttributeValueView::S(category)));
    assert(lookup(item.drop_first().drop_first(), "price"@) == Some(AttributeValueView::N(price)));
    assert(lookup(item.drop_first(), "price"@) == Some(AttributeValueView::N(price)));
    assert(lookup(item, "price"@) == Some(AttributeValueView::N(price)));

    assert(shown.drop_first()[0] == item[2]);
    assert(lookup(shown, "productname"@) == Some(AttributeValueView::S(productname)));
    assert(lookup(shown.drop_first(), "price"@) == Some(AttributeValueView::N(price)));
    assert(lookup(shown, "price"@) == Some(AttributeValueView::N(price)));
}

} // verus!
