//! The table's key schema and the request that provisions it.

use crate::report::{line_views, unit_outcome_view};
use vstd::prelude::*;
use vstd::string::*;

verus! {

/// Scalar type of a key attribute.
#[derive(Clone, Copy, Debug, PartialEq, Eq, Structural)]
pub enum ScalarKind {
    /// A string.
    S,
    /// A number.
    N,
    /// Binary data.
    B,
}

/// Role of an attribute within the primary key.
#[derive(Clone, Copy, Debug, PartialEq, Eq, Structural)]
pub enum KeyRole {
    /// Partition key.
    Hash,
    /// Sort key.
    Range,
}

/// How the table's throughput is paid for.
#[derive(Clone, Copy, Debug, PartialEq, Eq, Structural)]
pub enum BillingMode {
    /// Capacity is provisioned ahead of time.
    Provisioned,
    /// Capacity follows demand, paid per request.
    PayPerRequest,
}

/// Declares the scalar type of one attribute.
#[derive(Clone, Debug, PartialEq, Eq)]
pub struct AttributeDefinition {
    pub attribute_name: String,
    pub attribute_type: ScalarKind,
}

/// Mathematical content of an [`AttributeDefinition`].
pub struct AttributeDefinitionView {
    pub attribute_name: Seq<char>,
    pub attribute_type: ScalarKind,
}

impl View for AttributeDefinition {
    type V = AttributeDefinitionView;

    open spec fn view(&self) -> AttributeDefinitionView {
        AttributeDefinitionView {
            attribute_name: self.attribute_name@,
            attribute_type: self.attribute_type,
        }
    }
}

/// Gives one attribute its role in the primary key.
#[derive(Clone, Debug, PartialEq, Eq)]
pub struct KeySchemaElement {
    pub attribute_name: String,
    pub key_type: KeyRole,
}

/// Mathematical content of a [`KeySchemaElement`].
pub struct KeySchemaElementView {
    pub attribute_name: Seq<char>,
    pub key_type: KeyRole,
}

impl View for KeySchemaElement {
    type V = KeySchemaElementView;

    open spec fn view(&self) -> KeySchemaElementView {
        KeySchemaElementView { attribute_name: self.attribute_name@, key_type: self.key_type }
    }
}

/// A request to create the table.
#[derive(Clone, Debug, PartialEq, Eq)]
pub struct CreateTableRequest {
    pub table_name: String,
    pub billing_mode: BillingMode,
    pub attribute_definitions: Vec<AttributeDefinition>,
    pub key_schema: Vec<KeySchemaElement>,
}

/// Mathematical content of a [`CreateTableRequest`].
pub struct CreateTableRequestView {
    pub table_name: Seq<char>,
    pub billing_mode: BillingMode,
    pub attribute_definitions: Seq<AttributeDefinitionView>,
    pub key_schema: Seq<KeySchemaElementView>,
}

impl View for CreateTableRequest {
    type V = CreateTableRequestView;

    open spec fn view(&self) -> CreateTableRequestView {
        CreateTableRequestView {
            table_name: self.table_name@,
            billing_mode: self.billing_mode,
            attribute_definitions: Seq::new(
                self.attribute_definitions@.len(),
                |i: int| self.attribute_definitions@[i]@,
            ),
            key_schema: Seq::new(self.key_schema@.len(), |i: int| self.key_schema@[i]@),
        }
    }
}

impl CreateTableRequestView {
    /// Whether the request gives the table a composite primary key: a
    /// partition key followed by a sort key of another name, with each key
    /// attribute declared once and no other attribute declared.
    pub open spec fn has_composite_key(self) -> bool {
        &&& self.key_schema.len() == 2
        &&& self.key_schema[0].key_type == KeyRole::Hash
        &&& self.key_schema[1].key_type == KeyRole::Range
        &&& self.key_schema[0].attribute_name != self.key_schema[1].attribute_name
        &&& self.attribute_definitions.len() == 2
        &&& self.attribute_definitions[0].attribute_name
            != self.attribute_definitions[1].attribute_name
        &&& forall|k: int|
            0 <= k < 2 ==> exists|d: int|
                0 <= d < 2 && (#[trigger] self.attribute_definitions[d]).attribute_name == (
                #[trigger] self.key_schema[k]).attribute_name
    }
}

/// The request that provisions the product table under `table_name`.
pub open spec fn product_table(table_name: Seq<char>) -> CreateTableRequestView {
    CreateTableRequestView {
        table_name,
        billing_mode: BillingMode::PayPerRequest,
        attribute_definitions: seq![
            AttributeDefinitionView {
                attribute_name: "category"@,
                attribute_type: ScalarKind::S,
            },
            AttributeDefinitionView {
                attribute_name: "productname"@,
                attribute_type: ScalarKind::S,
            },
        ],
        key_schema: seq![
            KeySchemaElementView { attribute_name: "category"@, key_type: KeyRole::Hash },
            KeySchemaElementView { attribute_name: "productname"@, key_type: KeyRole::Range },
        ],
    }
}

/// The product table has a composite primary key, whatever its name.
pub proof fn lemma_product_table_has_composite_key(table_name: Seq<char>)
    ensures
        product_table(table_name).has_composite_key(),
{
    reveal_strlit("category");
    reveal_strlit("productname");
    let table = product_table(table_name);
    assert("category"@.len() == 8 && "productname"@.len() == 11);
    assert(table.attribute_definitions[0].attribute_name == table.key_schema[0].attribute_name);
    assert(table.attribute_definitions[1].attribute_name == table.key_schema[1].attribute_name);
}

/// Builds the request that creates the product table: on-demand billing,
/// `category` as partition key and `productname` as sort key, both strings.
pub fn create_table_request(table_name: String) -> (request: CreateTableRequest)
    ensures
        request@ == product_table(table_name@),
        request@.has_composite_key(),
{
    proof {
        lemma_product_table_has_composite_key(table_name@);
    }
    let attr_part = AttributeDefinition {
        attribute_name: String::from_str("category"),
        attribute_type: ScalarKind::S,
    };
    let attr_sort = AttributeDefinition {
        attribute_name: String::from_str("productname"),
        attribute_type: ScalarKind::S,
    };
    let keyschema_part = KeySchemaElement {
        attribute_name: String::from_str("category"),
        key_type: KeyRole::Hash,
    };
    let keyschema_sort = KeySchemaElement {
        attribute_name: String::from_str("productname"),
        key_type: KeyRole::Range,
    };
    let mut attribute_definitions: Vec<AttributeDefinition> = Vec::new();
    attribute_definitions.push(attr_part);
    attribute_definitions.push(attr_sort);
    let mut key_schema: Vec<KeySchemaElement> = Vec::new();
    key_schema.push(keyschema_part);
    key_schema.push(keyschema_sort);
    let request = CreateTableRequest {
        table_name,
        billing_mode: BillingMode::PayPerRequest,
        attribute_definitions,
        key_schema,
    };
    assert(request@.attribute_definitions =~= product_table(table_name@).attribute_definitions);
    assert(request@.key_schema =~= product_table(table_name@).key_schema);
    request
}

/// What is printed once the create-table call has come back: a confirmation
/// after a success; a headline and the error's detail after a failure.
pub open spec fn create_table_report_lines(outcome: Result<(), Seq<char>>) -> Seq<Seq<char>> {
    match outcome {
        Ok(_) => seq!["Creating DynamoDB table was successful!"@],
        Err(detail) => seq!["Error occurred while creating DynamoDB table."@, detail],
    }
}

/// The lines to print once the create-table call has come back.
pub fn create_table_report(outcome: Result<(), String>) -> (lines: Vec<String>)
    ensures
        line_views(lines@) == create_table_report_lines(unit_outcome_view(outcome)),
{
    let mut lines: Vec<String> = Vec::new();
    match outcome {
        Ok(_) => {
            lines.push(String::from_str("Creating DynamoDB table was successful!"));
        },
        Err(detail) => {
            lines.push(String::from_str("Error occurred while creating DynamoDB table."));
            lines.push(detail);
        },
    }
    assert(line_views(lines@) =~= create_table_report_lines(unit_outcome_view(outcome)));
    lines
}

} // verus!
