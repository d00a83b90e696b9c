//! Typed attribute values, items, and the request that writes one product.

use vstd::prelude::*;
use vstd::string::*;

verus! {

/// A value as the store types it. Numbers travel as their decimal text.
#[derive(Clone, Debug, PartialEq, Eq)]
pub enum AttributeValue {
    /// A string.
    S(String),
    /// A number, in its string representation.
    N(String),
    /// A value of any other store type; nothing here reads inside it.
    Other,
}

/// Mathematical content of an [`AttributeValue`].
pub enum AttributeValueView {
    S(Seq<char>),
    N(Seq<char>),
    Other,
}

impl View for AttributeValue {
    type V = AttributeValueView;

    open spec fn view(&self) -> AttributeValueView {
        match self {
            AttributeValue::S(s) => AttributeValueView::S(s@),
            AttributeValue::N(n) => AttributeValueView::N(n@),
            AttributeValue::Other => AttributeValueView::Other,
        }
    }
}

/// A named attribute value.
#[derive(Clone, Debug, PartialEq, Eq)]
pub struct Attribute {
    pub name: String,
    pub value: AttributeValue,
}

/// Mathematical content of an [`Attribute`].
pub struct AttributeView {
    pub name: Seq<char>,
    pub value: AttributeValueView,
}

impl View for Attribute {
    type V = AttributeView;

    open spec fn view(&self) -> AttributeView {
        AttributeView { name: self.name@, value: self.value@ }
    }
}

/// The attributes of `attrs`, each by its view.
pub open spec fn attribute_views(attrs: Seq<Attribute>) -> Seq<AttributeView> {
    Seq::new(attrs.len(), |i: int| attrs[i]@)
}

/// The value that `attrs` gives to `name`: that of the first attribute so
/// named, or `None` where there is none.
pub open spec fn lookup(attrs: Seq<AttributeView>, name: Seq<char>) -> Option<AttributeValueView>
    decreases attrs.len(),
{
    if attrs.len() == 0 {
        None
    } else if attrs[0].name == name {
        Some(attrs[0].value)
    } else {
        lookup(attrs.drop_first(), name)
    }
}

/// Whether no two attributes of `attrs` have the same name, so that `attrs`
/// stands for a map from names to values.
pub open spec fn distinct_names(attrs: Seq<AttributeView>) -> bool {
    forall|i: int, j: int|
        0 <= i < j < attrs.len() ==> (#[trigger] attrs[i]).name != (#[trigger] attrs[j]).name
}

/// A name has a value exactly if some attribute bears it.
pub proof fn lemma_lookup_finds_named(attrs: Seq<AttributeView>, name: Seq<char>)
    ensures
        lookup(attrs, name).is_some() <==> exists|i: int|
            0 <= i < attrs.len() && (#[trigger] attrs[i]).name == name,
    decreases attrs.len(),
{
    if attrs.len() > 0 {
        let rest = attrs.drop_first();
        lemma_lookup_finds_named(rest, name);
        if attrs[0].name != name {
            if lookup(rest, name).is_some() {
                let i = choose|i: int| 0 <= i < rest.len() && (#[trigger] rest[i]).name == name;
                assert(attrs[i + 1] == rest[i]);
            }
            if exists|i: int| 0 <= i < attrs.len() && (#[trigger] attrs[i]).name == name {
                let i = choose|i: int| 0 <= i < attrs.len() && (#[trigger] attrs[i]).name == name;
                assert(rest[i - 1] == attrs[i]);
            }
        }
    }
}

/// Where no name occurs twice, each attribute's name has that attribute's
/// value, wherever in the list it stands.
pub proof fn lemma_lookup_of_distinct(attrs: Seq<AttributeView>, i: int)
    requires
        distinct_names(attrs),
        0 <= i < attrs.len(),
    ensures
        lookup(attrs, attrs[i].name) == Some(attrs[i].value),
    decreases attrs.len(),
{
    if i > 0 {
        let rest = attrs.drop_first();
        assert(attrs[0].name != attrs[i].name);
        assert(rest[i - 1] == attrs[i]);
        assert forall|a: int, b: int| 0 <= a < b < rest.len() implies (#[trigger] rest[a]).name
            != (#[trigger] rest[b]).name by {
            assert(rest[a] == attrs[a + 1]);
            assert(rest[b] == attrs[b + 1]);
        }
        lemma_lookup_of_distinct(rest, i - 1);
    }
}

/// An item of the table: a list of named values. It stands for a map where
/// [`distinct_names`] holds of it; a name that occurs twice has the value of
/// its first occurrence. It is a list and no hash map so that what a lookup
/// returns can be stated over the attributes themselves and proved.
#[derive(Clone, Debug, PartialEq, Eq)]
pub struct Item {
    pub attributes: Vec<Attribute>,
}

impl View for Item {
    type V = Seq<AttributeView>;

    open spec fn view(&self) -> Seq<AttributeView> {
        attribute_views(self.attributes@)
    }
}

impl Item {
    /// The value stored under `name`, if the item has one.
    pub fn get(&self, name: &str) -> (value: Option<&AttributeValue>)
        ensures
            match value {
                Some(v) => lookup(self@, name@) == Some(v@),
                None => lookup(self@, name@).is_none(),
            },
    {
        let wanted = String::from_str(name);
        let n = self.attributes.len();
        let mut i: usize = 0;
        assert(self@.skip(0) =~= self@);
        while i < n
            invariant
                n == self.attributes@.len(),
                i <= n,
                wanted@ == name@,
                lookup(self@, name@) == lookup(self@.skip(i as int), name@),
            decreases n - i,
        {
            let attr = &self.attributes[i];
            proof {
                let rest = self@.skip(i as int);
                assert(rest[0] == attr@);
                assert(rest.drop_first() =~= self@.skip(i + 1));
            }
            if attr.name == wanted {
                return Some(&attr.value);
            }
            i += 1;
        }
        assert(self@.skip(n as int).len() == 0);
        None
    }
}

} // verus!
