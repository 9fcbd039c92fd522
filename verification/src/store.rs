//! What the service asks of the key-value store, and what the store hands
//! back, as plain values. The calls themselves are made elsewhere.

use crate::attribute::{Item, Value};
use vstd::prelude::*;

verus! {

/// A placeholder in an expression, and the attribute name that it stands
/// for.
#[derive(Debug)]
pub struct Alias {
    pub placeholder: String,
    pub name: String,
}

/// An `Alias` as plain values.
pub struct AliasView {
    pub placeholder: Seq<char>,
    pub name: Seq<char>,
}

impl View for Alias {
    type V = AliasView;

    open spec fn view(&self) -> AliasView {
        AliasView { placeholder: self.placeholder@, name: self.name@ }
    }
}

impl DeepView for Alias {
    type V = AliasView;

    open spec fn deep_view(&self) -> AliasView {
        self@
    }
}

/// The text of a string that may be absent.
pub open spec fn text_of(s: Option<String>) -> Option<Seq<char>> {
    match s {
        Some(text) => Some(text@),
        None => None,
    }
}

/// The request for one item by its key.
#[derive(Debug)]
pub struct GetItem {
    pub table_name: String,
    pub key: Item,
    pub projection_expression: String,
    pub expression_attribute_names: Vec<Alias>,
}

/// A `GetItem` as plain values.
pub struct GetItemView {
    pub table_name: Seq<char>,
    pub key: Map<Seq<char>, Value>,
    pub projection_expression: Seq<char>,
    pub expression_attribute_names: Seq<AliasView>,
}

impl View for GetItem {
    type V = GetItemView;

    open spec fn view(&self) -> GetItemView {
        GetItemView {
            table_name: self.table_name@,
            key: self.key@,
            projection_expression: self.projection_expression@,
            expression_attribute_names: self.expression_attribute_names.deep_view(),
        }
    }
}

/// The request to write one item, over whatever its key held.
#[derive(Debug)]
pub struct PutItem {
    pub table_name: String,
    pub item: Item,
}

/// A `PutItem` as plain values.
pub struct PutItemView {
    pub table_name: Seq<char>,
    pub item: Map<Seq<char>, Value>,
}

impl View for PutItem {
    type V = PutItemView;

    open spec fn view(&self) -> PutItemView {
        PutItemView { table_name: self.table_name@, item: self.item@ }
    }
}

/// The request for the items of one partition, or of one key of an index,
/// that meet a condition on the key.
#[derive(Debug)]
pub struct Query {
    pub table_name: String,
    /// The index to look in, in place of the table.
    pub index_name: Option<String>,
    pub key_condition_expression: String,
    pub expression_attribute_names: Vec<Alias>,
    /// The values that the placeholders of the condition stand for.
    pub expression_attribute_values: Item,
    pub projection_expression: Option<String>,
    /// Whether sort keys ascend; `false` asks for the greatest first.
    pub scan_index_forward: Option<bool>,
    /// How many items to read at most.
    pub limit: Option<i32>,
}

/// A `Query` as plain values.
pub struct QueryView {
    pub table_name: Seq<char>,
    pub index_name: Option<Seq<char>>,
    pub key_condition_expression: Seq<char>,
    pub expression_attribute_names: Seq<AliasView>,
    pub expression_attribute_values: Map<Seq<char>, Value>,
    pub projection_expression: Option<Seq<char>>,
    pub scan_index_forward: Option<bool>,
    pub limit: Option<i32>,
}

impl View for Query {
    type V = QueryView;

    open spec fn view(&self) -> QueryView {
        QueryView {
            table_name: self.table_name@,
            index_name: text_of(self.index_name),
            key_condition_expression: self.key_condition_expression@,
            expression_attribute_names: self.expression_attribute_names.deep_view(),
            expression_attribute_values: self.expression_attribute_values@,
            projection_expression: text_of(self.projection_expression),
            scan_index_forward: self.scan_index_forward,
            limit: self.limit,
        }
    }
}

/// The request for several items of one table at once, each by its key.
#[derive(Debug)]
pub struct BatchGetItem {
    pub table_name: String,
    pub keys: Vec<Item>,
    pub projection_expression: String,
    pub expression_attribute_names: Vec<Alias>,
}

/// A `BatchGetItem` as plain values.
pub struct BatchGetItemView {
    pub table_name: Seq<char>,
    pub keys: Seq<Map<Seq<char>, Value>>,
    pub projection_expression: Seq<char>,
    pub expression_attribute_names: Seq<AliasView>,
}

impl View for BatchGetItem {
    type V = BatchGetItemView;

    open spec fn view(&self) -> BatchGetItemView {
        BatchGetItemView {
            table_name: self.table_name@,
            keys: self.keys.deep_view(),
            projection_expression: self.projection_expression@,
            expression_attribute_names: self.expression_attribute_names.deep_view(),
        }
    }
}

/// What a query came back with.
#[derive(Debug)]
pub struct QueryOutput {
    /// How many items the store says it found.
    pub count: i32,
    /// The items, where the store sent any list at all.
    pub items: Option<Vec<Item>>,
}

/// A `QueryOutput` as plain values.
pub struct QueryOutputView {
    pub count: i32,
    pub items: Option<Seq<Map<Seq<char>, Value>>>,
}

impl View for QueryOutput {
    type V = QueryOutputView;

    open spec fn view(&self) -> QueryOutputView {
        QueryOutputView {
            count: self.count,
            items: match self.items {
                Some(items) => Some(items.deep_view()),
                None => None,
            },
        }
    }
}

/// One alias, ready to go into a request.
pub fn alias(placeholder: &str, name: &str) -> (a: Alias)
    ensures
        a@ == (AliasView { placeholder: placeholder@, name: name@ }),
{
    Alias { placeholder: String::from_str(placeholder), name: String::from_str(name) }
}

/// The aliases of a request that has one.
pub fn one_alias(placeholder: &str, name: &str) -> (v: Vec<Alias>)
    ensures
        v.deep_view() == seq![AliasView { placeholder: placeholder@, name: name@ }],
{
    let mut v: Vec<Alias> = Vec::new();
    v.push(alias(placeholder, name));
    assert(v.deep_view() =~= seq![AliasView { placeholder: placeholder@, name: name@ }]);
    v
}

/// The aliases of a request that has none.
pub fn no_alias() -> (v: Vec<Alias>)
    ensures
        v.deep_view() == Seq::<AliasView>::empty(),
{
    let v: Vec<Alias> = Vec::new();
    assert(v.deep_view() =~= Seq::<AliasView>::empty());
    v
}

} // verus!
