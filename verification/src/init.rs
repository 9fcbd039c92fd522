//! The two tables of the service, as the store is asked to create them.

use vstd::prelude::*;
use vstd::string::*;

verus! {

/// The type of an attribute that is part of a key.
#[derive(Clone, Copy, Debug, PartialEq, Eq, Structural)]
pub enum ScalarType {
    /// Text.
    S,
    /// A number.
    N,
}

/// The part that an attribute plays in a key.
#[derive(Clone, Copy, Debug, PartialEq, Eq, Structural)]
pub enum KeyType {
    /// The partition key.
    Hash,
    /// The sort key.
    Range,
}

/// Which attributes an index copies from the table.
#[derive(Clone, Copy, Debug, PartialEq, Eq, Structural)]
pub enum ProjectionType {
    /// The keys of the table and of the index, and nothing else.
    KeysOnly,
}

/// What may be read and written per second.
#[derive(Clone, Copy, Debug, PartialEq, Eq, Structural)]
pub struct Throughput {
    pub read_capacity_units: i64,
    pub write_capacity_units: i64,
}

/// An attribute that a key names, with its type.
#[derive(Debug)]
pub struct AttributeDefinition {
    pub attribute_name: String,
    pub attribute_type: ScalarType,
}

/// An `AttributeDefinition` as plain values.
pub struct AttributeDefinitionView {
    pub attribute_name: Seq<char>,
    pub attribute_type: ScalarType,
}

impl DeepView for AttributeDefinition {
    type V = AttributeDefinitionView;

    open spec fn deep_view(&self) -> AttributeDefinitionView {
        AttributeDefinitionView {
            attribute_name: self.attribute_name@,
            attribute_type: self.attribute_type,
        }
    }
}

/// One attribute of a key, with the part that it plays.
#[derive(Debug)]
pub struct KeySchemaElement {
    pub attribute_name: String,
    pub key_type: KeyType,
}

/// A `KeySchemaElement` as plain values.
pub struct KeySchemaElementView {
    pub attribute_name: Seq<char>,
    pub key_type: KeyType,
}

impl DeepView for KeySchemaElement {
    type V = KeySchemaElementView;

    open spec fn deep_view(&self) -> KeySchemaElementView {
        KeySchemaElementView { attribute_name: self.attribute_name@, key_type: self.key_type }
    }
}

/// An index over a table, with a key of its own.
#[derive(Debug)]
pub struct GlobalSecondaryIndex {
    pub index_name: String,
    pub key_schema: Vec<KeySchemaElement>,
    pub projection: ProjectionType,
    pub provisioned_throughput: Throughput,
}

/// A `GlobalSecondaryIndex` as plain values.
pub struct GlobalSecondaryIndexView {
    pub index_name: Seq<char>,
    pub key_schema: Seq<KeySchemaElementView>,
    pub projection: ProjectionType,
    pub provisioned_throughput: Throughput,
}

impl DeepView for GlobalSecondaryIndex {
    type V = GlobalSecondaryIndexView;

    open spec fn deep_view(&self) -> GlobalSecondaryIndexView {
        GlobalSecondaryIndexView {
            index_name: self.index_name@,
            key_schema: self.key_schema.deep_view(),
            projection: self.projection,
            provisioned_throughput: self.provisioned_throughput,
        }
    }
}

/// The request to create a table.
#[derive(Debug)]
pub struct CreateTable {
    pub table_name: String,
    pub attribute_definitions: Vec<AttributeDefinition>,
    pub key_schema: Vec<KeySchemaElement>,
    pub global_secondary_indexes: Vec<GlobalSecondaryIndex>,
    pub provisioned_throughput: Throughput,
}

/// A `CreateTable` as plain values.
pub struct CreateTableView {
    pub table_name: Seq<char>,
    pub attribute_definitions: Seq<AttributeDefinitionView>,
    pub key_schema: Seq<KeySchemaElementView>,
    pub global_secondary_indexes: Seq<GlobalSecondaryIndexView>,
    pub provisioned_throughput: Throughput,
}

impl View for CreateTable {
    type V = CreateTableView;

    open spec fn view(&self) -> CreateTableView {
        CreateTableView {
            table_name: self.table_name@,
            attribute_definitions: self.attribute_definitions.deep_view(),
            key_schema: self.key_schema.deep_view(),
            global_secondary_indexes: self.global_secondary_indexes.deep_view(),
            provisioned_throughput: self.provisioned_throughput,
        }
    }
}

impl DeepView for CreateTable {
    type V = CreateTableView;

    open spec fn deep_view(&self) -> CreateTableView {
        self@
    }
}

/// The throughput of every table and index.
pub open spec fn five() -> Throughput {
    Throughput { read_capacity_units: 5, write_capacity_units: 5 }
}

/// The index that finds an item by its name; it holds keys only.
pub open spec fn name_index() -> GlobalSecondaryIndexView {
    GlobalSecondaryIndexView {
        index_name: "name-index"@,
        key_schema: seq![
            KeySchemaElementView { attribute_name: "name"@, key_type: KeyType::Hash },
        ],
        projection: ProjectionType::KeysOnly,
        provisioned_throughput: five(),
    }
}

/// The table of rooms, messages and the ledger: the partition key is the
/// number `room_id`, the sort key the string `sort`.
pub open spec fn messages_definition() -> CreateTableView {
    CreateTableView {
        table_name: "messages"@,
        attribute_definitions: seq![
            AttributeDefinitionView { attribute_name: "room_id"@, attribute_type: ScalarType::N },
            AttributeDefinitionView { attribute_name: "sort"@, attribute_type: ScalarType::S },
            AttributeDefinitionView { attribute_name: "name"@, attribute_type: ScalarType::S },
        ],
        key_schema: seq![
            KeySchemaElementView { attribute_name: "room_id"@, key_type: KeyType::Hash },
            KeySchemaElementView { attribute_name: "sort"@, key_type: KeyType::Range },
        ],
        global_secondary_indexes: seq![name_index()],
        provisioned_throughput: five(),
    }
}

/// The table of users: the key is the number `user_id`.
pub open spec fn users_definition() -> CreateTableView {
    CreateTableView {
        table_name: "users"@,
        attribute_definitions: seq![
            AttributeDefinitionView { attribute_name: "user_id"@, attribute_type: ScalarType::N },
            AttributeDefinitionView { attribute_name: "name"@, attribute_type: ScalarType::S },
        ],
        key_schema: seq![
            KeySchemaElementView { attribute_name: "user_id"@, key_type: KeyType::Hash },
        ],
        global_secondary_indexes: seq![name_index()],
        provisioned_throughput: five(),
    }
}

/// One attribute with its type.
fn attribute(name: &str, attribute_type: ScalarType) -> (a: AttributeDefinition)
    ensures
        a.deep_view() == (AttributeDefinitionView { attribute_name: name@, attribute_type }),
{
    AttributeDefinition { attribute_name: String::from_str(name), attribute_type }
}

/// One attribute of a key.
fn key(name: &str, key_type: KeyType) -> (k: KeySchemaElement)
    ensures
        k.deep_view() == (KeySchemaElementView { attribute_name: name@, key_type }),
{
    KeySchemaElement { attribute_name: String::from_str(name), key_type }
}

/// The indexes of a table that is found by name.
fn by_name() -> (indexes: Vec<GlobalSecondaryIndex>)
    ensures
        indexes.deep_view() == seq![name_index()],
{
    let mut schema: Vec<KeySchemaElement> = Vec::new();
    schema.push(key("name", KeyType::Hash));
    assert(schema.deep_view() =~= name_index().key_schema);
    let index = GlobalSecondaryIndex {
        index_name: String::from_str("name-index"),
        key_schema: schema,
        projection: ProjectionType::KeysOnly,
        provisioned_throughput: Throughput { read_capacity_units: 5, write_capacity_units: 5 },
    };
    let mut indexes: Vec<GlobalSecondaryIndex> = Vec::new();
    indexes.push(index);
    assert(indexes.deep_view() =~= seq![name_index()]);
    indexes
}

/// The request that creates the table of rooms, messages and the ledger.
pub fn create_messages_table() -> (table: CreateTable)
    ensures
        table@ == messages_definition(),
{
    let mut attributes: Vec<AttributeDefinition> = Vec::new();
    attributes.push(attribute("room_id", ScalarType::N));
    attributes.push(attribute("sort", ScalarType::S));
    attributes.push(attribute("name", ScalarType::S));
    assert(attributes.deep_view() =~= messages_definition().attribute_definitions);
    let mut schema: Vec<KeySchemaElement> = Vec::new();
    schema.push(key("room_id", KeyType::Hash));
    schema.push(key("sort", KeyType::Range));
    assert(schema.deep_view() =~= messages_definition().key_schema);
    CreateTable {
        table_name: String::from_str("messages"),
        attribute_definitions: attributes,
        key_schema: schema,
        global_secondary_indexes: by_name(),
        provisioned_throughput: Throughput { read_capacity_units: 5, write_capacity_units: 5 },
    }
}

/// The request that creates the table of users.
pub fn create_user_table() -> (table: CreateTable)
    ensures
        table@ == users_definition(),
{
    let mut attributes: Vec<AttributeDefinition> = Vec::new();
    attributes.push(attribute("user_id", ScalarType::N));
    attributes.push(attribute("name", ScalarType::S));
    assert(attributes.deep_view() =~= users_definition().attribute_definitions);
    let mut schema: Vec<KeySchemaElement> = Vec::new();
    schema.push(key("user_id", KeyType::Hash));
    assert(schema.deep_view() =~= users_definition().key_schema);
    CreateTable {
        table_name: String::from_str("users"),
        attribute_definitions: attributes,
        key_schema: schema,
        global_secondary_indexes: by_name(),
        provisioned_throughput: Throughput { read_capacity_units: 5, write_capacity_units: 5 },
    }
}

/// The tables to create when the service starts: first that of messages,
/// then that of users.
pub fn init() -> (tables: Vec<CreateTable>)
    ensures
        tables.deep_view() == seq![messages_definition(), users_definition()],
{
    let mut tables: Vec<CreateTable> = Vec::new();
    tables.push(create_messages_table());
    tables.push(create_user_table());
    assert(tables.deep_view() =~= seq![messages_definition(), users_definition()]);
    tables
}

} // verus!
