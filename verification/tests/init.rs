use api::init::{
    create_messages_table, create_user_table, init, CreateTable, KeyType, ProjectionType,
    ScalarType, Throughput,
};

const FIVE: Throughput = Throughput { read_capacity_units: 5, write_capacity_units: 5 };

fn assert_name_index(table: &CreateTable) {
    assert_eq!(table.global_secondary_indexes.len(), 1);
    let index = &table.global_secondary_indexes[0];
    assert_eq!(index.index_name, "name-index");
    assert_eq!(index.key_schema.len(), 1);
    assert_eq!(index.key_schema[0].attribute_name, "name");
    assert_eq!(index.key_schema[0].key_type, KeyType::Hash);
    assert_eq!(index.projection, ProjectionType::KeysOnly);
    assert_eq!(index.provisioned_throughput, FIVE);
}

fn assert_keys_are_defined(table: &CreateTable) {
    let defined: Vec<&str> =
        table.attribute_definitions.iter().map(|a| a.attribute_name.as_str()).collect();
    for element in &table.key_schema {
        assert!(defined.contains(&element.attribute_name.as_str()));
    }
    for index in &table.global_secondary_indexes {
        for element in &index.key_schema {
            assert!(defined.contains(&element.attribute_name.as_str()));
        }
    }
}

#[test]
fn messages_table_is_keyed_by_room_and_sort() {
    let table = create_messages_table();
    assert_eq!(table.table_name, "messages");
    let attributes: Vec<(&str, ScalarType)> = table
        .attribute_definitions
        .iter()
        .map(|a| (a.attribute_name.as_str(), a.attribute_type))
        .collect();
    assert_eq!(
        attributes,
        vec![("room_id", ScalarType::N), ("sort", ScalarType::S), ("name", ScalarType::S)]
    );
    let schema: Vec<(&str, KeyType)> =
        table.key_schema.iter().map(|k| (k.attribute_name.as_str(), k.key_type)).collect();
    assert_eq!(schema, vec![("room_id", KeyType::Hash), ("sort", KeyType::Range)]);
    assert_eq!(table.provisioned_throughput, FIVE);
    assert_name_index(&table);
    assert_keys_are_defined(&table);
}

#[test]
fn user_table_is_keyed_by_user_id() {
    let table = create_user_table();
    assert_eq!(table.table_name, "users");
    let attributes: Vec<(&str, ScalarType)> = table
        .attribute_definitions
        .iter()
        .map(|a| (a.attribute_name.as_str(), a.attribute_type))
        .collect();
    assert_eq!(attributes, vec![("user_id", ScalarType::N), ("name", ScalarType::S)]);
    let schema: Vec<(&str, KeyType)> =
        table.key_schema.iter().map(|k| (k.attribute_name.as_str(), k.key_type)).collect();
    assert_eq!(schema, vec![("user_id", KeyType::Hash)]);
    assert_eq!(table.provisioned_throughput, FIVE);
    assert_name_index(&table);
    assert_keys_are_defined(&table);
}

#[test]
fn init_creates_messages_then_users() {
    let tables = init();
    assert_eq!(tables.len(), 2);
    assert_eq!(tables[0].table_name, "messages");
    assert_eq!(tables[1].table_name, "users");
}
