use api::attribute::{AttributeValue, Item};
use api::errors::ErrorKind;
use api::records::{
    message_key_of, room_key_of, user_key_of, MessageRecord, RoomRecord, UserRecord,
};

fn s(text: &str) -> AttributeValue {
    AttributeValue::S(text.to_string())
}

fn n(text: &str) -> AttributeValue {
    AttributeValue::N(text.to_string())
}

fn message_item() -> Item {
    let mut item = Item::new();
    item.insert("room_id", n("42"));
    item.insert("sort", s("message.2023-01-01T00:00:00Z"));
    item.insert("sender_id", n("7"));
    item.insert("sender_name", s("ann"));
    item.insert("message", s("hello"));
    item
}

fn without(item: &Item, name: &str) -> Item {
    let mut out = Item::new();
    for attribute in &item.attributes {
        if attribute.name != name {
            out.insert(&attribute.name, attribute.value.duplicate());
        }
    }
    out
}

#[test]
fn attribute_value_as_s_and_as_n() {
    assert_eq!(s("x").as_s().unwrap(), "x");
    assert_eq!(n("1").as_n().unwrap(), "1");
    let e = n("1").as_s().unwrap_err();
    assert_eq!(e.kind, ErrorKind::TypeMismatch);
    assert_eq!(e.debug.as_deref(), Some("Error unwrapping AttributeValue N(1)"));
    assert_eq!(e.display, "Internal server error");
    let e = s("x").as_n().unwrap_err();
    assert_eq!(e.kind, ErrorKind::TypeMismatch);
    assert_eq!(e.debug.as_deref(), Some("Error unwrapping AttributeValue S(x)"));
    let e = AttributeValue::Other.as_s().unwrap_err();
    assert_eq!(e.kind, ErrorKind::TypeMismatch);
    assert_eq!(e.debug.as_deref(), Some("Error unwrapping AttributeValue Other"));
    assert_eq!(AttributeValue::Other.as_n().unwrap_err().kind, ErrorKind::TypeMismatch);
}

#[test]
fn attribute_value_same_tells_tags_apart() {
    assert!(s("1").same(&s("1")));
    assert!(!s("1").same(&n("1")));
    assert!(!s("1").same(&s("2")));
    assert!(n("1").same(&n("1").duplicate()));
    assert!(AttributeValue::Other.same(&AttributeValue::Other));
    assert!(!AttributeValue::Other.same(&s("")));
}

#[test]
fn item_get_finds_what_was_put_last() {
    let mut item = Item::new();
    assert!(item.get("name").is_none());
    item.insert("name", s("old"));
    item.insert("other", n("1"));
    item.insert("name", s("new"));
    assert!(item.get("name").unwrap().same(&s("new")));
    assert!(item.get("other").unwrap().same(&n("1")));
    assert!(item.get("nam").is_none());
    let copy = item.duplicate();
    assert!(copy.get("name").unwrap().same(&s("new")));
    assert!(copy.get("other").unwrap().same(&n("1")));
}

#[test]
fn item_read_reports_missing_and_mismatch() {
    let item = message_item();
    assert_eq!(item.s("message", "sender_name").unwrap(), "ann");
    assert_eq!(item.n("message", "room_id").unwrap(), "42");
    let e = item.s("message", "nope").unwrap_err();
    assert_eq!(e.kind, ErrorKind::FieldMissing);
    assert_eq!(e.debug.as_deref(), Some("Could not index message by nope"));
    let e = item.n("message", "sender_name").unwrap_err();
    assert_eq!(e.kind, ErrorKind::TypeMismatch);
    let e = item.s("message", "room_id").unwrap_err();
    assert_eq!(e.kind, ErrorKind::TypeMismatch);
    assert_eq!(e.debug.as_deref(), Some("Error unwrapping AttributeValue N(42)"));
}

#[test]
fn keys_follow_the_layout() {
    let key = message_key_of("42", "2023-01-01T00:00:00Z");
    assert!(key.get("room_id").unwrap().same(&n("42")));
    assert!(key.get("sort").unwrap().same(&s("message.2023-01-01T00:00:00Z")));
    assert_eq!(key.attributes.len(), 2);
    let key = room_key_of("42");
    assert!(key.get("room_id").unwrap().same(&n("42")));
    assert!(key.get("sort").unwrap().same(&s("room")));
    assert_eq!(key.attributes.len(), 2);
    let key = user_key_of("7");
    assert!(key.get("user_id").unwrap().same(&n("7")));
    assert_eq!(key.attributes.len(), 1);
}

#[test]
fn message_round_trip() {
    let record = MessageRecord {
        room_id: "42".to_string(),
        date_time: "2023-01-01T00:00:00Z".to_string(),
        sender_id: "7".to_string(),
        sender_name: "ann".to_string(),
        message: "hello, world".to_string(),
    };
    let item = record.to_item();
    assert!(item.get("room_id").unwrap().same(&n("42")));
    assert!(item.get("sort").unwrap().same(&s("message.2023-01-01T00:00:00Z")));
    assert!(item.get("sender_id").unwrap().same(&n("7")));
    assert!(item.get("sender_name").unwrap().same(&s("ann")));
    assert!(item.get("message").unwrap().same(&s("hello, world")));
    let back = MessageRecord::from_item(&item).unwrap();
    assert_eq!(back.room_id, record.room_id);
    assert_eq!(back.date_time, record.date_time);
    assert_eq!(back.sender_id, record.sender_id);
    assert_eq!(back.sender_name, record.sender_name);
    assert_eq!(back.message, record.message);
}

#[test]
fn room_round_trip() {
    let record = RoomRecord { room_id: "42".to_string(), name: "lobby".to_string() };
    let item = record.to_item();
    assert!(item.get("room_id").unwrap().same(&n("42")));
    assert!(item.get("sort").unwrap().same(&s("room")));
    assert!(item.get("name").unwrap().same(&s("lobby")));
    let back = RoomRecord::from_item(&item).unwrap();
    assert_eq!(back.room_id, "42");
    assert_eq!(back.name, "lobby");
}

#[test]
fn user_round_trip() {
    let record = UserRecord { user_id: "7".to_string(), name: "ann".to_string() };
    let item = record.to_item();
    assert!(item.get("user_id").unwrap().same(&n("7")));
    assert!(item.get("name").unwrap().same(&s("ann")));
    let back = UserRecord::from_item(&item).unwrap();
    assert_eq!(back.user_id, "7");
    assert_eq!(back.name, "ann");
}

#[test]
fn round_trip_of_empty_and_odd_text() {
    let record = MessageRecord {
        room_id: String::new(),
        date_time: String::new(),
        sender_id: String::new(),
        sender_name: "é,ü".to_string(),
        message: String::new(),
    };
    let back = MessageRecord::from_item(&record.to_item()).unwrap();
    assert_eq!(back.room_id, "");
    assert_eq!(back.date_time, "");
    assert_eq!(back.sender_name, "é,ü");
    assert_eq!(back.message, "");
}

#[test]
fn decode_message_reports_the_first_missing_attribute() {
    let item = message_item();
    for name in ["room_id", "sort", "sender_id", "sender_name", "message"] {
        let e = MessageRecord::from_item(&without(&item, name)).unwrap_err();
        assert_eq!(e.kind, ErrorKind::FieldMissing);
        assert_eq!(e.debug, Some(format!("Could not index message by {}", name)));
        assert_eq!(e.display, "Internal server error");
    }
    let e = MessageRecord::from_item(&Item::new()).unwrap_err();
    assert_eq!(e.debug.as_deref(), Some("Could not index message by room_id"));
}

#[test]
fn decode_message_reports_a_wrong_tag() {
    let mut item = message_item();
    item.insert("room_id", s("42"));
    let e = MessageRecord::from_item(&item).unwrap_err();
    assert_eq!(e.kind, ErrorKind::TypeMismatch);
    let mut item = message_item();
    item.insert("message", n("1"));
    assert_eq!(MessageRecord::from_item(&item).unwrap_err().kind, ErrorKind::TypeMismatch);
    let mut item = message_item();
    item.insert("sender_name", AttributeValue::Other);
    assert_eq!(MessageRecord::from_item(&item).unwrap_err().kind, ErrorKind::TypeMismatch);
}

#[test]
fn decode_message_wants_the_prefix_of_messages() {
    let mut item = message_item();
    item.insert("sort", s("room"));
    let e = MessageRecord::from_item(&item).unwrap_err();
    assert_eq!(e.kind, ErrorKind::TypeMismatch);
    assert_eq!(e.debug.as_deref(), Some("Error unwrapping AttributeValue S(room)"));
    let mut item = message_item();
    item.insert("sort", s("message"));
    assert_eq!(MessageRecord::from_item(&item).unwrap_err().kind, ErrorKind::TypeMismatch);
    let mut item = message_item();
    item.insert("sort", s("message."));
    assert_eq!(MessageRecord::from_item(&item).unwrap().date_time, "");
}

#[test]
fn decode_room_and_user_report_errors() {
    let mut item = Item::new();
    item.insert("name", s("lobby"));
    let e = RoomRecord::from_item(&item).unwrap_err();
    assert_eq!(e.kind, ErrorKind::FieldMissing);
    assert_eq!(e.debug.as_deref(), Some("Could not index room by room_id"));
    let mut item = Item::new();
    item.insert("room_id", n("1"));
    let e = RoomRecord::from_item(&item).unwrap_err();
    assert_eq!(e.debug.as_deref(), Some("Could not index room by name"));
    let mut item = Item::new();
    item.insert("user_id", s("1"));
    item.insert("name", s("ann"));
    let e = UserRecord::from_item(&item).unwrap_err();
    assert_eq!(e.kind, ErrorKind::TypeMismatch);
    let e = UserRecord::from_item(&Item::new()).unwrap_err();
    assert_eq!(e.debug.as_deref(), Some("Could not index user by user_id"));
}

#[test]
fn decode_room_needs_no_sort_key() {
    let mut item = Item::new();
    item.insert("room_id", n("42"));
    item.insert("name", s("lobby"));
    let room = RoomRecord::from_item(&item).unwrap();
    assert_eq!(room.room_id, "42");
    assert_eq!(room.name, "lobby");
}
