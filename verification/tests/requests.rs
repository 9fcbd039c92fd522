use api::attribute::{AttributeValue, Item};
use api::db::{AfterBatch, AfterGet, AfterPut, AfterQuery};
use api::errors::{ChatError, ErrorKind};
use api::handlers::{
    after_batch, after_get, after_put, after_query, get_message_by_id, get_messages, get_rooms,
    get_user, put_message, put_message_with, put_room, put_room_with, sign_in, sign_up,
    sign_up_with, Answer, Progress, Then,
};
use api::models::{MessageRequest, NameRequest};
use api::store::{BatchGetItem, GetItem, PutItem, Query, QueryOutput};

const HOST: &str = "api";
const ID: &str = "12345678901234567890123456789012345678";

fn s(text: &str) -> AttributeValue {
    AttributeValue::S(text.to_string())
}

fn n(text: &str) -> AttributeValue {
    AttributeValue::N(text.to_string())
}

fn named(name: &str) -> NameRequest {
    NameRequest { name: name.to_string() }
}

fn user_row(user_id: &str, name: &str) -> Item {
    let mut item = Item::new();
    item.insert("user_id", n(user_id));
    item.insert("name", s(name));
    item
}

fn room_row(room_id: &str, name: &str) -> Item {
    let mut item = Item::new();
    item.insert("room_id", n(room_id));
    item.insert("name", s(name));
    item
}

fn message_row(room_id: &str, date_time: &str, body: &str) -> Item {
    let mut item = Item::new();
    item.insert("room_id", n(room_id));
    item.insert("sort", s(&format!("message.{}", date_time)));
    item.insert("sender_id", n("7"));
    item.insert("sender_name", s("ann"));
    item.insert("message", s(body));
    item
}

fn ledger_row(csv: &str) -> Item {
    let mut item = Item::new();
    item.insert("room_ids", s(csv));
    item
}

fn want_get(progress: Progress) -> (GetItem, AfterGet, Then) {
    match progress {
        Progress::GetItem(call, state, then) => (call, state, then),
        other => panic!("not a get: {:?}", other),
    }
}

fn want_put(progress: Progress) -> (PutItem, AfterPut, Then) {
    match progress {
        Progress::PutItem(call, state, then) => (call, state, then),
        other => panic!("not a put: {:?}", other),
    }
}

fn want_query(progress: Progress) -> (Query, AfterQuery, Then) {
    match progress {
        Progress::Query(call, state, then) => (call, state, then),
        other => panic!("not a query: {:?}", other),
    }
}

fn want_batch(progress: Progress) -> (BatchGetItem, AfterBatch, Then) {
    match progress {
        Progress::BatchGetItem(call, state, then) => (call, state, then),
        other => panic!("not a batch: {:?}", other),
    }
}

fn want_done(progress: Progress) -> Result<Answer, ChatError> {
    match progress {
        Progress::Done(result) => result,
        other => panic!("not done: {:?}", other),
    }
}

fn none_found() -> QueryOutput {
    QueryOutput { count: 0, items: Some(vec![]) }
}

fn one_found(user_id: &str, name: &str) -> QueryOutput {
    QueryOutput { count: 1, items: Some(vec![user_row(user_id, name)]) }
}

#[test]
fn sign_up_refuses_the_empty_name() {
    let e = want_done(sign_up_with(&named(""), Some(ID.to_string()))).unwrap_err();
    assert_eq!(e.kind, ErrorKind::ValidationError);
    assert_eq!(e.display, "Name is empty");
    let e = want_done(sign_up(&named(""))).unwrap_err();
    assert_eq!(e.display, "Name is empty");
}

#[test]
fn sign_up_refuses_a_taken_name() {
    let (call, state, then) = want_query(sign_up_with(&named("ann"), Some(ID.to_string())));
    assert_eq!(call.table_name, "users");
    assert_eq!(call.index_name.as_deref(), Some("name-index"));
    assert!(call.expression_attribute_values.get(":n").unwrap().same(&s("ann")));
    let e = want_done(after_query(state, then, Ok(one_found("7", "ann")), HOST)).unwrap_err();
    assert_eq!(e.kind, ErrorKind::ValidationError);
    assert_eq!(e.display, "Name already registered");
}

#[test]
fn sign_up_writes_the_user_of_a_free_name() {
    let (_, state, then) = want_query(sign_up_with(&named("ann"), Some(ID.to_string())));
    let (call, state, then) = want_put(after_query(state, then, Ok(none_found()), HOST));
    assert_eq!(call.table_name, "users");
    assert!(call.item.get("user_id").unwrap().same(&n(ID)));
    assert!(call.item.get("name").unwrap().same(&s("ann")));
    match want_done(after_put(state, then, Ok(()), HOST)).unwrap() {
        Answer::User(user) => {
            assert_eq!(user.id, format!("http://api/users/{}", ID));
            assert_eq!(user.properties.name, "ann");
        }
        other => panic!("{:?}", other),
    }
}

#[test]
fn sign_up_takes_a_failed_lookup_for_a_free_name() {
    let (_, state, then) = want_query(sign_up_with(&named("ann"), Some(ID.to_string())));
    let (call, _, _) = want_put(after_query(state, then, Err("down".to_string()), HOST));
    assert_eq!(call.table_name, "users");
}

#[test]
fn sign_up_without_an_identifier_fails_when_it_needs_one() {
    let (_, state, then) = want_query(sign_up_with(&named("ann"), None));
    let e = want_done(after_query(state, then, Ok(none_found()), HOST)).unwrap_err();
    assert_eq!(e.kind, ErrorKind::StorageError);
    assert_eq!(e.display, "Internal server error");
    assert_eq!(e.debug.as_deref(), Some("The number drawn is too short for an identifier"));
    let (_, state, then) = want_query(sign_up_with(&named("ann"), None));
    let e = want_done(after_query(state, then, Ok(one_found("7", "ann")), HOST)).unwrap_err();
    assert_eq!(e.display, "Name already registered");
}

#[test]
fn sign_up_that_cannot_write_fails() {
    let (_, state, then) = want_query(sign_up_with(&named("ann"), Some(ID.to_string())));
    let (_, state, then) = want_put(after_query(state, then, Ok(none_found()), HOST));
    let e = want_done(after_put(state, then, Err("throttled".to_string()), HOST)).unwrap_err();
    assert_eq!(e.kind, ErrorKind::StorageError);
    assert_eq!(e.debug.as_deref(), Some("throttled"));
}

#[test]
fn sign_up_draws_an_identifier() {
    let mut seen = Vec::new();
    for _ in 0..40 {
        let (_, state, then) = want_query(sign_up(&named("ann")));
        match after_query(state, then, Ok(none_found()), HOST) {
            Progress::PutItem(call, _, _) => {
                let id = match call.item.get("user_id").unwrap() {
                    AttributeValue::N(id) => id.clone(),
                    other => panic!("{:?}", other),
                };
                assert_eq!(id.len(), 38);
                assert!(id.chars().all(|c| c.is_ascii_digit()));
                seen.push(id);
            }
            Progress::Done(Err(e)) => {
                assert_eq!(
                    e.debug.as_deref(),
                    Some("The number drawn is too short for an identifier")
                );
            }
            other => panic!("{:?}", other),
        }
    }
    assert!(seen.len() > 20);
    assert!(seen.iter().any(|id| id != &seen[0]));
}

#[test]
fn sign_in_hands_out_the_user_of_the_name() {
    let e = want_done(sign_in(&named(""))).unwrap_err();
    assert_eq!(e.display, "Name is empty");
    let (call, state, then) = want_query(sign_in(&named("ann")));
    assert_eq!(call.index_name.as_deref(), Some("name-index"));
    match want_done(after_query(state, then, Ok(one_found("7", "ann")), HOST)).unwrap() {
        Answer::User(user) => {
            assert_eq!(user.id, "http://api/users/7");
            assert_eq!(user.properties.name, "ann");
        }
        other => panic!("{:?}", other),
    }
    let (_, state, then) = want_query(sign_in(&named("ann")));
    let e = want_done(after_query(state, then, Ok(none_found()), HOST)).unwrap_err();
    assert_eq!(e.kind, ErrorKind::AmbiguousResult);
}

#[test]
fn get_user_reads_the_identifier_behind_the_last_stroke() {
    let e = want_done(get_user("42")).unwrap_err();
    assert_eq!(e.kind, ErrorKind::ValidationError);
    assert_eq!(e.display, "Invalid user_id");
    let (call, state, then) = want_get(get_user("http://api/users/7"));
    assert_eq!(call.table_name, "users");
    assert!(call.key.get("user_id").unwrap().same(&n("7")));
    match want_done(after_get(state, then, Ok(Some(user_row("7", "ann"))), "chat")).unwrap() {
        Answer::User(user) => {
            assert_eq!(user.id, "http://chat/users/7");
            assert_eq!(user.properties.name, "ann");
        }
        other => panic!("{:?}", other),
    }
    let (_, state, then) = want_get(get_user("/7"));
    let e = want_done(after_get(state, then, Ok(None), HOST)).unwrap_err();
    assert_eq!(e.kind, ErrorKind::NotFound);
    assert_eq!(e.display, "User does not exist");
}

#[test]
fn get_message_by_id_hands_out_the_message() {
    let (call, state, then) = want_get(get_message_by_id("42", "2023-01-01T00:00:00Z"));
    assert!(call.key.get("sort").unwrap().same(&s("message.2023-01-01T00:00:00Z")));
    let found = message_row("42", "2023-01-01T00:00:00Z", "hello");
    match want_done(after_get(state, then, Ok(Some(found)), HOST)).unwrap() {
        Answer::Message(message) => {
            assert_eq!(message.id, "http://api/rooms/42/messages/message.2023-01-01T00:00:00Z");
            assert_eq!(message.properties.date_time, "2023-01-01T00:00:00Z");
            assert_eq!(message.properties.sender_name, "ann");
            assert_eq!(message.properties.message, "hello");
            assert_eq!(message.properties.room, "http://api/rooms/42");
            assert_eq!(message.properties.user, "http://api/users/7");
        }
        other => panic!("{:?}", other),
    }
}

#[test]
fn get_messages_hands_out_a_page() {
    let (call, state, then) = want_query(get_messages("42"));
    assert_eq!(call.limit, Some(50));
    assert_eq!(call.scan_index_forward, Some(false));
    let reply = QueryOutput {
        count: 2,
        items: Some(vec![message_row("42", "b", "second"), message_row("42", "a", "first")]),
    };
    match want_done(after_query(state, then, Ok(reply), HOST)).unwrap() {
        Answer::Messages(messages) => {
            assert_eq!(messages.len(), 2);
            assert_eq!(messages[0].id, "http://api/rooms/42/messages/message.b");
            assert_eq!(messages[0].properties.message, "second");
            assert_eq!(messages[1].id, "http://api/rooms/42/messages/message.a");
        }
        other => panic!("{:?}", other),
    }
}

#[test]
fn put_message_checks_the_request_first() {
    let empty = MessageRequest { message: String::new(), sender_id: "a/7".to_string() };
    let e = want_done(put_message_with("42", &empty, Some(ID.to_string()), "t".to_string()))
        .unwrap_err();
    assert_eq!(e.kind, ErrorKind::ValidationError);
    assert_eq!(e.display, "Name is empty");
    let lost = MessageRequest { message: "hi".to_string(), sender_id: "7".to_string() };
    let e = want_done(put_message_with("42", &lost, Some(ID.to_string()), "t".to_string()))
        .unwrap_err();
    assert_eq!(e.display, "Invalid sender_id");
    assert_eq!(e.kind, ErrorKind::ValidationError);
    assert_eq!(e.debug, None);
}

#[test]
fn put_message_refuses_a_bad_request_whatever_was_drawn() {
    let empty = MessageRequest { message: String::new(), sender_id: "a/7".to_string() };
    let e = want_done(put_message_with("42", &empty, None, "t".to_string())).unwrap_err();
    assert_eq!(e.kind, ErrorKind::ValidationError);
    assert_eq!(e.display, "Name is empty");
    let lost = MessageRequest { message: "hi".to_string(), sender_id: "7".to_string() };
    let e = want_done(put_message_with("42", &lost, None, "t".to_string())).unwrap_err();
    assert_eq!(e.kind, ErrorKind::ValidationError);
    assert_eq!(e.display, "Invalid sender_id");
    assert_eq!(e.debug, None);
    for _ in 0..40 {
        let e = want_done(put_message("42", &empty)).unwrap_err();
        assert_eq!(e.kind, ErrorKind::ValidationError);
        assert_eq!(e.display, "Name is empty");
        let e = want_done(put_message("42", &lost)).unwrap_err();
        assert_eq!(e.kind, ErrorKind::ValidationError);
        assert_eq!(e.display, "Invalid sender_id");
    }
}

#[test]
fn put_message_without_an_identifier_asks_nothing_of_the_store() {
    let request = MessageRequest { message: "hi".to_string(), sender_id: "u/7".to_string() };
    let e = want_done(put_message_with("42", &request, None, "t".to_string())).unwrap_err();
    assert_eq!(e.kind, ErrorKind::StorageError);
    assert_eq!(e.display, "Internal server error");
    assert_eq!(e.debug.as_deref(), Some("The number drawn is too short for an identifier"));
}

#[test]
fn put_message_looks_up_the_sender_posts_and_bumps() {
    let request =
        MessageRequest { message: "hello".to_string(), sender_id: "http://api/users/7".to_string() };
    let first =
        put_message_with("42", &request, Some(ID.to_string()), "2023-01-01T00:00:00Z".to_string());
    let (call, state, then) = want_get(first);
    assert_eq!(call.table_name, "users");
    assert!(call.key.get("user_id").unwrap().same(&n("7")));
    let (call, state, then) =
        want_put(after_get(state, then, Ok(Some(user_row("7", "ann"))), HOST));
    assert_eq!(call.table_name, "messages");
    assert!(call.item.get("room_id").unwrap().same(&n("42")));
    assert!(call.item.get("sort").unwrap().same(&s("message.2023-01-01T00:00:00Z")));
    assert!(call.item.get("sender_id").unwrap().same(&n("7")));
    assert!(call.item.get("sender_name").unwrap().same(&s("ann")));
    assert!(call.item.get("message").unwrap().same(&s("hello")));
    let (call, state, then) = want_get(after_put(state, then, Ok(()), HOST));
    assert!(call.key.get("sort").unwrap().same(&s("active_rooms")));
    let (call, state, then) =
        want_put(after_get(state, then, Ok(Some(ledger_row("42,43"))), HOST));
    assert!(call.item.get("room_ids").unwrap().same(&s("43,42")));
    match want_done(after_put(state, then, Ok(()), HOST)).unwrap() {
        Answer::Message(message) => {
            assert_eq!(message.id, format!("http://api/rooms/42/messages/{}", ID));
            assert_eq!(message.properties.date_time, "2023-01-01T00:00:00Z");
            assert_eq!(message.properties.sender_name, "ann");
            assert_eq!(message.properties.message, "hello");
            assert_eq!(message.properties.room, "http://api/rooms/42");
            assert_eq!(message.properties.user, "http://api/users/7");
        }
        other => panic!("{:?}", other),
    }
}

#[test]
fn put_message_of_an_unknown_sender_posts_nothing() {
    let request = MessageRequest { message: "hello".to_string(), sender_id: "u/7".to_string() };
    let (_, state, then) =
        want_get(put_message_with("42", &request, Some(ID.to_string()), "t".to_string()));
    let e = want_done(after_get(state, then, Ok(None), HOST)).unwrap_err();
    assert_eq!(e.kind, ErrorKind::NotFound);
    assert_eq!(e.display, "User does not exist");
}

#[test]
fn put_message_stamps_and_numbers_the_message() {
    let request = MessageRequest { message: "hello".to_string(), sender_id: "u/7".to_string() };
    let mut begun = 0;
    for _ in 0..40 {
        match put_message("42", &request) {
            Progress::GetItem(_, _, Then::PostMessage { room_id, id, draft }) => {
                assert_eq!(room_id, "42");
                assert_eq!(id.len(), 38);
                assert_eq!(draft.sender_id, "7");
                assert_eq!(draft.message, "hello");
                let stamp = &draft.date_time;
                assert!(stamp.len() >= 20, "{:?}", stamp);
                assert_eq!(&stamp[4..5], "-");
                assert_eq!(&stamp[10..11], "T");
                assert!(stamp.ends_with("+00:00"));
                assert!(&stamp[0..4] >= "2024");
                begun += 1;
            }
            Progress::Done(Err(e)) => {
                assert_eq!(
                    e.debug.as_deref(),
                    Some("The number drawn is too short for an identifier")
                );
            }
            other => panic!("{:?}", other),
        }
    }
    assert!(begun > 20);
}

#[test]
fn get_rooms_of_an_empty_ledger_asks_for_no_room() {
    let (call, state, then) = want_get(get_rooms());
    assert!(call.key.get("sort").unwrap().same(&s("active_rooms")));
    match want_done(after_get(state, then, Ok(None), HOST)).unwrap() {
        Answer::Rooms(rooms) => assert!(rooms.is_empty()),
        other => panic!("{:?}", other),
    }
}

#[test]
fn get_rooms_hands_out_the_rooms_of_the_ledger() {
    let (_, state, then) = want_get(get_rooms());
    let (call, state, then) =
        want_batch(after_get(state, then, Ok(Some(ledger_row("2,1"))), HOST));
    assert_eq!(call.keys.len(), 2);
    let reply = vec![room_row("1", "one"), room_row("2", "two")];
    match want_done(after_batch(state, then, Ok(Some(reply)), HOST)).unwrap() {
        Answer::Rooms(rooms) => {
            assert_eq!(rooms.len(), 2);
            assert_eq!(rooms[0].id, "http://api/rooms/1");
            assert_eq!(rooms[0].properties.name, "one");
            assert_eq!(rooms[0].properties.messages, "http://api/rooms/1/messages");
            assert_eq!(rooms[1].id, "http://api/rooms/2");
        }
        other => panic!("{:?}", other),
    }
}

#[test]
fn put_room_writes_bumps_and_hands_out_the_room() {
    let e = want_done(put_room_with(&named("lobby"), None)).unwrap_err();
    assert_eq!(e.debug.as_deref(), Some("The number drawn is too short for an identifier"));
    let (call, state, then) = want_put(put_room_with(&named("lobby"), Some(ID.to_string())));
    assert!(call.item.get("room_id").unwrap().same(&n(ID)));
    assert!(call.item.get("sort").unwrap().same(&s("room")));
    assert!(call.item.get("name").unwrap().same(&s("lobby")));
    let (_, state, then) = want_get(after_put(state, then, Ok(()), HOST));
    let (call, state, then) = want_put(after_get(state, then, Ok(Some(ledger_row("7"))), HOST));
    assert!(call.item.get("room_ids").unwrap().same(&s(&format!("7,{}", ID))));
    match want_done(after_put(state, then, Ok(()), HOST)).unwrap() {
        Answer::Room(room) => {
            assert_eq!(room.id, format!("http://api/rooms/{}", ID));
            assert_eq!(room.properties.name, "lobby");
            assert_eq!(room.properties.messages, format!("http://api/rooms/{}/messages", ID));
        }
        other => panic!("{:?}", other),
    }
}

#[test]
fn put_room_takes_any_name() {
    let (call, _, _) = want_put(put_room_with(&named(""), Some(ID.to_string())));
    assert!(call.item.get("name").unwrap().same(&s("")));
    let mut begun = 0;
    for _ in 0..40 {
        if let Progress::PutItem(call, _, _) = put_room(&named("lobby")) {
            assert!(call.item.get("name").unwrap().same(&s("lobby")));
            begun += 1;
        }
    }
    assert!(begun > 20);
}

#[test]
fn an_outcome_that_does_not_fit_ends_the_request() {
    let progress = after_get(AfterGet::Message, Then::AnswerUser, Ok(Some(message_row("1", "t", "x"))), HOST);
    let e = want_done(progress).unwrap_err();
    assert_eq!(e.kind, ErrorKind::StorageError);
    assert_eq!(e.display, "Internal server error");
    assert_eq!(e.debug.as_deref(), Some("The operation ended with what the request cannot use"));
}
