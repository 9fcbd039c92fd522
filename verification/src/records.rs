//! The records of the service and their form in the store. Rooms and
//! messages share one table: the partition key is the room's identifier,
//! and the sort key tells a room (`room`) from a message (`message.` and the
//! message's time). Users have a table of their own.

use crate::attribute::{AttributeValue, Item, Value, mismatch_view, read_n, read_s};
use crate::errors::{ChatError, ChatErrorView};
use crate::text::{begins_with, join2, skip_chars, starts_with};
use vstd::prelude::*;
use vstd::string::*;

verus! {

/// What the sort key of every message begins with.
pub open spec fn message_prefix() -> Seq<char> {
    "message."@
}

/// The sort key of every room.
pub open spec fn room_sort() -> Seq<char> {
    "room"@
}

/// A message as the store holds it.
#[derive(Debug)]
pub struct MessageRecord {
    /// The room that the message was posted to.
    pub room_id: String,
    /// When it was posted; this also tells the messages of a room apart.
    pub date_time: String,
    /// Who posted it.
    pub sender_id: String,
    /// The name of who posted it, as it was then.
    pub sender_name: String,
    /// What was said.
    pub message: String,
}

/// A `MessageRecord` as plain values.
pub struct MessageView {
    pub room_id: Seq<char>,
    pub date_time: Seq<char>,
    pub sender_id: Seq<char>,
    pub sender_name: Seq<char>,
    pub message: Seq<char>,
}

impl View for MessageRecord {
    type V = MessageView;

    open spec fn view(&self) -> MessageView {
        MessageView {
            room_id: self.room_id@,
            date_time: self.date_time@,
            sender_id: self.sender_id@,
            sender_name: self.sender_name@,
            message: self.message@,
        }
    }
}

impl DeepView for MessageRecord {
    type V = MessageView;

    open spec fn deep_view(&self) -> MessageView {
        self@
    }
}

/// A room as the store holds it.
#[derive(Debug)]
pub struct RoomRecord {
    pub room_id: String,
    pub name: String,
}

/// A `RoomRecord` as plain values.
pub struct RoomView {
    pub room_id: Seq<char>,
    pub name: Seq<char>,
}

impl View for RoomRecord {
    type V = RoomView;

    open spec fn view(&self) -> RoomView {
        RoomView { room_id: self.room_id@, name: self.name@ }
    }
}

impl DeepView for RoomRecord {
    type V = RoomView;

    open spec fn deep_view(&self) -> RoomView {
        self@
    }
}

/// A user as the store holds it.
#[derive(Debug)]
pub struct UserRecord {
    pub user_id: String,
    pub name: String,
}

/// A `UserRecord` as plain values.
pub struct UserView {
    pub user_id: Seq<char>,
    pub name: Seq<char>,
}

impl View for UserRecord {
    type V = UserView;

    open spec fn view(&self) -> UserView {
        UserView { user_id: self.user_id@, name: self.name@ }
    }
}

impl DeepView for UserRecord {
    type V = UserView;

    open spec fn deep_view(&self) -> UserView {
        self@
    }
}

// ---------------------------------------------------------------------
// From records to items
// ---------------------------------------------------------------------

/// The key of a message: its room, and under `sort` the prefix of all
/// messages followed by the message's time.
pub open spec fn message_key(room_id: Seq<char>, date_time: Seq<char>) -> Map<Seq<char>, Value> {
    Map::empty().insert("room_id"@, Value::N(room_id)).insert(
        "sort"@,
        Value::S(message_prefix() + date_time),
    )
}

/// The item of a message.
pub open spec fn message_item(m: MessageView) -> Map<Seq<char>, Value> {
    message_key(m.room_id, m.date_time).insert("sender_id"@, Value::N(m.sender_id)).insert(
        "sender_name"@,
        Value::S(m.sender_name),
    ).insert("message"@, Value::S(m.message))
}

/// The key of a room.
pub open spec fn room_key(room_id: Seq<char>) -> Map<Seq<char>, Value> {
    Map::empty().insert("room_id"@, Value::N(room_id)).insert("sort"@, Value::S(room_sort()))
}

/// The item of a room.
pub open spec fn room_item(r: RoomView) -> Map<Seq<char>, Value> {
    room_key(r.room_id).insert("name"@, Value::S(r.name))
}

/// The key of a user.
pub open spec fn user_key(user_id: Seq<char>) -> Map<Seq<char>, Value> {
    Map::empty().insert("user_id"@, Value::N(user_id))
}

/// The item of a user.
pub open spec fn user_item(u: UserView) -> Map<Seq<char>, Value> {
    user_key(u.user_id).insert("name"@, Value::S(u.name))
}

/// The key of the message of the room `room_id` that was posted at
/// `date_time`.
pub fn message_key_of(room_id: &str, date_time: &str) -> (key: Item)
    ensures
        key@ == message_key(room_id@, date_time@),
{
    let mut key = Item::new();
    key.insert("room_id", AttributeValue::N(String::from_str(room_id)));
    key.insert("sort", AttributeValue::S(join2("message.", date_time)));
    key
}

/// The key of the room `room_id`.
pub fn room_key_of(room_id: &str) -> (key: Item)
    ensures
        key@ == room_key(room_id@),
{
    let mut key = Item::new();
    key.insert("room_id", AttributeValue::N(String::from_str(room_id)));
    key.insert("sort", AttributeValue::S(String::from_str("room")));
    key
}

/// The key of the user `user_id`.
pub fn user_key_of(user_id: &str) -> (key: Item)
    ensures
        key@ == user_key(user_id@),
{
    let mut key = Item::new();
    key.insert("user_id", AttributeValue::N(String::from_str(user_id)));
    key
}

// ---------------------------------------------------------------------
// From items to records
// ---------------------------------------------------------------------

/// What reading a message from an item gives. The attributes are read in
/// the order of the record; the first that is missing or of the wrong type
/// is the error. A sort key that does not begin as that of a message is of
/// the wrong type.
pub open spec fn decoded_message(item: Map<Seq<char>, Value>) -> Result<MessageView, ChatErrorView> {
    let source = "message"@;
    match read_n(item, source, "room_id"@) {
        Err(e) => Err(e),
        Ok(room_id) => match read_s(item, source, "sort"@) {
            Err(e) => Err(e),
            Ok(sort) => if !begins_with(sort, message_prefix()) {
                Err(mismatch_view(Value::S(sort)))
            } else {
                match read_n(item, source, "sender_id"@) {
                    Err(e) => Err(e),
                    Ok(sender_id) => match read_s(item, source, "sender_name"@) {
                        Err(e) => Err(e),
                        Ok(sender_name) => match read_s(item, source, "message"@) {
                            Err(e) => Err(e),
                            Ok(message) => Ok(
                                MessageView {
                                    room_id,
                                    date_time: sort.skip(message_prefix().len() as int),
                                    sender_id,
                                    sender_name,
                                    message,
                                },
                            ),
                        },
                    },
                }
            },
        },
    }
}

/// What reading a room from an item gives.
pub open spec fn decoded_room(item: Map<Seq<char>, Value>) -> Result<RoomView, ChatErrorView> {
    let source = "room"@;
    match read_n(item, source, "room_id"@) {
        Err(e) => Err(e),
        Ok(room_id) => match read_s(item, source, "name"@) {
            Err(e) => Err(e),
            Ok(name) => Ok(RoomView { room_id, name }),
        },
    }
}

/// What reading a user from an item gives.
pub open spec fn decoded_user(item: Map<Seq<char>, Value>) -> Result<UserView, ChatErrorView> {
    let source = "user"@;
    match read_n(item, source, "user_id"@) {
        Err(e) => Err(e),
        Ok(user_id) => match read_s(item, source, "name"@) {
            Err(e) => Err(e),
            Ok(name) => Ok(UserView { user_id, name }),
        },
    }
}

impl MessageRecord {
    /// The item that holds this message.
    pub fn to_item(&self) -> (item: Item)
        ensures
            item@ == message_item(self@),
    {
        let mut item = message_key_of(self.room_id.as_str(), self.date_time.as_str());
        item.insert("sender_id", AttributeValue::N(self.sender_id.clone()));
        item.insert("sender_name", AttributeValue::S(self.sender_name.clone()));
        item.insert("message", AttributeValue::S(self.message.clone()));
        item
    }

    /// The message that `item` holds.
    pub fn from_item(item: &Item) -> (r: Result<MessageRecord, ChatError>)
        ensures
            match r {
                Ok(m) => decoded_message(item@) == Ok::<MessageView, ChatErrorView>(m@),
                Err(e) => decoded_message(item@) == Err::<MessageView, ChatErrorView>(e@),
            },
    {
        let room_id = item.n("message", "room_id")?;
        let sort = item.s("message", "sort")?;
        if !starts_with(sort.as_str(), "message.") {
            return Err(AttributeValue::S(sort).mismatch());
        }
        proof {
            reveal_strlit("message.");
        }
        let date_time = skip_chars(sort.as_str(), 8);
        let sender_id = item.n("message", "sender_id")?;
        let sender_name = item.s("message", "sender_name")?;
        let message = item.s("message", "message")?;
        Ok(MessageRecord { room_id, date_time, sender_id, sender_name, message })
    }
}

impl RoomRecord {
    /// The item that holds this room.
    pub fn to_item(&self) -> (item: Item)
        ensures
            item@ == room_item(self@),
    {
        let mut item = room_key_of(self.room_id.as_str());
        item.insert("name", AttributeValue::S(self.name.clone()));
        item
    }

    /// The room that `item` holds.
    pub fn from_item(item: &Item) -> (r: Result<RoomRecord, ChatError>)
        ensures
            match r {
                Ok(room) => decoded_room(item@) == Ok::<RoomView, ChatErrorView>(room@),
                Err(e) => decoded_room(item@) == Err::<RoomView, ChatErrorView>(e@),
            },
    {
        let room_id = item.n("room", "room_id")?;
        let name = item.s("room", "name")?;
        Ok(RoomRecord { room_id, name })
    }
}

impl UserRecord {
    /// The item that holds this user.
    pub fn to_item(&self) -> (item: Item)
        ensures
            item@ == user_item(self@),
    {
        let mut item = user_key_of(self.user_id.as_str());
        item.insert("name", AttributeValue::S(self.name.clone()));
        item
    }

    /// The user that `item` holds.
    pub fn from_item(item: &Item) -> (r: Result<UserRecord, ChatError>)
        ensures
            match r {
                Ok(user) => decoded_user(item@) == Ok::<UserView, ChatErrorView>(user@),
                Err(e) => decoded_user(item@) == Err::<UserView, ChatErrorView>(e@),
            },
    {
        let user_id = item.n("user", "user_id")?;
        let name = item.s("user", "name")?;
        Ok(UserRecord { user_id, name })
    }
}

// ---------------------------------------------------------------------
// There and back
// ---------------------------------------------------------------------

/// The names of the attributes are told apart by their first letters or
/// their length.
pub proof fn lemma_names_differ()
    ensures
        "room_id"@ != "sort"@,
        "room_id"@ != "sender_id"@,
        "room_id"@ != "sender_name"@,
        "room_id"@ != "message"@,
        "room_id"@ != "name"@,
        "sort"@ != "sender_id"@,
        "sort"@ != "sender_name"@,
        "sort"@ != "message"@,
        "sort"@ != "name"@,
        "sender_id"@ != "sender_name"@,
        "sender_id"@ != "message"@,
        "sender_name"@ != "message"@,
        "user_id"@ != "name"@,
        "message."@.len() == 8,
{
    reveal_strlit("room_id");
    reveal_strlit("sort");
    reveal_strlit("sender_id");
    reveal_strlit("sender_name");
    reveal_strlit("message");
    reveal_strlit("name");
    reveal_strlit("user_id");
    reveal_strlit("message.");
    assert("room_id"@[0] != "sort"@[0]);
    assert("room_id"@[0] != "sender_id"@[0]);
    assert("room_id"@[0] != "sender_name"@[0]);
    assert("room_id"@[0] != "message"@[0]);
    assert("room_id"@[0] != "name"@[0]);
    assert("sort"@[1] != "sender_id"@[1]);
    assert("sort"@[1] != "sender_name"@[1]);
    assert("sort"@[0] != "message"@[0]);
    assert("sort"@[0] != "name"@[0]);
    assert("sender_id"@.len() != "sender_name"@.len());
    assert("sender_id"@[0] != "message"@[0]);
    assert("sender_name"@[0] != "message"@[0]);
    assert("user_id"@[0] != "name"@[0]);
}

/// The sort key of a message begins with the eight characters of the
/// prefix of all messages; what follows is the message's time.
pub proof fn lemma_message_sort_key(room_id: Seq<char>, date_time: Seq<char>)
    ensures
        message_key(room_id, date_time).contains_key("sort"@),
        message_key(room_id, date_time)["sort"@] == Value::S(message_prefix() + date_time),
        message_prefix().len() == 8,
        begins_with(message_prefix() + date_time, message_prefix()),
        (message_prefix() + date_time).skip(8) == date_time,
        message_key(room_id, date_time)["room_id"@] == Value::N(room_id),
{
    lemma_names_differ();
    let sort = message_prefix() + date_time;
    assert(sort.subrange(0, message_prefix().len() as int) =~= message_prefix());
    assert(sort.skip(8) =~= date_time);
}

/// A message that is written as an item and read back is the same message,
/// attribute for attribute.
pub proof fn lemma_message_round_trip(m: MessageView)
    ensures
        decoded_message(message_item(m)) == Ok::<MessageView, ChatErrorView>(m),
{
    lemma_names_differ();
    let sort = message_prefix() + m.date_time;
    assert(sort.subrange(0, message_prefix().len() as int) =~= message_prefix());
    assert(sort.skip(message_prefix().len() as int) =~= m.date_time);
}

/// A room that is written as an item and read back is the same room.
pub proof fn lemma_room_round_trip(r: RoomView)
    ensures
        decoded_room(room_item(r)) == Ok::<RoomView, ChatErrorView>(r),
{
    lemma_names_differ();
}

/// A user that is written as an item and read back is the same user.
pub proof fn lemma_user_round_trip(u: UserView)
    ensures
        decoded_user(user_item(u)) == Ok::<UserView, ChatErrorView>(u),
{
    lemma_names_differ();
}

} // verus!
