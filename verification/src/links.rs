//! The addresses of what the service hands out, and the records of the
//! store as objects that carry them.

use crate::models::{
    Message, MessagePropertiesView, Object, ObjectView, Room, RoomPropertiesView, User,
    UserPropertiesView,
};
use crate::records::{
    MessageRecord, MessageView, RoomRecord, RoomView, UserRecord, message_prefix,
};
use crate::text::{join2, join3};
use vstd::prelude::*;
use vstd::string::*;

verus! {

/// The address of the user `user_id` on the host `hostname`.
pub open spec fn user_address(hostname: Seq<char>, user_id: Seq<char>) -> Seq<char> {
    "http://"@ + hostname + "/users/"@ + user_id
}

/// The address of the room `room_id`.
pub open spec fn room_address(hostname: Seq<char>, room_id: Seq<char>) -> Seq<char> {
    "http://"@ + hostname + "/rooms/"@ + room_id
}

/// The address of the messages of the room `room_id`.
pub open spec fn messages_address(hostname: Seq<char>, room_id: Seq<char>) -> Seq<char> {
    room_address(hostname, room_id) + "/messages"@
}

/// The address of the message `message_id` of the room `room_id`.
pub open spec fn message_address(hostname: Seq<char>, room_id: Seq<char>, message_id: Seq<char>)
    -> Seq<char> {
    messages_address(hostname, room_id) + "/"@ + message_id
}

/// The address of the user `user_id`.
pub fn user_url(hostname: &str, user_id: &str) -> (url: String)
    ensures
        url@ == user_address(hostname@, user_id@),
{
    let mut url = join3("http://", hostname, "/users/");
    url.append(user_id);
    url
}

/// The address of the room `room_id`.
pub fn room_url(hostname: &str, room_id: &str) -> (url: String)
    ensures
        url@ == room_address(hostname@, room_id@),
{
    let mut url = join3("http://", hostname, "/rooms/");
    url.append(room_id);
    url
}

/// The address of the messages of the room `room_id`.
pub fn messages_url(hostname: &str, room_id: &str) -> (url: String)
    ensures
        url@ == messages_address(hostname@, room_id@),
{
    let mut url = room_url(hostname, room_id);
    url.append("/messages");
    url
}

/// The address of the message `message_id` of the room `room_id`.
pub fn message_url(hostname: &str, room_id: &str, message_id: &str) -> (url: String)
    ensures
        url@ == message_address(hostname@, room_id@, message_id@),
{
    let mut url = messages_url(hostname, room_id);
    url.append("/");
    url.append(message_id);
    url
}

/// The user `user_id` named `name`, as the host `hostname` hands them out.
pub open spec fn user_shown(hostname: Seq<char>, user_id: Seq<char>, name: Seq<char>) -> ObjectView<
    UserPropertiesView,
> {
    ObjectView { id: user_address(hostname, user_id), properties: UserPropertiesView { name } }
}

/// The room `room_id` named `name`, as handed out: with its own address and
/// that of its messages.
pub open spec fn room_shown(hostname: Seq<char>, room_id: Seq<char>, name: Seq<char>) -> ObjectView<
    RoomPropertiesView,
> {
    ObjectView {
        id: room_address(hostname, room_id),
        properties: RoomPropertiesView { name, messages: messages_address(hostname, room_id) },
    }
}

/// A message of the store, as handed out. Its address ends with its sort
/// key, the prefix of all messages and its time; it points at its room and
/// at its sender.
pub open spec fn message_shown(hostname: Seq<char>, m: MessageView) -> ObjectView<
    MessagePropertiesView,
> {
    ObjectView {
        id: message_address(hostname, m.room_id, message_prefix() + m.date_time),
        properties: MessagePropertiesView {
            date_time: m.date_time,
            sender_name: m.sender_name,
            message: m.message,
            room: room_address(hostname, m.room_id),
            user: user_address(hostname, m.sender_id),
        },
    }
}

/// The rooms `rooms`, as handed out, in the same order.
pub open spec fn rooms_shown(hostname: Seq<char>, rooms: Seq<RoomView>) -> Seq<
    ObjectView<RoomPropertiesView>,
> {
    Seq::new(rooms.len(), |i: int| room_shown(hostname, rooms[i].room_id, rooms[i].name))
}

/// The messages `messages`, as handed out, in the same order.
pub open spec fn messages_shown(hostname: Seq<char>, messages: Seq<MessageView>) -> Seq<
    ObjectView<MessagePropertiesView>,
> {
    Seq::new(messages.len(), |i: int| message_shown(hostname, messages[i]))
}

/// The user `user_id` named `name`, as handed out.
pub fn user_object(hostname: &str, user_id: &str, name: &str) -> (object: User)
    ensures
        object@ == user_shown(hostname@, user_id@, name@),
{
    Object::user(user_url(hostname, user_id).as_str(), name)
}

/// A user of the store, as handed out.
pub fn user_of_record(hostname: &str, user: &UserRecord) -> (object: User)
    ensures
        object@ == user_shown(hostname@, user.user_id@, user.name@),
{
    user_object(hostname, user.user_id.as_str(), user.name.as_str())
}

/// The room `room_id` named `name`, as handed out.
pub fn room_object(hostname: &str, room_id: &str, name: &str) -> (object: Room)
    ensures
        object@ == room_shown(hostname@, room_id@, name@),
{
    Object::room(
        room_url(hostname, room_id).as_str(),
        name,
        messages_url(hostname, room_id).as_str(),
    )
}

/// A room of the store, as handed out.
pub fn room_of_record(hostname: &str, room: &RoomRecord) -> (object: Room)
    ensures
        object@ == room_shown(hostname@, room.room_id@, room.name@),
{
    room_object(hostname, room.room_id.as_str(), room.name.as_str())
}

/// The rooms of the store, as handed out, in the same order.
pub fn rooms_of_records(hostname: &str, rooms: &Vec<RoomRecord>) -> (objects: Vec<Room>)
    ensures
        objects.deep_view() == rooms_shown(hostname@, rooms.deep_view()),
{
    let mut objects: Vec<Room> = Vec::new();
    let mut i: usize = 0;
    while i < rooms.len()
        invariant
            0 <= i <= rooms.len(),
            objects.len() == i,
            forall|j: int|
                0 <= j < i ==> (#[trigger] objects[j])@ == room_shown(
                    hostname@,
                    rooms[j].room_id@,
                    rooms[j].name@,
                ),
        decreases rooms.len() - i,
    {
        objects.push(room_of_record(hostname, &rooms[i]));
        i += 1;
    }
    assert(objects.deep_view() =~= rooms_shown(hostname@, rooms.deep_view()));
    objects
}

/// A message of the store, as handed out.
pub fn message_of_record(hostname: &str, message: &MessageRecord) -> (object: Message)
    ensures
        object@ == message_shown(hostname@, message@),
{
    let sort = join2("message.", message.date_time.as_str());
    Object::message(
        message_url(hostname, message.room_id.as_str(), sort.as_str()).as_str(),
        message.date_time.as_str(),
        message.sender_name.as_str(),
        message.message.as_str(),
        room_url(hostname, message.room_id.as_str()).as_str(),
        user_url(hostname, message.sender_id.as_str()).as_str(),
    )
}

/// The messages of the store, as handed out, in the same order.
pub fn messages_of_records(hostname: &str, messages: &Vec<MessageRecord>) -> (objects: Vec<Message>)
    ensures
        objects.deep_view() == messages_shown(hostname@, messages.deep_view()),
{
    let mut objects: Vec<Message> = Vec::new();
    let mut i: usize = 0;
    while i < messages.len()
        invariant
            0 <= i <= messages.len(),
            objects.len() == i,
            forall|j: int|
                0 <= j < i ==> (#[trigger] objects[j])@ == message_shown(hostname@, messages[j]@),
        decreases messages.len() - i,
    {
        objects.push(message_of_record(hostname, &messages[i]));
        i += 1;
    }
    assert(objects.deep_view() =~= messages_shown(hostname@, messages.deep_view()));
    objects
}

} // verus!
