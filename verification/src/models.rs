//! What the service takes from its callers and hands to them: requests, and
//! objects that carry their own address.

use vstd::prelude::*;
use vstd::string::*;

verus! {

/// Something the service hands out: where it is found, and what it holds.
#[derive(Debug)]
pub struct Object<T> {
    /// The address of the object.
    pub id: String,
    pub properties: T,
}

/// An `Object` as plain values.
pub struct ObjectView<P> {
    pub id: Seq<char>,
    pub properties: P,
}

impl<T: View> View for Object<T> {
    type V = ObjectView<T::V>;

    open spec fn view(&self) -> ObjectView<T::V> {
        ObjectView { id: self.id@, properties: self.properties@ }
    }
}

impl<T: View> DeepView for Object<T> {
    type V = ObjectView<T::V>;

    open spec fn deep_view(&self) -> ObjectView<T::V> {
        self@
    }
}

/// The request to post a message.
#[derive(Debug)]
pub struct MessageRequest {
    pub message: String,
    /// The address of the user who posts it.
    pub sender_id: String,
}

/// A message that is handed out.
pub type Message = Object<MessageProperties>;

/// What a message holds.
#[derive(Debug)]
pub struct MessageProperties {
    pub date_time: String,
    pub sender_name: String,
    pub message: String,
    /// The address of the room.
    pub room: String,
    /// The address of the sender.
    pub user: String,
}

/// `MessageProperties` as plain values.
pub struct MessagePropertiesView {
    pub date_time: Seq<char>,
    pub sender_name: Seq<char>,
    pub message: Seq<char>,
    pub room: Seq<char>,
    pub user: Seq<char>,
}

impl View for MessageProperties {
    type V = MessagePropertiesView;

    open spec fn view(&self) -> MessagePropertiesView {
        MessagePropertiesView {
            date_time: self.date_time@,
            sender_name: self.sender_name@,
            message: self.message@,
            room: self.room@,
            user: self.user@,
        }
    }
}

/// The request that names a user or a room.
#[derive(Debug)]
pub struct NameRequest {
    pub name: String,
}

/// A room that is handed out.
pub type Room = Object<RoomProperties>;

/// What a room holds.
#[derive(Debug)]
pub struct RoomProperties {
    pub name: String,
    /// The address of the room's messages.
    pub messages: String,
}

/// `RoomProperties` as plain values.
pub struct RoomPropertiesView {
    pub name: Seq<char>,
    pub messages: Seq<char>,
}

impl View for RoomProperties {
    type V = RoomPropertiesView;

    open spec fn view(&self) -> RoomPropertiesView {
        RoomPropertiesView { name: self.name@, messages: self.messages@ }
    }
}

/// A user who is handed out.
pub type User = Object<UserProperties>;

/// What a user holds.
#[derive(Debug)]
pub struct UserProperties {
    pub name: String,
}

/// `UserProperties` as plain values.
pub struct UserPropertiesView {
    pub name: Seq<char>,
}

impl View for UserProperties {
    type V = UserPropertiesView;

    open spec fn view(&self) -> UserPropertiesView {
        UserPropertiesView { name: self.name@ }
    }
}

impl Object<MessageProperties> {
    /// The message at the address `id`.
    pub fn message(
        id: &str,
        date_time: &str,
        sender_name: &str,
        message: &str,
        room: &str,
        user: &str,
    ) -> (object: Self)
        ensures
            object@ == (ObjectView {
                id: id@,
                properties: MessagePropertiesView {
                    date_time: date_time@,
                    sender_name: sender_name@,
                    message: message@,
                    room: room@,
                    user: user@,
                },
            }),
    {
        Self {
            id: String::from_str(id),
            properties: MessageProperties {
                date_time: String::from_str(date_time),
                sender_name: String::from_str(sender_name),
                message: String::from_str(message),
                room: String::from_str(room),
                user: String::from_str(user),
            },
        }
    }
}

impl Object<RoomProperties> {
    /// The room at the address `id`.
    pub fn room(id: &str, name: &str, messages: &str) -> (object: Self)
        ensures
            object@ == (ObjectView {
                id: id@,
                properties: RoomPropertiesView { name: name@, messages: messages@ },
            }),
    {
        Self {
            id: String::from_str(id),
            properties: RoomProperties {
                name: String::from_str(name),
                messages: String::from_str(messages),
            },
        }
    }
}

impl Object<UserProperties> {
    /// The user at the address `id`.
    pub fn user(id: &str, name: &str) -> (object: Self)
        ensures
            object@ == (ObjectView { id: id@, properties: UserPropertiesView { name: name@ } }),
    {
        Self { id: String::from_str(id), properties: UserProperties { name: String::from_str(name) } }
    }
}

} // verus!
