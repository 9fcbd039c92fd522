//! The requests that the service answers. A request is checked, and then
//! carried out as one or more operations on the store; what the last of
//! them ends with is shaped into the answer. No call to the store is made
//! here: a `Progress` says which call comes next, and the function named
//! after that call takes the store's reply.

use crate::attribute::{Item, Value};
use crate::clock::utc_now_rfc3339;
use crate::db::{
    AfterBatch, AfterGet, AfterGetView, AfterPut, AfterPutView, AfterQuery, Outcome, OutcomeView,
    PAGE, Step, StepView, batch_reply, calls_left, fetched, got, item_reply, ledger_call,
    message_call, messages_call, post_call, put, put_reply, queried, query_reply, room_call,
    user_by_id_call, user_by_name_call, user_call,
};
use crate::errors::{ChatError, ChatErrorView, ErrorKind, internal_text, invalid_view};
use crate::links::{
    message_address, message_of_record, message_shown, message_url, messages_of_records,
    messages_shown, room_address, room_object, room_shown, room_url, rooms_of_records,
    rooms_shown, user_address, user_object, user_of_record, user_shown, user_url,
};
use crate::models::{
    Message, MessagePropertiesView, MessageRequest, NameRequest, Object, ObjectView, Room,
    RoomPropertiesView, User, UserPropertiesView,
};
use crate::random::random_u128;
use crate::records::{MessageView, RoomView, UserView};
use crate::store::{
    BatchGetItem, BatchGetItemView, GetItem, GetItemView, PutItem, PutItemView, Query,
    QueryOutput, QueryOutputView, QueryView, text_of,
};
use crate::text::{after_last, decimal, decimal_string, last_place};
use vstd::prelude::*;
use vstd::string::*;

verus! {

// ---------------------------------------------------------------------
// Identifiers
// ---------------------------------------------------------------------

/// How many digits an identifier has.
pub open spec fn id_len() -> nat {
    38
}

/// The identifier made from the number `n`: its first digits, where it has
/// enough of them.
pub open spec fn uuid_of(n: u128) -> Option<Seq<char>> {
    if decimal(n as nat).len() >= id_len() {
        Some(decimal(n as nat).take(id_len() as int))
    } else {
        None
    }
}

/// The identifier made from the number `n`.
pub fn uuid_from(n: u128) -> (id: Option<String>)
    ensures
        text_of(id) == uuid_of(n),
{
    let digits = decimal_string(n);
    if digits.as_str().unicode_len() >= 38 {
        Some(String::from_str(digits.as_str().substring_char(0, 38)))
    } else {
        None
    }
}

/// A fresh identifier, made from a number drawn at random below the
/// greatest; none where that number is too short.
pub fn uuid() -> (id: Option<String>)
    ensures
        exists|n: u128| n < u128::MAX && text_of(id) == uuid_of(n),
{
    let n = random_u128(0, u128::MAX);
    uuid_from(n)
}

/// What follows the last stroke of the address `uri`: the identifier of
/// what the address names. `display` is what the user is told of an address
/// without a stroke.
pub fn id_from_uri(uri: &str, display: &str) -> (r: Result<String, ChatError>)
    ensures
        match r {
            Ok(id) => last_place(uri@, '/') >= 0 && id@ == uri@.skip(last_place(uri@, '/') + 1),
            Err(e) => last_place(uri@, '/') < 0 && e@ == invalid_view(display@),
        },
{
    match after_last(uri, '/') {
        Some(id) => Ok(id),
        None => Err(ChatError::invalid(display)),
    }
}

// ---------------------------------------------------------------------
// Checks
// ---------------------------------------------------------------------

/// A name must not be empty.
pub fn check_name(name: &str) -> (r: Result<(), ChatError>)
    ensures
        match r {
            Ok(_) => name@.len() > 0,
            Err(e) => name@.len() == 0 && e@ == invalid_view("Name is empty"@),
        },
{
    if name.is_empty() {
        Err(ChatError::invalid("Name is empty"))
    } else {
        Ok(())
    }
}

/// A name can be taken at sign-up only while no user has it.
pub fn check_free(exists: bool) -> (r: Result<(), ChatError>)
    ensures
        match r {
            Ok(_) => !exists,
            Err(e) => exists && e@ == invalid_view("Name already registered"@),
        },
{
    if exists {
        Err(ChatError::invalid("Name already registered"))
    } else {
        Ok(())
    }
}

/// A message that is about to be posted.
#[derive(Debug)]
pub struct Draft {
    /// When it is posted.
    pub date_time: String,
    /// Who posts it.
    pub sender_id: String,
    /// What is said.
    pub message: String,
}

/// What checking the request to post a message gives, but for the time: an
/// empty message is refused, and so is a sender's address without a stroke.
pub open spec fn drafted(message: Seq<char>, sender: Seq<char>) -> Result<Seq<char>, ChatErrorView> {
    if message.len() == 0 {
        Err(invalid_view("Name is empty"@))
    } else if last_place(sender, '/') < 0 {
        Err(invalid_view("Invalid sender_id"@))
    } else {
        Ok(sender.skip(last_place(sender, '/') + 1))
    }
}

/// Checks the request to post a message, at the time `date_time`.
pub fn draft_at(request: &MessageRequest, date_time: String) -> (r: Result<Draft, ChatError>)
    ensures
        match r {
            Ok(draft) => {
                &&& drafted(request.message@, request.sender_id@) == Ok::<Seq<char>, ChatErrorView>(
                    draft.sender_id@,
                )
                &&& draft.message@ == request.message@
                &&& draft.date_time@ == date_time@
            },
            Err(e) => drafted(request.message@, request.sender_id@) == Err::<
                Seq<char>,
                ChatErrorView,
            >(e@),
        },
{
    if request.message.as_str().is_empty() {
        return Err(ChatError::invalid("Name is empty"));
    }
    let sender_id = id_from_uri(request.sender_id.as_str(), "Invalid sender_id")?;
    Ok(Draft { date_time, sender_id, message: request.message.clone() })
}

impl View for Draft {
    type V = DraftView;

    open spec fn view(&self) -> DraftView {
        DraftView {
            date_time: self.date_time@,
            sender_id: self.sender_id@,
            message: self.message@,
        }
    }
}

/// A `Draft` as plain values.
pub struct DraftView {
    pub date_time: Seq<char>,
    pub sender_id: Seq<char>,
    pub message: Seq<char>,
}

/// The message that was just posted to the room `room_id`, as handed out
/// under the fresh identifier `id`.
pub open spec fn posted_shown(
    hostname: Seq<char>,
    room_id: Seq<char>,
    id: Seq<char>,
    draft: DraftView,
    sender_name: Seq<char>,
) -> ObjectView<MessagePropertiesView> {
    ObjectView {
        id: message_address(hostname, room_id, id),
        properties: MessagePropertiesView {
            date_time: draft.date_time,
            sender_name,
            message: draft.message,
            room: room_address(hostname, room_id),
            user: user_address(hostname, draft.sender_id),
        },
    }
}

/// The message that was just posted to the room `room_id`, as handed out
/// under the fresh identifier `id`.
pub fn posted_message(hostname: &str, room_id: &str, id: &str, draft: &Draft, sender_name: &str)
    -> (object: Message)
    ensures
        object@ == posted_shown(hostname@, room_id@, id@, draft@, sender_name@),
{
    Object::message(
        message_url(hostname, room_id, id).as_str(),
        draft.date_time.as_str(),
        sender_name,
        draft.message.as_str(),
        room_url(hostname, room_id).as_str(),
        user_url(hostname, draft.sender_id.as_str()).as_str(),
    )
}

// ---------------------------------------------------------------------
// Where a request stands
// ---------------------------------------------------------------------

/// What is done with the outcome of the operation under way.
#[derive(Debug)]
pub enum Then {
    /// The user that was found is the answer.
    AnswerUser,
    /// The message that was found is the answer.
    AnswerMessage,
    /// The messages that were found are the answer.
    AnswerMessages,
    /// The rooms that were found are the answer.
    AnswerRooms,
    /// A name was looked up at sign-up: where it is free, the user is
    /// written under `id`.
    CreateUser { id: Option<String>, name: String },
    /// The new user was written, and is the answer.
    AnswerNewUser { id: String, name: String },
    /// The sender of a message was looked up: the message is posted under
    /// the sender's name.
    PostMessage { room_id: String, id: String, draft: Draft },
    /// The message was posted and its room bumped: the message is the
    /// answer.
    AnswerPosted { room_id: String, id: String, draft: Draft, sender_name: String },
    /// The new room was written and bumped, and is the answer.
    AnswerNewRoom { id: String, name: String },
}

/// A `Then` as plain values.
pub enum ThenView {
    AnswerUser,
    AnswerMessage,
    AnswerMessages,
    AnswerRooms,
    CreateUser { id: Option<Seq<char>>, name: Seq<char> },
    AnswerNewUser { id: Seq<char>, name: Seq<char> },
    PostMessage { room_id: Seq<char>, id: Seq<char>, draft: DraftView },
    AnswerPosted { room_id: Seq<char>, id: Seq<char>, draft: DraftView, sender_name: Seq<char> },
    AnswerNewRoom { id: Seq<char>, name: Seq<char> },
}

impl View for Then {
    type V = ThenView;

    open spec fn view(&self) -> ThenView {
        match self {
            Then::AnswerUser => ThenView::AnswerUser,
            Then::AnswerMessage => ThenView::AnswerMessage,
            Then::AnswerMessages => ThenView::AnswerMessages,
            Then::AnswerRooms => ThenView::AnswerRooms,
            Then::CreateUser { id, name } => ThenView::CreateUser { id: text_of(*id), name: name@ },
            Then::AnswerNewUser { id, name } => ThenView::AnswerNewUser { id: id@, name: name@ },
            Then::PostMessage { room_id, id, draft } => ThenView::PostMessage {
                room_id: room_id@,
                id: id@,
                draft: draft@,
            },
            Then::AnswerPosted { room_id, id, draft, sender_name } => ThenView::AnswerPosted {
                room_id: room_id@,
                id: id@,
                draft: draft@,
                sender_name: sender_name@,
            },
            Then::AnswerNewRoom { id, name } => ThenView::AnswerNewRoom { id: id@, name: name@ },
        }
    }
}

/// What a request is answered with when it succeeds.
#[derive(Debug)]
pub enum Answer {
    User(User),
    Message(Message),
    Messages(Vec<Message>),
    Room(Room),
    Rooms(Vec<Room>),
}

/// An `Answer` as plain values.
pub enum AnswerView {
    User(ObjectView<UserPropertiesView>),
    Message(ObjectView<MessagePropertiesView>),
    Messages(Seq<ObjectView<MessagePropertiesView>>),
    Room(ObjectView<RoomPropertiesView>),
    Rooms(Seq<ObjectView<RoomPropertiesView>>),
}

impl View for Answer {
    type V = AnswerView;

    open spec fn view(&self) -> AnswerView {
        match self {
            Answer::User(u) => AnswerView::User(u@),
            Answer::Message(m) => AnswerView::Message(m@),
            Answer::Messages(ms) => AnswerView::Messages(ms.deep_view()),
            Answer::Room(r) => AnswerView::Room(r@),
            Answer::Rooms(rs) => AnswerView::Rooms(rs.deep_view()),
        }
    }
}

/// The next thing to happen to a request: a call to the store, with what
/// the operation under way waits for and what is done with its outcome, or
/// the answer.
#[derive(Debug)]
pub enum Progress {
    GetItem(GetItem, AfterGet, Then),
    PutItem(PutItem, AfterPut, Then),
    Query(Query, AfterQuery, Then),
    BatchGetItem(BatchGetItem, AfterBatch, Then),
    Done(Result<Answer, ChatError>),
}

/// A `Progress` as plain values.
pub enum ProgressView {
    GetItem(GetItemView, AfterGetView, ThenView),
    PutItem(PutItemView, AfterPutView, ThenView),
    Query(QueryView, AfterQuery, ThenView),
    BatchGetItem(BatchGetItemView, AfterBatch, ThenView),
    Done(Result<AnswerView, ChatErrorView>),
}

impl View for Progress {
    type V = ProgressView;

    open spec fn view(&self) -> ProgressView {
        match self {
            Progress::GetItem(call, state, then) => ProgressView::GetItem(call@, state@, then@),
            Progress::PutItem(call, state, then) => ProgressView::PutItem(call@, state@, then@),
            Progress::Query(call, state, then) => ProgressView::Query(call@, *state, then@),
            Progress::BatchGetItem(call, state, then) => ProgressView::BatchGetItem(
                call@,
                *state,
                then@,
            ),
            Progress::Done(Ok(answer)) => ProgressView::Done(Ok(answer@)),
            Progress::Done(Err(e)) => ProgressView::Done(Err(e@)),
        }
    }
}

// ---------------------------------------------------------------------
// From one operation to the next
// ---------------------------------------------------------------------

/// The error of a request that needs a fresh identifier where the number
/// drawn for it was too short.
pub open spec fn no_id_view() -> ChatErrorView {
    ChatErrorView {
        kind: ErrorKind::StorageError,
        debug: Some("The number drawn is too short for an identifier"@),
        display: internal_text(),
    }
}

/// The error of an operation that ended with what the request cannot use.
/// No request that this module begins ever meets it.
pub open spec fn astray_view() -> ChatErrorView {
    ChatErrorView {
        kind: ErrorKind::StorageError,
        debug: Some("The operation ended with what the request cannot use"@),
        display: internal_text(),
    }
}

/// The end of a request that went astray.
pub open spec fn astray() -> ProgressView {
    ProgressView::Done(Err(astray_view()))
}

/// What follows when the operation under way ended well, with `outcome`.
pub open spec fn finished(outcome: OutcomeView, then: ThenView, hostname: Seq<char>)
    -> ProgressView {
    match then {
        ThenView::AnswerUser => match outcome {
            OutcomeView::User(u) => ProgressView::Done(
                Ok(AnswerView::User(user_shown(hostname, u.user_id, u.name))),
            ),
            _ => astray(),
        },
        ThenView::AnswerMessage => match outcome {
            OutcomeView::Message(m) => ProgressView::Done(
                Ok(AnswerView::Message(message_shown(hostname, m))),
            ),
            _ => astray(),
        },
        ThenView::AnswerMessages => match outcome {
            OutcomeView::Messages(ms) => ProgressView::Done(
                Ok(AnswerView::Messages(messages_shown(hostname, ms))),
            ),
            _ => astray(),
        },
        ThenView::AnswerRooms => match outcome {
            OutcomeView::Rooms(rs) => ProgressView::Done(
                Ok(AnswerView::Rooms(rooms_shown(hostname, rs))),
            ),
            _ => astray(),
        },
        ThenView::CreateUser { id, name } => match outcome {
            OutcomeView::Exists(exists) => if exists {
                ProgressView::Done(Err(invalid_view("Name already registered"@)))
            } else {
                match id {
                    None => ProgressView::Done(Err(no_id_view())),
                    Some(id) => ProgressView::PutItem(
                        user_call(UserView { user_id: id, name }),
                        AfterPutView::Last,
                        ThenView::AnswerNewUser { id, name },
                    ),
                }
            },
            _ => astray(),
        },
        ThenView::AnswerNewUser { id, name } => match outcome {
            OutcomeView::Stored => ProgressView::Done(
                Ok(AnswerView::User(user_shown(hostname, id, name))),
            ),
            _ => astray(),
        },
        ThenView::PostMessage { room_id, id, draft } => match outcome {
            OutcomeView::User(sender) => ProgressView::PutItem(
                post_call(
                    MessageView {
                        room_id,
                        date_time: draft.date_time,
                        sender_id: draft.sender_id,
                        sender_name: sender.name,
                        message: draft.message,
                    },
                ),
                AfterPutView::Bump { room_id },
                ThenView::AnswerPosted { room_id, id, draft, sender_name: sender.name },
            ),
            _ => astray(),
        },
        ThenView::AnswerPosted { room_id, id, draft, sender_name } => match outcome {
            OutcomeView::Stored => ProgressView::Done(
                Ok(AnswerView::Message(posted_shown(hostname, room_id, id, draft, sender_name))),
            ),
            _ => astray(),
        },
        ThenView::AnswerNewRoom { id, name } => match outcome {
            OutcomeView::Stored => ProgressView::Done(
                Ok(AnswerView::Room(room_shown(hostname, id, name))),
            ),
            _ => astray(),
        },
    }
}

/// The call that the step `step` asks for, with what is done with the
/// outcome of its operation.
pub open spec fn called(step: StepView, then: ThenView) -> ProgressView {
    match step {
        StepView::GetItem(call, state) => ProgressView::GetItem(call, state, then),
        StepView::PutItem(call, state) => ProgressView::PutItem(call, state, then),
        StepView::Query(call, state) => ProgressView::Query(call, state, then),
        StepView::BatchGetItem(call, state) => ProgressView::BatchGetItem(call, state, then),
        StepView::Done(_) => astray(),
    }
}

/// What follows the step `step` of the operation under way: its next call,
/// its error, or what `then` makes of its outcome.
pub open spec fn carried(step: StepView, then: ThenView, hostname: Seq<char>) -> ProgressView {
    match step {
        StepView::Done(Err(e)) => ProgressView::Done(Err(e)),
        StepView::Done(Ok(outcome)) => finished(outcome, then, hostname),
        _ => called(step, then),
    }
}

/// The error of a request that needs an identifier and has none.
fn no_id() -> (e: ChatError)
    ensures
        e@ == no_id_view(),
{
    ChatError {
        kind: ErrorKind::StorageError,
        debug: Some(String::from_str("The number drawn is too short for an identifier")),
        display: String::from_str("Internal server error"),
    }
}

/// The end of a request that went astray.
fn gone_astray() -> (progress: Progress)
    ensures
        progress@ == astray(),
{
    Progress::Done(
        Err(
            ChatError {
                kind: ErrorKind::StorageError,
                debug: Some(
                    String::from_str("The operation ended with what the request cannot use"),
                ),
                display: String::from_str("Internal server error"),
            },
        ),
    )
}

/// The first call of an operation, with what is done with its outcome.
fn begin(step: Step, then: Then) -> (progress: Progress)
    ensures
        progress@ == called(step@, then@),
{
    match step {
        Step::GetItem(call, state) => Progress::GetItem(call, state, then),
        Step::PutItem(call, state) => Progress::PutItem(call, state, then),
        Step::Query(call, state) => Progress::Query(call, state, then),
        Step::BatchGetItem(call, state) => Progress::BatchGetItem(call, state, then),
        Step::Done(_) => gone_astray(),
    }
}

/// What follows when the operation under way ended well.
fn finish(outcome: Outcome, then: Then, hostname: &str) -> (progress: Progress)
    ensures
        progress@ == finished(outcome@, then@, hostname@),
{
    match then {
        Then::AnswerUser => match outcome {
            Outcome::User(u) => Progress::Done(Ok(Answer::User(user_of_record(hostname, &u)))),
            _ => gone_astray(),
        },
        Then::AnswerMessage => match outcome {
            Outcome::Message(m) => Progress::Done(
                Ok(Answer::Message(message_of_record(hostname, &m))),
            ),
            _ => gone_astray(),
        },
        Then::AnswerMessages => match outcome {
            Outcome::Messages(ms) => Progress::Done(
                Ok(Answer::Messages(messages_of_records(hostname, &ms))),
            ),
            _ => gone_astray(),
        },
        Then::AnswerRooms => match outcome {
            Outcome::Rooms(rs) => Progress::Done(Ok(Answer::Rooms(rooms_of_records(hostname, &rs)))),
            _ => gone_astray(),
        },
        Then::CreateUser { id, name } => match outcome {
            Outcome::Exists(exists) => match check_free(exists) {
                Err(e) => Progress::Done(Err(e)),
                Ok(_) => match id {
                    None => Progress::Done(Err(no_id())),
                    Some(id) => {
                        let step = crate::db::create_user(id.as_str(), name.as_str());
                        begin(step, Then::AnswerNewUser { id, name })
                    },
                },
            },
            _ => gone_astray(),
        },
        Then::AnswerNewUser { id, name } => match outcome {
            Outcome::Stored => Progress::Done(
                Ok(Answer::User(user_object(hostname, id.as_str(), name.as_str()))),
            ),
            _ => gone_astray(),
        },
        Then::PostMessage { room_id, id, draft } => match outcome {
            Outcome::User(sender) => {
                let step = crate::db::post_message(
                    room_id.as_str(),
                    draft.message.as_str(),
                    draft.sender_id.as_str(),
                    sender.name.as_str(),
                    draft.date_time.as_str(),
                );
                begin(step, Then::AnswerPosted { room_id, id, draft, sender_name: sender.name })
            },
            _ => gone_astray(),
        },
        Then::AnswerPosted { room_id, id, draft, sender_name } => match outcome {
            Outcome::Stored => Progress::Done(
                Ok(
                    Answer::Message(
                        posted_message(
                            hostname,
                            room_id.as_str(),
                            id.as_str(),
                            &draft,
                            sender_name.as_str(),
                        ),
                    ),
                ),
            ),
            _ => gone_astray(),
        },
        Then::AnswerNewRoom { id, name } => match outcome {
            Outcome::Stored => Progress::Done(
                Ok(Answer::Room(room_object(hostname, id.as_str(), name.as_str()))),
            ),
            _ => gone_astray(),
        },
    }
}

/// What follows the step `step` of the operation under way.
fn carry_on(step: Step, then: Then, hostname: &str) -> (progress: Progress)
    ensures
        progress@ == carried(step@, then@, hostname@),
{
    match step {
        Step::Done(Err(e)) => Progress::Done(Err(e)),
        Step::Done(Ok(outcome)) => finish(outcome, then, hostname),
        step => begin(step, then),
    }
}

/// Goes on after a call for one item: `reply` is the item that the store
/// found, if it found one, or the store's account of its failure.
pub fn after_get(state: AfterGet, then: Then, reply: Result<Option<Item>, String>, hostname: &str)
    -> (progress: Progress)
    ensures
        progress@ == carried(got(state@, item_reply(reply)), then@, hostname@),
{
    carry_on(crate::db::after_get(state, reply), then, hostname)
}

/// Goes on after a call that writes: `reply` is empty, or the store's
/// account of its failure.
pub fn after_put(state: AfterPut, then: Then, reply: Result<(), String>, hostname: &str) -> (progress:
    Progress)
    ensures
        progress@ == carried(put(state@, put_reply(reply)), then@, hostname@),
{
    carry_on(crate::db::after_put(state, reply), then, hostname)
}

/// Goes on after a query: `reply` is what the store found, or the store's
/// account of its failure.
pub fn after_query(state: AfterQuery, then: Then, reply: Result<QueryOutput, String>, hostname: &str)
    -> (progress: Progress)
    ensures
        progress@ == carried(queried(state, query_reply(reply)), then@, hostname@),
{
    carry_on(crate::db::after_query(state, reply), then, hostname)
}

/// Goes on after a call for several items: `reply` is the items that the
/// store found, where it sent any list, or the store's account of its
/// failure.
pub fn after_batch(
    state: AfterBatch,
    then: Then,
    reply: Result<Option<Vec<Item>>, String>,
    hostname: &str,
) -> (progress: Progress)
    ensures
        progress@ == carried(fetched(state, batch_reply(reply)), then@, hostname@),
{
    carry_on(crate::db::after_batch(state, reply), then, hostname)
}

// ---------------------------------------------------------------------
// Beginning a request
// ---------------------------------------------------------------------

/// How signing up as `name` begins, where `id` is the fresh identifier, if
/// one could be made: an empty name is refused; else the name is looked up.
pub open spec fn sign_up_begun(name: Seq<char>, id: Option<Seq<char>>) -> ProgressView {
    if name.len() == 0 {
        ProgressView::Done(Err(invalid_view("Name is empty"@)))
    } else {
        ProgressView::Query(
            user_by_name_call(name),
            AfterQuery::UserExists,
            ThenView::CreateUser { id, name },
        )
    }
}

/// How signing in as `name` begins: an empty name is refused; else the one
/// user of that name is looked up.
pub open spec fn sign_in_begun(name: Seq<char>) -> ProgressView {
    if name.len() == 0 {
        ProgressView::Done(Err(invalid_view("Name is empty"@)))
    } else {
        ProgressView::Query(user_by_name_call(name), AfterQuery::UserByName, ThenView::AnswerUser)
    }
}

/// How looking up the user at the address `uri` begins: an address without
/// a stroke is refused; else the user named behind its last stroke is
/// looked up.
pub open spec fn get_user_begun(uri: Seq<char>) -> ProgressView {
    if last_place(uri, '/') < 0 {
        ProgressView::Done(Err(invalid_view("Invalid user_id"@)))
    } else {
        ProgressView::GetItem(
            user_by_id_call(uri.skip(last_place(uri, '/') + 1)),
            AfterGetView::User,
            ThenView::AnswerUser,
        )
    }
}

/// How posting a message to the room `room_id` begins, at the time
/// `date_time` and under the fresh identifier `id`, if one could be made:
/// the request is checked first, so that a request that cannot be taken is
/// refused whatever was drawn; then the sender is looked up.
pub open spec fn put_message_begun(
    room_id: Seq<char>,
    message: Seq<char>,
    sender: Seq<char>,
    id: Option<Seq<char>>,
    date_time: Seq<char>,
) -> ProgressView {
    match drafted(message, sender) {
        Err(e) => ProgressView::Done(Err(e)),
        Ok(sender_id) => match id {
            None => ProgressView::Done(Err(no_id_view())),
            Some(id) => ProgressView::GetItem(
                user_by_id_call(sender_id),
                AfterGetView::User,
                ThenView::PostMessage {
                    room_id,
                    id,
                    draft: DraftView { date_time, sender_id, message },
                },
            ),
        },
    }
}

/// How opening a room named `name` begins, under the fresh identifier `id`,
/// if one could be made: the room is written, and then bumped.
pub open spec fn put_room_begun(name: Seq<char>, id: Option<Seq<char>>) -> ProgressView {
    match id {
        None => ProgressView::Done(Err(no_id_view())),
        Some(id) => ProgressView::PutItem(
            room_call(RoomView { room_id: id, name }),
            AfterPutView::Bump { room_id: id },
            ThenView::AnswerNewRoom { id, name },
        ),
    }
}

/// Signs a user up under `id`, the identifier that was made for them.
pub fn sign_up_with(request: &NameRequest, id: Option<String>) -> (progress: Progress)
    ensures
        progress@ == sign_up_begun(request.name@, text_of(id)),
{
    match check_name(request.name.as_str()) {
        Err(e) => Progress::Done(Err(e)),
        Ok(_) => begin(
            crate::db::user_exists(request.name.as_str()),
            Then::CreateUser { id, name: request.name.clone() },
        ),
    }
}

/// Signs a user up: the name must not be empty and not be taken; the user
/// is then written under a fresh identifier, and handed out.
pub fn sign_up(request: &NameRequest) -> (progress: Progress)
    ensures
        exists|n: u128| progress@ == sign_up_begun(request.name@, uuid_of(n)),
{
    sign_up_with(request, uuid())
}

/// Signs a user in: hands out the one user of the name.
pub fn sign_in(request: &NameRequest) -> (progress: Progress)
    ensures
        progress@ == sign_in_begun(request.name@),
{
    match check_name(request.name.as_str()) {
        Err(e) => Progress::Done(Err(e)),
        Ok(_) => begin(crate::db::get_user_by_name(request.name.as_str()), Then::AnswerUser),
    }
}

/// Hands out the user at the address `user_id`.
pub fn get_user(user_id: &str) -> (progress: Progress)
    ensures
        progress@ == get_user_begun(user_id@),
{
    match id_from_uri(user_id, "Invalid user_id") {
        Err(e) => Progress::Done(Err(e)),
        Ok(id) => begin(crate::db::get_user_by_id(id.as_str()), Then::AnswerUser),
    }
}

/// Hands out the message of the room `room_id` that was posted at
/// `message_id`.
pub fn get_message_by_id(room_id: &str, message_id: &str) -> (progress: Progress)
    ensures
        progress@ == ProgressView::GetItem(
            message_call(room_id@, message_id@),
            AfterGetView::Message,
            ThenView::AnswerMessage,
        ),
{
    begin(crate::db::get_message_by_id(room_id, message_id), Then::AnswerMessage)
}

/// Hands out the latest messages of the room `room_id`.
pub fn get_messages(room_id: &str) -> (progress: Progress)
    ensures
        progress@ == ProgressView::Query(
            messages_call(room_id@, PAGE),
            AfterQuery::Messages,
            ThenView::AnswerMessages,
        ),
{
    begin(crate::db::latest_messages(room_id), Then::AnswerMessages)
}

/// Posts a message to the room `room_id`, at the time `date_time` and under
/// `id`, the identifier that was made for it.
pub fn put_message_with(
    room_id: &str,
    request: &MessageRequest,
    id: Option<String>,
    date_time: String,
) -> (progress: Progress)
    ensures
        progress@ == put_message_begun(
            room_id@,
            request.message@,
            request.sender_id@,
            text_of(id),
            date_time@,
        ),
{
    match draft_at(request, date_time) {
        Err(e) => Progress::Done(Err(e)),
        Ok(draft) => match id {
            None => Progress::Done(Err(no_id())),
            Some(id) => {
                let step = crate::db::get_user_by_id(draft.sender_id.as_str());
                begin(step, Then::PostMessage { room_id: String::from_str(room_id), id, draft })
            },
        },
    }
}

/// Posts a message to the room `room_id`: the message must not be empty,
/// and the sender's address must hold a stroke, else the request is
/// refused before anything is asked of the store, whatever number was
/// drawn. The sender is then looked up, the message is written under the
/// sender's name and the time that the clock shows, the room is bumped, and
/// the message is handed out under a fresh identifier.
pub fn put_message(room_id: &str, request: &MessageRequest) -> (progress: Progress)
    ensures
        exists|n: u128, date_time: Seq<char>|
            progress@ == put_message_begun(
                room_id@,
                request.message@,
                request.sender_id@,
                uuid_of(n),
                date_time,
            ),
        request.message@.len() == 0 ==> progress@ == ProgressView::Done(
            Err(invalid_view("Name is empty"@)),
        ),
        request.message@.len() > 0 && last_place(request.sender_id@, '/') < 0 ==> progress@
            == ProgressView::Done(Err(invalid_view("Invalid sender_id"@))),
        progress@ is Done || progress@ is GetItem,
{
    let id = uuid();
    let date_time = utc_now_rfc3339();
    let ghost n = choose|n: u128| n < u128::MAX && text_of(id) == uuid_of(n);
    let ghost stamp = date_time@;
    let progress = put_message_with(room_id, request, id, date_time);
    assert(progress@ == put_message_begun(
        room_id@,
        request.message@,
        request.sender_id@,
        uuid_of(n),
        stamp,
    ));
    progress
}

/// Hands out the rooms of the ledger.
pub fn get_rooms() -> (progress: Progress)
    ensures
        progress@ == ProgressView::GetItem(
            ledger_call(),
            AfterGetView::LedgerToList,
            ThenView::AnswerRooms,
        ),
{
    begin(crate::db::get_active_rooms(), Then::AnswerRooms)
}

/// Opens a room under `id`, the identifier that was made for it.
pub fn put_room_with(request: &NameRequest, id: Option<String>) -> (progress: Progress)
    ensures
        progress@ == put_room_begun(request.name@, text_of(id)),
{
    match id {
        None => Progress::Done(Err(no_id())),
        Some(id) => {
            let step = crate::db::open_room(id.as_str(), request.name.as_str());
            begin(step, Then::AnswerNewRoom { id, name: request.name.clone() })
        },
    }
}

/// Opens a room: writes it under a fresh identifier, bumps it, and hands
/// it out.
pub fn put_room(request: &NameRequest) -> (progress: Progress)
    ensures
        exists|n: u128| progress@ == put_room_begun(request.name@, uuid_of(n)),
{
    put_room_with(request, uuid())
}

// ---------------------------------------------------------------------
// What holds of every request
// ---------------------------------------------------------------------

/// The kinds of outcome that an operation can end with.
#[derive(Clone, Copy, Debug, PartialEq, Eq, Structural)]
pub enum OutcomeKind {
    Message,
    Messages,
    Rooms,
    User,
    Exists,
    Stored,
}

/// The kind of the outcome `outcome`.
pub open spec fn kind_of(outcome: OutcomeView) -> OutcomeKind {
    match outcome {
        OutcomeView::Message(_) => OutcomeKind::Message,
        OutcomeView::Messages(_) => OutcomeKind::Messages,
        OutcomeView::Rooms(_) => OutcomeKind::Rooms,
        OutcomeView::User(_) => OutcomeKind::User,
        OutcomeView::Exists(_) => OutcomeKind::Exists,
        OutcomeView::Stored => OutcomeKind::Stored,
    }
}

/// The kind of outcome that the operation of `step` ends with where it
/// ends well; none for a step that is an error.
pub open spec fn ends_with(step: StepView) -> Option<OutcomeKind> {
    match step {
        StepView::Done(Err(_)) => None,
        StepView::Done(Ok(outcome)) => Some(kind_of(outcome)),
        StepView::GetItem(_, AfterGetView::Message) => Some(OutcomeKind::Message),
        StepView::GetItem(_, AfterGetView::User) => Some(OutcomeKind::User),
        StepView::GetItem(_, AfterGetView::LedgerToBump { .. }) => Some(OutcomeKind::Stored),
        StepView::GetItem(_, AfterGetView::LedgerToList) => Some(OutcomeKind::Rooms),
        StepView::PutItem(_, _) => Some(OutcomeKind::Stored),
        StepView::Query(_, AfterQuery::Messages) => Some(OutcomeKind::Messages),
        StepView::Query(_, AfterQuery::UserByName) => Some(OutcomeKind::User),
        StepView::Query(_, AfterQuery::UserExists) => Some(OutcomeKind::Exists),
        StepView::BatchGetItem(_, AfterBatch::Rooms) => Some(OutcomeKind::Rooms),
    }
}

/// The kind of outcome that `then` knows what to do with.
pub open spec fn wants(then: ThenView) -> OutcomeKind {
    match then {
        ThenView::AnswerUser => OutcomeKind::User,
        ThenView::AnswerMessage => OutcomeKind::Message,
        ThenView::AnswerMessages => OutcomeKind::Messages,
        ThenView::AnswerRooms => OutcomeKind::Rooms,
        ThenView::CreateUser { .. } => OutcomeKind::Exists,
        ThenView::AnswerNewUser { .. } => OutcomeKind::Stored,
        ThenView::PostMessage { .. } => OutcomeKind::User,
        ThenView::AnswerPosted { .. } => OutcomeKind::Stored,
        ThenView::AnswerNewRoom { .. } => OutcomeKind::Stored,
    }
}

/// Whether the operation of `step`, where it ends well, ends with what
/// `then` knows what to do with.
pub open spec fn fits(step: StepView, then: ThenView) -> bool {
    match ends_with(step) {
        None => true,
        Some(kind) => kind == wants(then),
    }
}

/// Whether a request is on course: the operation under way ends with what
/// is wanted of it.
pub open spec fn on_course(progress: ProgressView) -> bool {
    match progress {
        ProgressView::GetItem(call, state, then) => fits(StepView::GetItem(call, state), then),
        ProgressView::PutItem(call, state, then) => fits(StepView::PutItem(call, state), then),
        ProgressView::Query(call, state, then) => fits(StepView::Query(call, state), then),
        ProgressView::BatchGetItem(call, state, then) => fits(
            StepView::BatchGetItem(call, state),
            then,
        ),
        ProgressView::Done(_) => true,
    }
}

/// How many calls to the store follow the operation under way, at most.
pub open spec fn calls_ahead(then: ThenView) -> nat {
    match then {
        ThenView::CreateUser { .. } => 1,
        ThenView::PostMessage { .. } => 3,
        _ => 0,
    }
}

/// How many calls to the store a request may still make, at most.
pub open spec fn calls_to_come(progress: ProgressView) -> nat {
    match progress {
        ProgressView::GetItem(call, state, then) => calls_left(StepView::GetItem(call, state))
            + calls_ahead(then),
        ProgressView::PutItem(call, state, then) => calls_left(StepView::PutItem(call, state))
            + calls_ahead(then),
        ProgressView::Query(call, state, then) => calls_left(StepView::Query(call, state))
            + calls_ahead(then),
        ProgressView::BatchGetItem(call, state, then) => calls_left(
            StepView::BatchGetItem(call, state),
        ) + calls_ahead(then),
        ProgressView::Done(_) => 0,
    }
}

/// Every request begins on course.
pub proof fn lemma_requests_begin_on_course(
    name: Seq<char>,
    id: Option<Seq<char>>,
    uri: Seq<char>,
    room_id: Seq<char>,
    message: Seq<char>,
    date_time: Seq<char>,
)
    ensures
        on_course(sign_up_begun(name, id)),
        on_course(sign_in_begun(name)),
        on_course(get_user_begun(uri)),
        on_course(put_message_begun(room_id, message, uri, id, date_time)),
        on_course(put_room_begun(name, id)),
        on_course(
            ProgressView::GetItem(
                message_call(room_id, message),
                AfterGetView::Message,
                ThenView::AnswerMessage,
            ),
        ),
        on_course(
            ProgressView::Query(
                messages_call(room_id, PAGE),
                AfterQuery::Messages,
                ThenView::AnswerMessages,
            ),
        ),
        on_course(
            ProgressView::GetItem(ledger_call(), AfterGetView::LedgerToList, ThenView::AnswerRooms),
        ),
{
}

/// An operation keeps the kind of outcome that it ends with, whatever the
/// store replies.
pub proof fn lemma_operations_keep_their_kind(
    get: (GetItemView, AfterGetView, Result<Option<Map<Seq<char>, Value>>, Seq<char>>),
    write: (PutItemView, AfterPutView, Result<(), Seq<char>>),
    query: (QueryView, AfterQuery, Result<QueryOutputView, Seq<char>>),
    batch: (BatchGetItemView, AfterBatch, Result<Option<Seq<Map<Seq<char>, Value>>>, Seq<char>>),
)
    ensures
        ends_with(got(get.1, get.2)) is Some ==> ends_with(got(get.1, get.2)) == ends_with(
            StepView::GetItem(get.0, get.1),
        ),
        ends_with(put(write.1, write.2)) is Some ==> ends_with(put(write.1, write.2)) == ends_with(
            StepView::PutItem(write.0, write.1),
        ),
        ends_with(queried(query.1, query.2)) is Some ==> ends_with(queried(query.1, query.2))
            == ends_with(StepView::Query(query.0, query.1)),
        ends_with(fetched(batch.1, batch.2)) is Some ==> ends_with(fetched(batch.1, batch.2))
            == ends_with(StepView::BatchGetItem(batch.0, batch.1)),
{
}

/// A request that is on course stays on course: where the operation under
/// way fits what is done with its outcome, so does what follows it, and an
/// outcome is always of the kind that is wanted. So no request that begins
/// on course ever goes astray.
pub proof fn lemma_requests_stay_on_course(step: StepView, then: ThenView, hostname: Seq<char>)
    requires
        fits(step, then),
    ensures
        on_course(carried(step, then, hostname)),
        step matches StepView::Done(Ok(outcome)) ==> kind_of(outcome) == wants(then),
{
}

/// Every request ends: whatever the store replies, what follows a call has
/// fewer calls to come than the call had. No request makes more than four
/// calls.
pub proof fn lemma_requests_end(
    then: ThenView,
    hostname: Seq<char>,
    get: (GetItemView, AfterGetView, Result<Option<Map<Seq<char>, Value>>, Seq<char>>),
    write: (PutItemView, AfterPutView, Result<(), Seq<char>>),
    query: (QueryView, AfterQuery, Result<QueryOutputView, Seq<char>>),
    batch: (BatchGetItemView, AfterBatch, Result<Option<Seq<Map<Seq<char>, Value>>>, Seq<char>>),
)
    ensures
        calls_to_come(carried(got(get.1, get.2), then, hostname)) < calls_to_come(
            ProgressView::GetItem(get.0, get.1, then),
        ),
        calls_to_come(carried(put(write.1, write.2), then, hostname)) < calls_to_come(
            ProgressView::PutItem(write.0, write.1, then),
        ),
        calls_to_come(carried(queried(query.1, query.2), then, hostname)) < calls_to_come(
            ProgressView::Query(query.0, query.1, then),
        ),
        calls_to_come(carried(fetched(batch.1, batch.2), then, hostname)) < calls_to_come(
            ProgressView::BatchGetItem(batch.0, batch.1, then),
        ),
        on_course(ProgressView::GetItem(get.0, get.1, then)) ==> calls_to_come(
            ProgressView::GetItem(get.0, get.1, then),
        ) <= 4,
        on_course(ProgressView::PutItem(write.0, write.1, then)) ==> calls_to_come(
            ProgressView::PutItem(write.0, write.1, then),
        ) <= 4,
        on_course(ProgressView::Query(query.0, query.1, then)) ==> calls_to_come(
            ProgressView::Query(query.0, query.1, then),
        ) <= 4,
        on_course(ProgressView::BatchGetItem(batch.0, batch.1, then)) ==> calls_to_come(
            ProgressView::BatchGetItem(batch.0, batch.1, then),
        ) <= 4,
{
}

} // verus!
