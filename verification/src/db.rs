//! The operations of the service on its store. Each begins with a call to
//! the store; what the store hands back decides the next call, or the
//! result. No call is made here: a `Step` says which call comes next, and
//! the function named after that call takes the store's reply.

use crate::attribute::{AttributeValue, Item, Value, read_s};
use crate::errors::{
    ChatError, ChatErrorView, ErrorKind, no_list, no_list_view, query_error, query_error_view,
    storage_error_view,
};
use crate::ledger::laws::lemma_empty_ledger;
use crate::ledger::{bump_csv, bumped, list, tokens};
use crate::records::{
    MessageRecord, MessageView, RoomRecord, RoomView, UserRecord, UserView, decoded_message,
    decoded_room, decoded_user, message_item, message_key, message_key_of,
    message_prefix, room_item, room_key, room_key_of, user_item, user_key, user_key_of,
};
use crate::store::{
    AliasView, BatchGetItem, BatchGetItemView, GetItem, GetItemView, PutItem, PutItemView, Query,
    QueryOutput, QueryOutputView, QueryView, no_alias, one_alias,
};
use vstd::prelude::*;
use vstd::string::*;

verus! {

// ---------------------------------------------------------------------
// Where an operation stands
// ---------------------------------------------------------------------

/// What an operation waits for after it asked for one item.
#[derive(Debug)]
pub enum AfterGet {
    /// The message that was asked for.
    Message,
    /// The user that was asked for.
    User,
    /// The ledger, in which `room_id` is then bumped.
    LedgerToBump { room_id: String },
    /// The ledger, whose rooms are then fetched.
    LedgerToList,
}

/// An `AfterGet` as plain values.
pub enum AfterGetView {
    Message,
    User,
    LedgerToBump { room_id: Seq<char> },
    LedgerToList,
}

impl View for AfterGet {
    type V = AfterGetView;

    open spec fn view(&self) -> AfterGetView {
        match self {
            AfterGet::Message => AfterGetView::Message,
            AfterGet::User => AfterGetView::User,
            AfterGet::LedgerToBump { room_id } => AfterGetView::LedgerToBump { room_id: room_id@ },
            AfterGet::LedgerToList => AfterGetView::LedgerToList,
        }
    }
}

/// What an operation does once an item is written.
#[derive(Debug)]
pub enum AfterPut {
    /// What concerns the room `room_id` is written: the room is bumped next.
    Bump { room_id: String },
    /// Nothing is left to do.
    Last,
}

/// An `AfterPut` as plain values.
pub enum AfterPutView {
    Bump { room_id: Seq<char> },
    Last,
}

impl View for AfterPut {
    type V = AfterPutView;

    open spec fn view(&self) -> AfterPutView {
        match self {
            AfterPut::Bump { room_id } => AfterPutView::Bump { room_id: room_id@ },
            AfterPut::Last => AfterPutView::Last,
        }
    }
}

/// What an operation waits for after a query.
#[derive(Clone, Copy, Debug, PartialEq, Eq, Structural)]
pub enum AfterQuery {
    /// The latest messages of a room.
    Messages,
    /// The one user of a name.
    UserByName,
    /// Whether a name has its one user.
    UserExists,
}

/// What an operation waits for after it asked for several items.
#[derive(Clone, Copy, Debug, PartialEq, Eq, Structural)]
pub enum AfterBatch {
    /// The rooms of the ledger.
    Rooms,
}

/// What an operation ends with when it succeeds.
#[derive(Debug)]
pub enum Outcome {
    Message(MessageRecord),
    Messages(Vec<MessageRecord>),
    Rooms(Vec<RoomRecord>),
    User(UserRecord),
    Exists(bool),
    /// What was to be written is written.
    Stored,
}

/// An `Outcome` as plain values.
pub enum OutcomeView {
    Message(MessageView),
    Messages(Seq<MessageView>),
    Rooms(Seq<RoomView>),
    User(UserView),
    Exists(bool),
    Stored,
}

impl View for Outcome {
    type V = OutcomeView;

    open spec fn view(&self) -> OutcomeView {
        match self {
            Outcome::Message(m) => OutcomeView::Message(m@),
            Outcome::Messages(ms) => OutcomeView::Messages(ms.deep_view()),
            Outcome::Rooms(rs) => OutcomeView::Rooms(rs.deep_view()),
            Outcome::User(u) => OutcomeView::User(u@),
            Outcome::Exists(b) => OutcomeView::Exists(*b),
            Outcome::Stored => OutcomeView::Stored,
        }
    }
}

/// The next thing to happen in an operation: a call to the store, with
/// what the operation waits for, or its end.
#[derive(Debug)]
pub enum Step {
    GetItem(GetItem, AfterGet),
    PutItem(PutItem, AfterPut),
    Query(Query, AfterQuery),
    BatchGetItem(BatchGetItem, AfterBatch),
    Done(Result<Outcome, ChatError>),
}

/// A `Step` as plain values.
pub enum StepView {
    GetItem(GetItemView, AfterGetView),
    PutItem(PutItemView, AfterPutView),
    Query(QueryView, AfterQuery),
    BatchGetItem(BatchGetItemView, AfterBatch),
    Done(Result<OutcomeView, ChatErrorView>),
}

impl View for Step {
    type V = StepView;

    open spec fn view(&self) -> StepView {
        match self {
            Step::GetItem(call, state) => StepView::GetItem(call@, state@),
            Step::PutItem(call, state) => StepView::PutItem(call@, state@),
            Step::Query(call, state) => StepView::Query(call@, *state),
            Step::BatchGetItem(call, state) => StepView::BatchGetItem(call@, *state),
            Step::Done(Ok(outcome)) => StepView::Done(Ok(outcome@)),
            Step::Done(Err(e)) => StepView::Done(Err(e@)),
        }
    }
}

// ---------------------------------------------------------------------
// The calls
// ---------------------------------------------------------------------

/// The table of rooms, messages and the ledger.
pub open spec fn messages_table() -> Seq<char> {
    "messages"@
}

/// The table of users.
pub open spec fn users_table() -> Seq<char> {
    "users"@
}

/// The alias under which requests name the attribute `name`.
pub open spec fn name_alias() -> Seq<AliasView> {
    seq![AliasView { placeholder: "#n"@, name: "name"@ }]
}

/// The call for the message of `room_id` that was posted at `message_id`.
pub open spec fn message_call(room_id: Seq<char>, message_id: Seq<char>) -> GetItemView {
    GetItemView {
        table_name: messages_table(),
        key: message_key(room_id, message_id),
        projection_expression: "room_id,sort,sender_id,sender_name,message"@,
        expression_attribute_names: Seq::empty(),
    }
}

/// The call for the latest messages of `room_id`, `limit` at most: all
/// items of the room whose sort key begins as that of a message, the
/// greatest sort key, which is the latest time, first.
pub open spec fn messages_call(room_id: Seq<char>, limit: u8) -> QueryView {
    QueryView {
        table_name: messages_table(),
        index_name: None,
        key_condition_expression: "room_id = :r AND begins_with(sort, :m)"@,
        expression_attribute_names: Seq::empty(),
        expression_attribute_values: Map::empty().insert(":r"@, Value::N(room_id)).insert(
            ":m"@,
            Value::S(message_prefix()),
        ),
        projection_expression: None,
        scan_index_forward: Some(false),
        limit: Some(limit as i32),
    }
}

/// The call that writes a message.
pub open spec fn post_call(m: MessageView) -> PutItemView {
    PutItemView { table_name: messages_table(), item: message_item(m) }
}

/// The key of the ledger: the one item of the partition `1` with the sort
/// key `active_rooms`.
pub open spec fn ledger_key() -> Map<Seq<char>, Value> {
    Map::empty().insert("room_id"@, Value::N("1"@)).insert("sort"@, Value::S("active_rooms"@))
}

/// The call that reads the ledger.
pub open spec fn ledger_call() -> GetItemView {
    GetItemView {
        table_name: messages_table(),
        key: ledger_key(),
        projection_expression: "room_ids"@,
        expression_attribute_names: Seq::empty(),
    }
}

/// The call that writes `csv` as the ledger, over what it held.
pub open spec fn ledger_put(csv: Seq<char>) -> PutItemView {
    PutItemView {
        table_name: messages_table(),
        item: ledger_key().insert("room_ids"@, Value::S(csv)),
    }
}

/// The call that writes a room.
pub open spec fn room_call(r: RoomView) -> PutItemView {
    PutItemView { table_name: messages_table(), item: room_item(r) }
}

/// The keys of the rooms `ids`, in the same order.
pub open spec fn room_keys(ids: Seq<Seq<char>>) -> Seq<Map<Seq<char>, Value>> {
    Seq::new(ids.len(), |i: int| room_key(ids[i]))
}

/// The one call that fetches the rooms `ids`, with their names.
pub open spec fn rooms_call(ids: Seq<Seq<char>>) -> BatchGetItemView {
    BatchGetItemView {
        table_name: messages_table(),
        keys: room_keys(ids),
        projection_expression: "room_id,#n"@,
        expression_attribute_names: name_alias(),
    }
}

/// The call that writes a user.
pub open spec fn user_call(u: UserView) -> PutItemView {
    PutItemView { table_name: users_table(), item: user_item(u) }
}

/// The call for the user `user_id`.
pub open spec fn user_by_id_call(user_id: Seq<char>) -> GetItemView {
    GetItemView {
        table_name: users_table(),
        key: user_key(user_id),
        projection_expression: "user_id,#n"@,
        expression_attribute_names: name_alias(),
    }
}

/// The call for the users named `user_name`, through the index on names.
pub open spec fn user_by_name_call(user_name: Seq<char>) -> QueryView {
    QueryView {
        table_name: users_table(),
        index_name: Some("name-index"@),
        key_condition_expression: "#n=:n"@,
        expression_attribute_names: name_alias(),
        expression_attribute_values: Map::empty().insert(":n"@, Value::S(user_name)),
        projection_expression: Some("user_id,name"@),
        scan_index_forward: None,
        limit: None,
    }
}

// ---------------------------------------------------------------------
// What the replies mean
// ---------------------------------------------------------------------

/// The error of a user that is not there.
pub open spec fn no_user_view() -> ChatErrorView {
    ChatErrorView { kind: ErrorKind::NotFound, debug: None, display: "User does not exist"@ }
}

/// The error of a name that does not have exactly one user.
pub open spec fn ambiguous_view() -> ChatErrorView {
    ChatErrorView {
        kind: ErrorKind::AmbiguousResult,
        debug: None,
        display: "Result DNE or is ambiguous"@,
    }
}

/// How a message is read from an item.
pub open spec fn message_reader() -> spec_fn(Map<Seq<char>, Value>) -> Result<
    MessageView,
    ChatErrorView,
> {
    |item: Map<Seq<char>, Value>| decoded_message(item)
}

/// How a room is read from an item.
pub open spec fn room_reader() -> spec_fn(Map<Seq<char>, Value>) -> Result<RoomView, ChatErrorView> {
    |item: Map<Seq<char>, Value>| decoded_room(item)
}

/// What reading every item of `items` with `one` gives: the records in the
/// order of the items, or the error of the first item that cannot be read.
pub open spec fn decoded_all<T>(
    items: Seq<Map<Seq<char>, Value>>,
    one: spec_fn(Map<Seq<char>, Value>) -> Result<T, ChatErrorView>,
) -> Result<Seq<T>, ChatErrorView>
    decreases items.len(),
{
    if items.len() == 0 {
        Ok(Seq::empty())
    } else {
        match decoded_all(items.drop_last(), one) {
            Err(e) => Err(e),
            Ok(records) => match one(items.last()) {
                Err(e) => Err(e),
                Ok(record) => Ok(records.push(record)),
            },
        }
    }
}

/// An error among the first items is the error of them all.
pub proof fn lemma_first_error<T>(
    items: Seq<Map<Seq<char>, Value>>,
    one: spec_fn(Map<Seq<char>, Value>) -> Result<T, ChatErrorView>,
    k: int,
)
    requires
        0 <= k <= items.len(),
        decoded_all(items.take(k), one) is Err,
    ensures
        decoded_all(items, one) == decoded_all(items.take(k), one),
    decreases items.len() - k,
{
    if k < items.len() {
        assert(items.take(k + 1).drop_last() =~= items.take(k));
        lemma_first_error(items, one, k + 1);
    } else {
        assert(items.take(k) =~= items);
    }
}

/// The ledger that a reply holds: empty where there is no item yet.
pub open spec fn ledger_value(found: Option<Map<Seq<char>, Value>>) -> Result<
    Seq<char>,
    ChatErrorView,
> {
    match found {
        None => Ok(Seq::empty()),
        Some(item) => read_s(item, "item"@, "room_ids"@),
    }
}

/// The user that a query by name found: the one item of the reply, where
/// the store counted exactly one.
pub open spec fn found_user(reply: Result<QueryOutputView, Seq<char>>) -> Result<
    UserView,
    ChatErrorView,
> {
    match reply {
        Err(debug) => Err(storage_error_view(debug)),
        Ok(output) => if output.count != 1 {
            Err(ambiguous_view())
        } else {
            match output.items {
                None => Err(no_list_view()),
                Some(items) => if items.len() == 0 {
                    Err(no_list_view())
                } else {
                    decoded_user(items[0])
                },
            }
        },
    }
}

/// The step that follows the reply to a call for one item.
pub open spec fn got(state: AfterGetView, reply: Result<Option<Map<Seq<char>, Value>>, Seq<char>>)
    -> StepView {
    match reply {
        Err(debug) => StepView::Done(Err(storage_error_view(debug))),
        Ok(found) => match state {
            AfterGetView::Message => match found {
                None => StepView::Done(Err(query_error_view())),
                Some(item) => match decoded_message(item) {
                    Ok(m) => StepView::Done(Ok(OutcomeView::Message(m))),
                    Err(e) => StepView::Done(Err(e)),
                },
            },
            AfterGetView::User => match found {
                None => StepView::Done(Err(no_user_view())),
                Some(item) => match decoded_user(item) {
                    Ok(u) => StepView::Done(Ok(OutcomeView::User(u))),
                    Err(e) => StepView::Done(Err(e)),
                },
            },
            AfterGetView::LedgerToBump { room_id } => match ledger_value(found) {
                Err(e) => StepView::Done(Err(e)),
                Ok(csv) => StepView::PutItem(ledger_put(bumped(csv, room_id)), AfterPutView::Last),
            },
            AfterGetView::LedgerToList => match ledger_value(found) {
                Err(e) => StepView::Done(Err(e)),
                Ok(csv) => if tokens(csv).len() == 0 {
                    StepView::Done(Ok(OutcomeView::Rooms(Seq::empty())))
                } else {
                    StepView::BatchGetItem(rooms_call(tokens(csv)), AfterBatch::Rooms)
                },
            },
        },
    }
}

/// The step that follows the reply to a call that writes.
pub open spec fn put(state: AfterPutView, reply: Result<(), Seq<char>>) -> StepView {
    match reply {
        Err(debug) => StepView::Done(Err(storage_error_view(debug))),
        Ok(_) => match state {
            AfterPutView::Bump { room_id } => StepView::GetItem(
                ledger_call(),
                AfterGetView::LedgerToBump { room_id },
            ),
            AfterPutView::Last => StepView::Done(Ok(OutcomeView::Stored)),
        },
    }
}

/// The step that follows the reply to a query.
pub open spec fn queried(state: AfterQuery, reply: Result<QueryOutputView, Seq<char>>) -> StepView {
    match state {
        AfterQuery::Messages => match reply {
            Err(debug) => StepView::Done(Err(storage_error_view(debug))),
            Ok(output) => match output.items {
                None => StepView::Done(Err(no_list_view())),
                Some(items) => match decoded_all(items, message_reader()) {
                    Ok(ms) => StepView::Done(Ok(OutcomeView::Messages(ms))),
                    Err(e) => StepView::Done(Err(e)),
                },
            },
        },
        AfterQuery::UserByName => match found_user(reply) {
            Ok(u) => StepView::Done(Ok(OutcomeView::User(u))),
            Err(e) => StepView::Done(Err(e)),
        },
        AfterQuery::UserExists => StepView::Done(Ok(OutcomeView::Exists(found_user(reply) is Ok))),
    }
}

/// The step that follows the reply to a call for several items.
pub open spec fn fetched(
    state: AfterBatch,
    reply: Result<Option<Seq<Map<Seq<char>, Value>>>, Seq<char>>,
) -> StepView {
    match reply {
        Err(debug) => StepView::Done(Err(storage_error_view(debug))),
        Ok(None) => StepView::Done(Err(no_list_view())),
        Ok(Some(items)) => match decoded_all(items, room_reader()) {
            Ok(rs) => StepView::Done(Ok(OutcomeView::Rooms(rs))),
            Err(e) => StepView::Done(Err(e)),
        },
    }
}

/// An item that may be absent, as plain values.
pub open spec fn found_view(found: Option<Item>) -> Option<Map<Seq<char>, Value>> {
    match found {
        Some(item) => Some(item@),
        None => None,
    }
}

/// The reply to a call for one item, as plain values.
pub open spec fn item_reply(reply: Result<Option<Item>, String>) -> Result<
    Option<Map<Seq<char>, Value>>,
    Seq<char>,
> {
    match reply {
        Ok(found) => Ok(found_view(found)),
        Err(debug) => Err(debug@),
    }
}

/// The reply to a call that writes, as plain values.
pub open spec fn put_reply(reply: Result<(), String>) -> Result<(), Seq<char>> {
    match reply {
        Ok(_) => Ok(()),
        Err(debug) => Err(debug@),
    }
}

/// The reply to a query, as plain values.
pub open spec fn query_reply(reply: Result<QueryOutput, String>) -> Result<
    QueryOutputView,
    Seq<char>,
> {
    match reply {
        Ok(output) => Ok(output@),
        Err(debug) => Err(debug@),
    }
}

/// The reply to a call for several items, as plain values.
pub open spec fn batch_reply(reply: Result<Option<Vec<Item>>, String>) -> Result<
    Option<Seq<Map<Seq<char>, Value>>>,
    Seq<char>,
> {
    match reply {
        Ok(Some(items)) => Ok(Some(items.deep_view())),
        Ok(None) => Ok(None),
        Err(debug) => Err(debug@),
    }
}

// ---------------------------------------------------------------------
// Beginning an operation
// ---------------------------------------------------------------------

/// The key of the ledger.
fn ledger_key_of() -> (key: Item)
    ensures
        key@ == ledger_key(),
{
    let mut key = Item::new();
    key.insert("room_id", AttributeValue::N(String::from_str("1")));
    key.insert("sort", AttributeValue::S(String::from_str("active_rooms")));
    key
}

/// The call that reads the ledger.
fn read_ledger() -> (call: GetItem)
    ensures
        call@ == ledger_call(),
{
    GetItem {
        table_name: String::from_str("messages"),
        key: ledger_key_of(),
        projection_expression: String::from_str("room_ids"),
        expression_attribute_names: no_alias(),
    }
}

/// The call that writes `csv` as the ledger.
fn write_ledger(csv: String) -> (call: PutItem)
    ensures
        call@ == ledger_put(csv@),
{
    let mut item = ledger_key_of();
    item.insert("room_ids", AttributeValue::S(csv));
    PutItem { table_name: String::from_str("messages"), item }
}

/// Looks up the message of the room `room_id` that was posted at
/// `message_id`. Ends with the message, or with `NotFound`.
pub fn get_message_by_id(room_id: &str, message_id: &str) -> (step: Step)
    ensures
        step@ == StepView::GetItem(message_call(room_id@, message_id@), AfterGetView::Message),
{
    Step::GetItem(
        GetItem {
            table_name: String::from_str("messages"),
            key: message_key_of(room_id, message_id),
            projection_expression: String::from_str("room_id,sort,sender_id,sender_name,message"),
            expression_attribute_names: no_alias(),
        },
        AfterGet::Message,
    )
}

/// How many messages a listing holds at most where nothing else is said.
pub const PAGE: u8 = 50;

/// Lists the latest messages of the room `room_id`, the latest first, a
/// page of them at most.
pub fn latest_messages(room_id: &str) -> (step: Step)
    ensures
        step@ == StepView::Query(messages_call(room_id@, PAGE), AfterQuery::Messages),
{
    get_messages(room_id, PAGE)
}

/// Lists the latest messages of the room `room_id`, the latest first,
/// `limit` at most.
pub fn get_messages(room_id: &str, limit: u8) -> (step: Step)
    ensures
        step@ == StepView::Query(messages_call(room_id@, limit), AfterQuery::Messages),
{
    let mut values = Item::new();
    values.insert(":r", AttributeValue::N(String::from_str(room_id)));
    values.insert(":m", AttributeValue::S(String::from_str("message.")));
    Step::Query(
        Query {
            table_name: String::from_str("messages"),
            index_name: None,
            key_condition_expression: String::from_str("room_id = :r AND begins_with(sort, :m)"),
            expression_attribute_names: no_alias(),
            expression_attribute_values: values,
            projection_expression: None,
            scan_index_forward: Some(false),
            limit: Some(limit as i32),
        },
        AfterQuery::Messages,
    )
}

/// Posts a message to the room `room_id`: writes the message, and then
/// bumps the room in the ledger. The two writes are not one: where the
/// second fails the message stays written.
pub fn post_message(
    room_id: &str,
    message: &str,
    sender_id: &str,
    sender_name: &str,
    date_time: &str,
) -> (step: Step)
    ensures
        step@ == StepView::PutItem(
            post_call(
                MessageView {
                    room_id: room_id@,
                    date_time: date_time@,
                    sender_id: sender_id@,
                    sender_name: sender_name@,
                    message: message@,
                },
            ),
            AfterPutView::Bump { room_id: room_id@ },
        ),
{
    let record = MessageRecord {
        room_id: String::from_str(room_id),
        date_time: String::from_str(date_time),
        sender_id: String::from_str(sender_id),
        sender_name: String::from_str(sender_name),
        message: String::from_str(message),
    };
    Step::PutItem(
        PutItem { table_name: String::from_str("messages"), item: record.to_item() },
        AfterPut::Bump { room_id: String::from_str(room_id) },
    )
}

/// Bumps the room `room_id` in the ledger: reads the ledger, and writes it
/// back with the room at its end. Nothing guards the ledger between the two
/// calls: of two bumps at once the later write stands.
pub fn bump_room(room_id: &str) -> (step: Step)
    ensures
        step@ == StepView::GetItem(ledger_call(), AfterGetView::LedgerToBump { room_id: room_id@ }),
{
    Step::GetItem(read_ledger(), AfterGet::LedgerToBump { room_id: String::from_str(room_id) })
}

/// Writes the room `room_id` with its name. The room is not bumped.
pub fn create_room(room_id: &str, room_name: &str) -> (step: Step)
    ensures
        step@ == StepView::PutItem(
            room_call(RoomView { room_id: room_id@, name: room_name@ }),
            AfterPutView::Last,
        ),
{
    let record = RoomRecord { room_id: String::from_str(room_id), name: String::from_str(room_name) };
    Step::PutItem(
        PutItem { table_name: String::from_str("messages"), item: record.to_item() },
        AfterPut::Last,
    )
}

/// Opens the room `room_id`: writes it with its name, and then bumps it in
/// the ledger, so that it is listed.
pub fn open_room(room_id: &str, room_name: &str) -> (step: Step)
    ensures
        step@ == StepView::PutItem(
            room_call(RoomView { room_id: room_id@, name: room_name@ }),
            AfterPutView::Bump { room_id: room_id@ },
        ),
{
    let record = RoomRecord { room_id: String::from_str(room_id), name: String::from_str(room_name) };
    Step::PutItem(
        PutItem { table_name: String::from_str("messages"), item: record.to_item() },
        AfterPut::Bump { room_id: String::from_str(room_id) },
    )
}

/// Lists the rooms of the ledger: reads the ledger, and fetches its rooms
/// with one call; a ledger without entries ends the operation at once.
pub fn get_active_rooms() -> (step: Step)
    ensures
        step@ == StepView::GetItem(ledger_call(), AfterGetView::LedgerToList),
{
    Step::GetItem(read_ledger(), AfterGet::LedgerToList)
}

/// Writes the user `user_id` with their name.
pub fn create_user(user_id: &str, user_name: &str) -> (step: Step)
    ensures
        step@ == StepView::PutItem(
            user_call(UserView { user_id: user_id@, name: user_name@ }),
            AfterPutView::Last,
        ),
{
    let record = UserRecord { user_id: String::from_str(user_id), name: String::from_str(user_name) };
    Step::PutItem(
        PutItem { table_name: String::from_str("users"), item: record.to_item() },
        AfterPut::Last,
    )
}

/// Looks up the user `user_id`. Ends with the user, or with `NotFound`.
pub fn get_user_by_id(user_id: &str) -> (step: Step)
    ensures
        step@ == StepView::GetItem(user_by_id_call(user_id@), AfterGetView::User),
{
    Step::GetItem(
        GetItem {
            table_name: String::from_str("users"),
            key: user_key_of(user_id),
            projection_expression: String::from_str("user_id,#n"),
            expression_attribute_names: one_alias("#n", "name"),
        },
        AfterGet::User,
    )
}

/// The query for the users named `user_name`.
fn by_name(user_name: &str) -> (call: Query)
    ensures
        call@ == user_by_name_call(user_name@),
{
    let mut values = Item::new();
    values.insert(":n", AttributeValue::S(String::from_str(user_name)));
    Query {
        table_name: String::from_str("users"),
        index_name: Some(String::from_str("name-index")),
        key_condition_expression: String::from_str("#n=:n"),
        expression_attribute_names: one_alias("#n", "name"),
        expression_attribute_values: values,
        projection_expression: Some(String::from_str("user_id,name")),
        scan_index_forward: None,
        limit: None,
    }
}

/// Looks up the one user named `user_name`. Ends with the user, or with
/// `AmbiguousResult` where the name has no user or more than one.
pub fn get_user_by_name(user_name: &str) -> (step: Step)
    ensures
        step@ == StepView::Query(user_by_name_call(user_name@), AfterQuery::UserByName),
{
    Step::Query(by_name(user_name), AfterQuery::UserByName)
}

/// Tells whether `user_name` has its one user. Whatever keeps the lookup
/// from succeeding counts as no.
pub fn user_exists(user_name: &str) -> (step: Step)
    ensures
        step@ == StepView::Query(user_by_name_call(user_name@), AfterQuery::UserExists),
{
    Step::Query(by_name(user_name), AfterQuery::UserExists)
}

// ---------------------------------------------------------------------
// Going on after a reply
// ---------------------------------------------------------------------

/// The messages that `items` hold.
fn messages_of(items: &Vec<Item>) -> (r: Result<Vec<MessageRecord>, ChatError>)
    ensures
        match r {
            Ok(ms) => decoded_all(items.deep_view(), message_reader()) == Ok::<
                Seq<MessageView>,
                ChatErrorView,
            >(ms.deep_view()),
            Err(e) => decoded_all(items.deep_view(), message_reader()) == Err::<
                Seq<MessageView>,
                ChatErrorView,
            >(e@),
        },
{
    let mut out: Vec<MessageRecord> = Vec::new();
    let mut i: usize = 0;
    proof {
        assert(out.deep_view() =~= Seq::<MessageView>::empty());
    }
    while i < items.len()
        invariant
            0 <= i <= items.len(),
            decoded_all(items.deep_view().take(i as int), message_reader()) == Ok::<
                Seq<MessageView>,
                ChatErrorView,
            >(out.deep_view()),
        decreases items.len() - i,
    {
        proof {
            let all = items.deep_view();
            assert(all.take(i + 1).drop_last() =~= all.take(i as int));
            assert(all.take(i + 1).last() == items[i as int]@);
        }
        match MessageRecord::from_item(&items[i]) {
            Ok(m) => {
                let ghost before = out.deep_view();
                let ghost record = m@;
                out.push(m);
                assert(out.deep_view() =~= before.push(record));
            },
            Err(e) => {
                proof {
                    lemma_first_error(items.deep_view(), message_reader(), i + 1);
                }
                return Err(e);
            },
        }
        i += 1;
    }
    proof {
        assert(items.deep_view().take(i as int) =~= items.deep_view());
    }
    Ok(out)
}

/// The rooms that `items` hold.
fn rooms_of(items: &Vec<Item>) -> (r: Result<Vec<RoomRecord>, ChatError>)
    ensures
        match r {
            Ok(rs) => decoded_all(items.deep_view(), room_reader()) == Ok::<
                Seq<RoomView>,
                ChatErrorView,
            >(rs.deep_view()),
            Err(e) => decoded_all(items.deep_view(), room_reader()) == Err::<
                Seq<RoomView>,
                ChatErrorView,
            >(e@),
        },
{
    let mut out: Vec<RoomRecord> = Vec::new();
    let mut i: usize = 0;
    proof {
        assert(out.deep_view() =~= Seq::<RoomView>::empty());
    }
    while i < items.len()
        invariant
            0 <= i <= items.len(),
            decoded_all(items.deep_view().take(i as int), room_reader()) == Ok::<
                Seq<RoomView>,
                ChatErrorView,
            >(out.deep_view()),
        decreases items.len() - i,
    {
        proof {
            let all = items.deep_view();
            assert(all.take(i + 1).drop_last() =~= all.take(i as int));
            assert(all.take(i + 1).last() == items[i as int]@);
        }
        match RoomRecord::from_item(&items[i]) {
            Ok(room) => {
                let ghost before = out.deep_view();
                let ghost record = room@;
                out.push(room);
                assert(out.deep_view() =~= before.push(record));
            },
            Err(e) => {
                proof {
                    lemma_first_error(items.deep_view(), room_reader(), i + 1);
                }
                return Err(e);
            },
        }
        i += 1;
    }
    proof {
        assert(items.deep_view().take(i as int) =~= items.deep_view());
    }
    Ok(out)
}

/// The ledger that the reply to its call holds.
fn ledger_of(found: &Option<Item>) -> (r: Result<String, ChatError>)
    ensures
        match r {
            Ok(csv) => ledger_value(found_view(*found)) == Ok::<Seq<char>, ChatErrorView>(csv@),
            Err(e) => ledger_value(found_view(*found)) == Err::<Seq<char>, ChatErrorView>(e@),
        },
{
    match found {
        None => Ok(String::new()),
        Some(item) => item.s("item", "room_ids"),
    }
}

/// The call that fetches the rooms `ids`.
fn fetch_rooms(ids: &Vec<String>) -> (call: BatchGetItem)
    ensures
        call@ == rooms_call(ids.deep_view()),
{
    let mut keys: Vec<Item> = Vec::new();
    let mut i: usize = 0;
    while i < ids.len()
        invariant
            0 <= i <= ids.len(),
            keys.len() == i,
            forall|j: int| 0 <= j < i ==> (#[trigger] keys[j])@ == room_key(ids[j]@),
        decreases ids.len() - i,
    {
        keys.push(room_key_of(ids[i].as_str()));
        i += 1;
    }
    assert(keys.deep_view() =~= room_keys(ids.deep_view()));
    BatchGetItem {
        table_name: String::from_str("messages"),
        keys,
        projection_expression: String::from_str("room_id,#n"),
        expression_attribute_names: one_alias("#n", "name"),
    }
}

/// Goes on after a call for one item: `reply` is the item that the store
/// found, if it found one, or the store's account of its failure.
pub fn after_get(state: AfterGet, reply: Result<Option<Item>, String>) -> (step: Step)
    ensures
        step@ == got(state@, item_reply(reply)),
{
    let found = match reply {
        Err(debug) => {
            return Step::Done(Err(ChatError::storage(debug)));
        },
        Ok(found) => found,
    };
    match state {
        AfterGet::Message => match found {
            None => Step::Done(Err(query_error())),
            Some(item) => match MessageRecord::from_item(&item) {
                Ok(m) => Step::Done(Ok(Outcome::Message(m))),
                Err(e) => Step::Done(Err(e)),
            },
        },
        AfterGet::User => match found {
            None => Step::Done(
                Err(
                    ChatError::of_kind(
                        ErrorKind::NotFound,
                        None,
                        String::from_str("User does not exist"),
                    ),
                ),
            ),
            Some(item) => match UserRecord::from_item(&item) {
                Ok(u) => Step::Done(Ok(Outcome::User(u))),
                Err(e) => Step::Done(Err(e)),
            },
        },
        AfterGet::LedgerToBump { room_id } => match ledger_of(&found) {
            Err(e) => Step::Done(Err(e)),
            Ok(csv) => Step::PutItem(
                write_ledger(bump_csv(csv.as_str(), room_id.as_str())),
                AfterPut::Last,
            ),
        },
        AfterGet::LedgerToList => match ledger_of(&found) {
            Err(e) => Step::Done(Err(e)),
            Ok(csv) => {
                let ids = list(csv.as_str());
                if ids.len() == 0 {
                    let none: Vec<RoomRecord> = Vec::new();
                    assert(none.deep_view() =~= Seq::<RoomView>::empty());
                    Step::Done(Ok(Outcome::Rooms(none)))
                } else {
                    Step::BatchGetItem(fetch_rooms(&ids), AfterBatch::Rooms)
                }
            },
        },
    }
}

/// Goes on after a call that writes: `reply` is empty, or the store's
/// account of its failure.
pub fn after_put(state: AfterPut, reply: Result<(), String>) -> (step: Step)
    ensures
        step@ == put(state@, put_reply(reply)),
{
    match reply {
        Err(debug) => Step::Done(Err(ChatError::storage(debug))),
        Ok(_) => match state {
            AfterPut::Bump { room_id } => Step::GetItem(
                read_ledger(),
                AfterGet::LedgerToBump { room_id },
            ),
            AfterPut::Last => Step::Done(Ok(Outcome::Stored)),
        },
    }
}

/// The user that a query by name found.
fn user_of(reply: Result<QueryOutput, String>) -> (r: Result<UserRecord, ChatError>)
    ensures
        match r {
            Ok(u) => found_user(query_reply(reply)) == Ok::<UserView, ChatErrorView>(u@),
            Err(e) => found_user(query_reply(reply)) == Err::<UserView, ChatErrorView>(e@),
        },
{
    match reply {
        Err(debug) => Err(ChatError::storage(debug)),
        Ok(output) => {
            if output.count != 1 {
                return Err(
                    ChatError::of_kind(
                        ErrorKind::AmbiguousResult,
                        None,
                        String::from_str("Result DNE or is ambiguous"),
                    ),
                );
            }
            match output.items {
                None => Err(no_list()),
                Some(items) => {
                    if items.len() == 0 {
                        Err(no_list())
                    } else {
                        UserRecord::from_item(&items[0])
                    }
                },
            }
        },
    }
}

/// Goes on after a query: `reply` is what the store found, or the store's
/// account of its failure.
pub fn after_query(state: AfterQuery, reply: Result<QueryOutput, String>) -> (step: Step)
    ensures
        step@ == queried(state, query_reply(reply)),
{
    match state {
        AfterQuery::Messages => match reply {
            Err(debug) => Step::Done(Err(ChatError::storage(debug))),
            Ok(output) => match output.items {
                None => Step::Done(Err(no_list())),
                Some(items) => match messages_of(&items) {
                    Ok(ms) => Step::Done(Ok(Outcome::Messages(ms))),
                    Err(e) => Step::Done(Err(e)),
                },
            },
        },
        AfterQuery::UserByName => match user_of(reply) {
            Ok(u) => Step::Done(Ok(Outcome::User(u))),
            Err(e) => Step::Done(Err(e)),
        },
        AfterQuery::UserExists => {
            let exists = match user_of(reply) {
                Ok(_) => true,
                Err(_) => false,
            };
            Step::Done(Ok(Outcome::Exists(exists)))
        },
    }
}

/// Goes on after a call for several items: `reply` is the items that the
/// store found, where it sent any list, or the store's account of its
/// failure.
pub fn after_batch(state: AfterBatch, reply: Result<Option<Vec<Item>>, String>) -> (step: Step)
    ensures
        step@ == fetched(state, batch_reply(reply)),
{
    match reply {
        Err(debug) => Step::Done(Err(ChatError::storage(debug))),
        Ok(None) => Step::Done(Err(no_list())),
        Ok(Some(items)) => match rooms_of(&items) {
            Ok(rs) => Step::Done(Ok(Outcome::Rooms(rs))),
            Err(e) => Step::Done(Err(e)),
        },
    }
}

/// A ledger that is not there yet, or that holds no entry, ends the listing
/// of rooms at once, with no room and without a call for rooms.
pub proof fn lemma_empty_ledger_fetches_nothing(found: Option<Map<Seq<char>, Value>>)
    requires
        match ledger_value(found) {
            Ok(csv) => tokens(csv).len() == 0,
            Err(_) => false,
        },
    ensures
        got(AfterGetView::LedgerToList, Ok(found)) == StepView::Done(
            Ok(OutcomeView::Rooms(Seq::empty())),
        ),
        got(AfterGetView::LedgerToList, Ok(None)) == StepView::Done(
            Ok(OutcomeView::Rooms(Seq::empty())),
        ),
{
    lemma_empty_ledger();
}

/// How many calls to the store an operation may still make from `step` on,
/// at most.
pub open spec fn calls_left(step: StepView) -> nat {
    match step {
        StepView::Done(_) => 0,
        StepView::GetItem(_, AfterGetView::Message) => 1,
        StepView::GetItem(_, AfterGetView::User) => 1,
        StepView::GetItem(_, AfterGetView::LedgerToBump { .. }) => 2,
        StepView::GetItem(_, AfterGetView::LedgerToList) => 2,
        StepView::PutItem(_, AfterPutView::Bump { .. }) => 3,
        StepView::PutItem(_, AfterPutView::Last) => 1,
        StepView::Query(_, _) => 1,
        StepView::BatchGetItem(_, _) => 1,
    }
}

/// Every operation ends: whatever the store replies, the step after a call
/// has fewer calls left than the step of that call, and no step has more
/// than three calls left.
pub proof fn lemma_operations_end(
    get: (GetItemView, AfterGetView, Result<Option<Map<Seq<char>, Value>>, Seq<char>>),
    write: (PutItemView, AfterPutView, Result<(), Seq<char>>),
    query: (QueryView, AfterQuery, Result<QueryOutputView, Seq<char>>),
    batch: (BatchGetItemView, AfterBatch, Result<Option<Seq<Map<Seq<char>, Value>>>, Seq<char>>),
)
    ensures
        calls_left(got(get.1, get.2)) < calls_left(StepView::GetItem(get.0, get.1)) <= 3,
        calls_left(put(write.1, write.2)) < calls_left(StepView::PutItem(write.0, write.1)) <= 3,
        calls_left(queried(query.1, query.2)) < calls_left(StepView::Query(query.0, query.1)) <= 3,
        calls_left(fetched(batch.1, batch.2)) < calls_left(
            StepView::BatchGetItem(batch.0, batch.1),
        ) <= 3,
{
}

} // verus!
