//! The one error type of the service: a kind that callers can tell apart, a
//! message for the end user, and a diagnostic that is only ever logged.

use crate::random::random_u64;
use crate::text::{join3, decimal, decimal_string};
use vstd::prelude::*;
use vstd::string::*;

verus! {

/// What went wrong.
#[derive(Clone, Copy, Debug, PartialEq, Eq, Structural)]
pub enum ErrorKind {
    /// A lookup by key found no item.
    NotFound,
    /// A lookup by name did not find exactly one item.
    AmbiguousResult,
    /// An item lacks an attribute that the record needs.
    FieldMissing,
    /// An attribute is there, but not of the type that the record needs.
    TypeMismatch,
    /// The store failed, or answered what it should not.
    StorageError,
    /// The caller sent something that cannot be taken.
    ValidationError,
}

/// An error of the service.
#[derive(Debug)]
pub struct ChatError {
    /// What went wrong.
    pub kind: ErrorKind,
    /// What is logged, where there is something to log.
    pub debug: Option<String>,
    /// What the end user is told.
    pub display: String,
}

/// A `ChatError` as plain values.
pub struct ChatErrorView {
    pub kind: ErrorKind,
    pub debug: Option<Seq<char>>,
    pub display: Seq<char>,
}

impl View for ChatError {
    type V = ChatErrorView;

    open spec fn view(&self) -> ChatErrorView {
        ChatErrorView {
            kind: self.kind,
            debug: match self.debug {
                Some(text) => Some(text@),
                None => None,
            },
            display: self.display@,
        }
    }
}

/// What the end user is told when the fault is not theirs.
pub open spec fn internal_text() -> Seq<char> {
    "Internal server error"@
}

/// The error of a lookup by key that found no item.
pub open spec fn query_error_view() -> ChatErrorView {
    ChatErrorView { kind: ErrorKind::NotFound, debug: None, display: "Query error"@ }
}

/// The error of a reply that came back well, but without the list that was
/// asked for.
pub open spec fn no_list_view() -> ChatErrorView {
    ChatErrorView { kind: ErrorKind::StorageError, debug: None, display: "Query error"@ }
}

/// The error of a store that failed, with the store's own account of it.
pub open spec fn storage_error_view(debug: Seq<char>) -> ChatErrorView {
    ChatErrorView { kind: ErrorKind::StorageError, debug: Some(debug), display: internal_text() }
}

/// The error of an input that cannot be taken, with what the user is told.
pub open spec fn invalid_view(display: Seq<char>) -> ChatErrorView {
    ChatErrorView { kind: ErrorKind::ValidationError, debug: None, display }
}

/// The error of an item named `source` that lacks the attribute `key`.
pub open spec fn missing_view(source: Seq<char>, key: Seq<char>) -> ChatErrorView {
    ChatErrorView {
        kind: ErrorKind::FieldMissing,
        debug: Some("Could not index "@ + source + " by "@ + key),
        display: internal_text(),
    }
}

impl ChatError {
    /// An error of the kind `StorageError`, the kind of every failure that
    /// is not told apart any further.
    pub fn new(debug: Option<String>, display: String) -> (e: Self)
        ensures
            e.kind == ErrorKind::StorageError,
            e.debug == debug,
            e.display == display,
    {
        Self { kind: ErrorKind::StorageError, debug, display }
    }

    /// An error of the given kind.
    pub fn of_kind(kind: ErrorKind, debug: Option<String>, display: String) -> (e: Self)
        ensures
            e.kind == kind,
            e.debug == debug,
            e.display == display,
    {
        Self { kind, debug, display }
    }

    /// The error of a store that failed; `debug` is the store's own account.
    pub fn storage(debug: String) -> (e: Self)
        ensures
            e@ == storage_error_view(debug@),
    {
        Self {
            kind: ErrorKind::StorageError,
            debug: Some(debug),
            display: String::from_str("Internal server error"),
        }
    }

    /// The error of an input that cannot be taken.
    pub fn invalid(display: &str) -> (e: Self)
        ensures
            e@ == invalid_view(display@),
    {
        Self { kind: ErrorKind::ValidationError, debug: None, display: String::from_str(display) }
    }

    /// The error of an item named `source` that lacks the attribute `key`.
    pub fn missing(source: &str, key: &str) -> (e: Self)
        ensures
            e@ == missing_view(source@, key@),
    {
        let mut debug = join3("Could not index ", source, " by ");
        debug.append(key);
        Self {
            kind: ErrorKind::FieldMissing,
            debug: Some(debug),
            display: String::from_str("Internal server error"),
        }
    }
}

/// The error of a reply that came back well, but without the list that was
/// asked for: the store answered what it should not.
pub fn no_list() -> (e: ChatError)
    ensures
        e@ == no_list_view(),
{
    ChatError { kind: ErrorKind::StorageError, debug: None, display: String::from_str("Query error") }
}

/// The error of a lookup by key that found no item.
pub fn query_error() -> (e: ChatError)
    ensures
        e@ == query_error_view(),
{
    ChatError { kind: ErrorKind::NotFound, debug: None, display: String::from_str("Query error") }
}

/// What a failed request is answered with, and what is logged of it.
#[derive(Debug)]
pub struct Failure {
    /// The status of the answer.
    pub status: u16,
    /// The body of the answer.
    pub body: String,
    /// The line to log, where the error holds a diagnostic.
    pub log: Option<String>,
}

/// A `Failure` as plain values.
pub struct FailureView {
    pub status: u16,
    pub body: Seq<char>,
    pub log: Option<Seq<char>>,
}

impl View for Failure {
    type V = FailureView;

    open spec fn view(&self) -> FailureView {
        FailureView {
            status: self.status,
            body: self.body@,
            log: match self.log {
                Some(line) => Some(line@),
                None => None,
            },
        }
    }
}

/// The answer to a request that failed with `error`, marked with the number
/// `id`. An error with a diagnostic is logged under `id`, and the user is
/// told `id` behind the message; an error without one shows the message
/// alone.
pub open spec fn failure_view(error: ChatErrorView, id: u64) -> FailureView {
    match error.debug {
        Some(debug) => FailureView {
            status: 500,
            body: error.display + " ("@ + decimal(id as nat) + ")"@,
            log: Some("FATAL ("@ + decimal(id as nat) + ") "@ + debug),
        },
        None => FailureView { status: 500, body: error.display, log: None },
    }
}

/// The answer to a request that failed with `error`, marked with `id`.
pub fn failure(error: ChatError, id: u64) -> (f: Failure)
    ensures
        f@ == failure_view(error@, id),
{
    match error.debug {
        Some(debug) => {
            let number = decimal_string(id as u128);
            let mut body = error.display;
            body.append(" (");
            body.append(number.as_str());
            body.append(")");
            let mut line = join3("FATAL (", number.as_str(), ") ");
            line.append(debug.as_str());
            Failure { status: 500, body, log: Some(line) }
        },
        None => Failure { status: 500, body: error.display, log: None },
    }
}

/// The answer to a request that failed with `error`, marked with a number
/// drawn at random.
pub fn into_failure(error: ChatError) -> (f: Failure)
    ensures
        exists|id: u64| f@ == failure_view(error@, id),
{
    let id = random_u64(0, u64::MAX);
    failure(error, id)
}

} // verus!
