//! Storage core of a small chat service: the ledger of active rooms, the
//! layout of rooms, messages and users in the key-value store, and the
//! decisions taken between two calls to that store.
//!
//! Nothing here talks to the store. `handlers` begins a request and says,
//! as a `Progress`, which call to the store comes next; whoever makes the
//! call hands the reply back, and is told the next call, until the answer
//! is there. `db` does the same for a single operation. `ledger` holds the
//! one string that orders the active rooms, `records` the form of rooms,
//! messages and users in the store.

pub mod attribute;
mod clock;
pub mod db;
pub mod errors;
pub mod handlers;
pub mod init;
pub mod ledger;
pub mod links;
pub mod models;
mod random;
pub mod records;
pub mod site;
pub mod store;
pub mod text;
