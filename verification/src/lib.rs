//! Columnar result-set core for a time-series database client.
//!
//! The crate models the in-memory representation of query results once bytes
//! are available: packed null bitmaps ([`nulls`]), typed column views over
//! shared byte buffers ([`big_int_unsigned_view`]), rectangular blocks with
//! row and value iteration and a typed row-to-record bridge ([`block`],
//! [`rows`]), the self-describing wire envelope ([`data`]), the state machine
//! that turns a one-shot native callback into a pollable asynchronous
//! operation ([`future`]), and the result codes of the message-queue API
//! ([`tmq`]).

pub mod buffer;
pub mod nulls;
pub mod value;
pub mod block;
pub mod rows;
pub mod big_int_unsigned_view;
pub mod data;
pub mod error;
pub mod future;
pub mod tmq;
