//! Verified state machines behind three asynchronous byte-stream adapters: a
//! bridge between two read/write conventions, a reader that records and
//! replays a prefix, and a reader fed by an independently running producer.
pub mod compat;
pub mod migration;
pub mod pipe;
pub mod read_buf;
pub mod replay;
pub mod ui;
