//! Verified core of a harness for tests that need a database of their own.
//!
//! A test gets a scratch database under a fresh name, a pool of connections
//! bound to it, and a teardown that it has to ask for. This crate holds
//! every decision of that life cycle: how the database is named, what is
//! sent to the server and in which order, what a failure means, and when a
//! connection may go back to its pool. It never talks to a server itself: it
//! hands out commands and takes replies, and whoever holds the connection
//! carries them out.
//!
//! - `naming`: the names of scratch databases.
//! - `options`: where the server is.
//! - `statements`: the text of what is sent.
//! - `pool`: the settings of a pool and the setup of each new connection.
//! - `protocol`: commands and replies.
//! - `transaction`: the states of a transaction and the release of its connection.
//! - `operation`: the transactional operation that the harness probes.
//! - `guard`: the setup and the teardown of one scratch database.
//! - `lifecycle`: what holds of every setup and teardown.

pub mod naming;
pub mod options;
pub mod statements;
pub mod pool;
pub mod protocol;
pub mod error;
pub mod transaction;
pub mod operation;
pub mod guard;
pub mod lifecycle;
