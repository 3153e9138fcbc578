//! Session core of an interactive chat client: the message log and its
//! viewport, the command grammar of the input line, the reconnect-once
//! policy of the connection, and the nickname / color / chat handshake.

pub mod color;
pub mod command;
pub mod connection;
pub mod ingest;
pub mod message;
pub mod session;
pub mod startup;
pub mod store;
pub mod text;
