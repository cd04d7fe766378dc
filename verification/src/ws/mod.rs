//! Live updates over a socket: the messages, the subscription registry and
//! the handling of what a client sends.

pub mod connection;
pub mod handler;
pub mod message;
