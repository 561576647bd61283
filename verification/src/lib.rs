//! Control-connection core of a line-oriented file-transfer protocol server.
//!
//! The library holds the verified logic of the server: encoding numeric
//! replies into wire lines, classifying the outcome of a line read,
//! splitting a command line into an action and its parameters, the
//! per-connection session state, the dispatcher that maps a command to a
//! reply and a continue/close signal, and the connection worker expressed
//! as a state machine over read/write events.  All socket and thread
//! handling lives outside the library and drives the state machine.

pub mod dispatch;
pub mod laws;
pub mod parser;
pub mod reader;
pub mod reply;
pub mod session;
pub mod worker;
