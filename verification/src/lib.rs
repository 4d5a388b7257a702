//! Request-handling logic of an end-to-end encrypted chat server: SRP login
//! sessions, error responses, chat history and live routing of messages.
//!
//! The HTTP server, the database, the session store and the websocket
//! transport live outside this crate; they hand plain values to the functions
//! here and carry out the actions these functions return.

pub mod auth;
pub mod chat;
pub mod common;
pub mod user;
pub mod utils;
