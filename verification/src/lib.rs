//! The decision core of a session-recording service: consent tokens, the user
//! directory, and the filtering of live events for WebSocket clients.
//!
//! Everything here works on plain values. The surrounding program reads rows,
//! runs the calls that a handler asks for, and hands the replies back.

pub mod db;
pub mod error;
pub mod ids;
pub mod routes;
mod text;
