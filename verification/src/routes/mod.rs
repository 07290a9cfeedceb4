//! The request handlers.
//!
//! A handler that works through calls to the database or to other services is a
//! flow: a state that names the call to make next, and that takes the call's
//! reply to become the next state, until the request is answered.

pub mod consent;
pub mod consent_laws;
pub mod table;
pub mod users;
pub mod users_laws;
pub mod ws;
pub mod ws_laws;
