//! Session engine of a remote-play invite companion: the reconnect state
//! machine with its backoff, the wire protocol and its dispatcher, the invite
//! correlation slot, the guest roster and the classification of connection
//! failures.

pub mod codec;
pub mod config;
pub mod game_id;
pub mod handlers;
pub mod invite;
pub mod json;
pub mod models;
pub mod retry;
pub mod roster;
pub mod session;
pub mod text;
pub mod uri;
pub mod ws_error_handler;
