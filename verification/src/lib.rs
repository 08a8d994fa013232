//! Client-side session logic of a group chat: the wire protocol, the roster
//! of connected users and the log of chat messages.

pub mod json;
pub mod text;
pub mod protocol;
pub mod roster;
pub mod chat;
