//! Command protocol of a native-messaging media helper: the command model,
//! the length-prefixed framing of messages, and the decisions that turn
//! browser updates into media-session state and media keys into commands.

pub mod command;
pub mod frame;
pub mod keys;
pub mod reader;
pub mod session;
