//! Verified core of the OnlySQ chat client: slash commands, warning
//! filtering, the model catalog, and the chat-completions protocol logic.

pub mod index_order;
pub mod json_value;
pub mod string_set;
pub mod text;

pub mod debug_log;

pub mod model_catalog;
pub mod slash_command;
pub mod warnings;

pub mod chat_messages;
pub mod chat_request;
pub mod chat_stream;
pub mod chat_tools;
pub mod fallback;
pub mod sse;
pub mod stream_laws;
pub mod turn_reader;

