//! Lila: a chatty Discord companion. This crate holds the verified core: prompt
//! templating, message history selection, tool-call decoding and the bookkeeping
//! of the model conversation.

pub mod interaction;
pub mod json;
pub mod settings;
pub mod text;
pub mod time;
