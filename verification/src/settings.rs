//! Deployment settings: where the bot finds its secrets and which models it talks to.

use vstd::prelude::*;

verus! {

/// Environment variable that holds the Discord bot token.
pub const DISCORD_TOKEN_VAR: &'static str = "DISCORD_TOKEN";

/// Environment variable that holds the token of the model provider.
pub const LLM_TOKEN_VAR: &'static str = "OPEN_ROUTER_TOKEN";

/// Base URL of the OpenAI-compatible model provider.
pub const LLM_API_BASE: &'static str = "https://openrouter.ai/api/v1";

/// The model that converses.
pub const MODEL: &'static str = "google/gemini-3-flash-preview";

/// The model that shortens texts.
pub const SUMMARIZATION_MODEL: &'static str = "llama-3.1-8b-instant";

/// How many recent messages of a channel the bot reads before it decides to speak.
pub const MESSAGE_CONTEXT_SIZE: u8 = 20;

} // verus!
