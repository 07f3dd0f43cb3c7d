//! Verified conversion between the multi-agent task protocol and the
//! OpenAI chat-completions protocol, and the bookkeeping of user-configured
//! direct inference providers.

pub mod text;
pub mod json;
pub mod proto;
pub mod ids;
pub mod openai;
pub mod translate;
pub mod tool_defs;
pub mod net;
pub mod providers;
pub mod proxy;
pub mod modal;
pub mod laws;
pub mod turn_laws;
pub mod schema_laws;
