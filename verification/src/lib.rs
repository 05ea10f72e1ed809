//! An orchestration layer between a language model and the tool providers it
//! may call: provider configuration, the tool catalog and its routing table,
//! and the step functions that drive start-up and a conversation.

pub mod agent;
pub mod llm;
pub mod text;
